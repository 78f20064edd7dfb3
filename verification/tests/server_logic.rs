use rusty::balancer::{should_pause, take_batch, worker_count};
use rusty::handler::mime::extract_mime;
use rusty::handler::request::{prepare_path, Request as HandlerRequest};
use rusty::handler::response::{Response, Status};
use rusty::handler::{route, step, waits_for, Action, Event, Route, Stage};
use rusty::fs_path::collect_path;
use rusty::open_file::open_file_path;
use rusty::request::{split_request_line, Request};
use rusty::response::parse;
use rusty::text::{
    chars_of, contains_chars, decimal_chars, ends_with_chars, first_line_chars, is_whitespace,
    split_spaces_chars, trim_chars,
};

fn buffer_of(text: &str) -> [u8; 4096] {
    let mut buf = [0u8; 4096];
    buf[..text.len()].copy_from_slice(text.as_bytes());
    buf
}

fn string(chars: &[char]) -> String {
    chars.iter().collect()
}

fn handler_request(text: &str) -> HandlerRequest {
    HandlerRequest::try_new(&buffer_of(text)).expect("request line")
}

/// Runs the handler's decisions with the given file-system answers and
/// returns the actions taken.
fn run(req: &HandlerRequest, res: &Response, exists: &[bool], len: u64) -> Vec<Action> {
    let mut stage = Stage::Start;
    let mut event = Event::Started;
    let mut answers = exists.iter();
    let mut actions = Vec::new();
    loop {
        assert!(waits_for(stage, event));
        let (next, action) = step(req, res, stage, event);
        stage = next;
        match action {
            Action::CheckExists => event = Event::Exists(*answers.next().unwrap()),
            Action::MeasureFile => event = Event::Length(len),
            other => {
                actions.push(other);
                break;
            },
        }
    }
    assert_eq!(stage, Stage::Finished);
    actions
}

#[test]
fn mime_types_by_extension() {
    assert_eq!(extract_mime("html"), "text/html");
    assert_eq!(extract_mime("css"), "text/css");
    assert_eq!(extract_mime("js"), "application/javascript");
    assert_eq!(extract_mime("jpg"), "image/jpeg");
    assert_eq!(extract_mime("jpeg"), "image/jpeg");
    assert_eq!(extract_mime("png"), "image/png");
    assert_eq!(extract_mime("gif"), "image/gif");
    assert_eq!(extract_mime("swf"), "application/x-shockwave-flash");
    assert_eq!(extract_mime("txt"), "application/octet-stream");
    assert_eq!(extract_mime(""), "application/octet-stream");
    assert_eq!(extract_mime("HTML"), "application/octet-stream");
}

#[test]
fn status_codes_and_reasons() {
    assert_eq!(Status::extract(Status::SUCCESS), (200, "Success".to_string()));
    assert_eq!(Status::extract(Status::FORBIDDEN), (403, "Forbidden".to_string()));
    assert_eq!(Status::extract(Status::NOT_FOUND), (404, "Not Found".to_string()));
    assert_eq!(
        Status::extract(Status::METHOD_NOT_ALLOWED),
        (405, "Method Not Allowed".to_string())
    );
}

#[test]
fn set_status_selects_by_code() {
    let mut r = Response::new_at(0);
    r.set_status(403);
    assert_eq!(*r.status(), Status::FORBIDDEN);
    r.set_status(404);
    assert_eq!(*r.status(), Status::NOT_FOUND);
    r.set_status(405);
    assert_eq!(*r.status(), Status::METHOD_NOT_ALLOWED);
    r.set_status(500);
    assert_eq!(*r.status(), Status::SUCCESS);
    for s in [Status::SUCCESS, Status::FORBIDDEN, Status::NOT_FOUND, Status::METHOD_NOT_ALLOWED] {
        let (code, _) = Status::extract(s);
        r.set_status(code);
        assert_eq!(*r.status(), s);
    }
}

#[test]
fn fresh_response_defaults() {
    let mut r = Response::new_at(784111777);
    assert_eq!(*r.status(), Status::SUCCESS);
    assert_eq!(r.content_type(), "application/octet-stream");
    assert_eq!(r.content_length(), "0");
    assert_eq!(r.server(), "Rusty");
    assert_eq!(r.connection(), "closer");
    assert_eq!(*r.date(), Some(784111777));
    let mut now = Response::new();
    assert_eq!(now.server(), "Rusty");
    assert_eq!(*now.status(), Status::SUCCESS);
    assert!(now.date().is_some());
}

#[test]
fn setters_change_one_field() {
    let mut r = Response::new_at(0);
    r.set_content_type("text/css".to_string());
    r.set_content_length("12".to_string());
    r.set_server("Other".to_string());
    r.set_connection("keep-alive".to_string());
    r.set_date(5);
    assert_eq!(r.content_type(), "text/css");
    assert_eq!(r.content_length(), "12");
    assert_eq!(r.server(), "Other");
    assert_eq!(r.connection(), "keep-alive");
    assert_eq!(*r.date(), Some(5));
    assert_eq!(*r.status(), Status::SUCCESS);
    let mut d = r.duplicate();
    assert_eq!(d.content_type(), "text/css");
    assert_eq!(*d.date(), Some(5));
}

#[test]
fn http_dates() {
    let r = Response::new_at(0);
    assert!(r.prepare().contains("\r\nDate: Thu, 01 Jan 1970 00:00:00 GMT\r\n"));
    let r = Response::new_at(253402300799);
    assert!(r.prepare().contains("\r\nDate: Fri, 31 Dec 9999 23:59:59 GMT\r\n"));
}

#[test]
fn header_block() {
    let r = Response::new_at(784111777);
    assert_eq!(
        r.prepare(),
        "HTTP/1.1 200 Success\r\nDate: Sun, 06 Nov 1994 08:49:37 GMT\r\nServer: Rusty\r\nContent-Length: 0\r\nContent-Type: application/octet-stream\r\nConnection: closer\r\n\r\n"
    );
    let mut f = Response::new_at(0);
    f.set_status(404);
    assert_eq!(
        f.render("D"),
        "HTTP/1.1 404 Not Found\r\nDate: D\r\nServer: Rusty\r\nContent-Length: 0\r\nContent-Type: application/octet-stream\r\nConnection: closer\r\n\r\n"
    );
    let mut m = Response::new_at(0);
    m.set_status(405);
    assert!(m.render("D").starts_with("HTTP/1.1 405 Method Not Allowed\r\n"));
}

#[test]
fn greeting_page() {
    assert_eq!(
        parse(&()),
        "HTTP/1.1 200 OK\r\nContent-Type: text/html; charset=UTF-8\r\n\r\n<html><body>Hello world!!!!</body></html>\r\n"
    );
}

#[test]
fn request_line_parts() {
    let req = Request::new(&buffer_of("GET /index.html HTTP/1.1\r\nHost: localhost\r\n\r\n"));
    assert_eq!(req.method(), "GET");
    assert_eq!(req.path(), "/index.html");
    assert_eq!(req.protocol(), "HTTP/1.1");
}

#[test]
fn request_line_extra_fields_ignored() {
    let req = Request::new(&buffer_of("HEAD /a.png HTTP/1.0 extra\r\n"));
    assert_eq!(req.method(), "HEAD");
    assert_eq!(req.path(), "/a.png");
    assert_eq!(req.protocol(), "HTTP/1.0");
}

#[test]
fn request_line_fields_trimmed() {
    let req = Request::new(&buffer_of("\tGET /x.css\t HTTP/1.1\u{a0}\r\n"));
    assert_eq!(req.method(), "GET");
    assert_eq!(req.path(), "/x.css");
    assert_eq!(req.protocol(), "HTTP/1.1");
    let doubled = Request::new(&buffer_of("GET  /x.css HTTP/1.1\r\n"));
    assert_eq!(doubled.path(), "");
    assert_eq!(doubled.protocol(), "/x.css");
}

#[test]
fn request_line_without_crlf_keeps_padding() {
    // Without a line break, the zero bytes after the text belong to the
    // last field; they are not white space.
    let req = Request::new(&buffer_of("GET / HTTP/1.1"));
    assert_eq!(req.method(), "GET");
    assert_eq!(req.protocol().len(), 4096 - "GET / ".len());
    assert!(req.protocol().starts_with("HTTP/1.1\0"));
}

#[test]
fn short_request_line_refused() {
    assert!(Request::try_new(&buffer_of("GET /\r\n")).is_none());
    assert!(Request::try_new(&[0u8; 4096]).is_none());
    assert!(HandlerRequest::try_new(&buffer_of("GARBAGE\r\n")).is_none());
}

#[test]
fn invalid_utf8_replaced() {
    let mut buf = buffer_of("GET /x.html HTTP/1.1\r\n");
    buf[0] = 0xff;
    let req = Request::new(&buf);
    assert_eq!(req.method(), "\u{fffd}ET");
}

#[test]
fn split_request_line_values() {
    let text = chars_of("A  B C\r\nD");
    let (m, t, p) = split_request_line(&text).unwrap();
    assert_eq!((m.as_str(), t.as_str(), p.as_str()), ("A", "", "B"));
}

#[test]
fn served_paths() {
    assert_eq!(prepare_path("/style.css"), "./public/httptest/style.css");
    assert_eq!(prepare_path("/dir"), "./public/httptest/dir/index.html");
    assert_eq!(prepare_path("dir/page.html"), "./public/httptest/dir/page.html");
    // The root target becomes the absolute `/index.html`.
    assert_eq!(prepare_path("/"), "/index.html");
    assert_eq!(open_file_path("/img/a.png"), "./public/httptest/img/a.png");
}

#[test]
fn handler_request_maps_target() {
    let req = handler_request("GET /docs HTTP/1.1\r\n\r\n");
    assert_eq!(req.method(), "GET");
    assert_eq!(req.protocol(), "HTTP/1.1");
    assert_eq!(req.path(), "./public/httptest/docs/index.html");
}

#[test]
fn routes() {
    assert_eq!(route("GET"), Route::Get);
    assert_eq!(route("HEAD"), Route::Head);
    assert_eq!(route("POST"), Route::Other);
    assert_eq!(route("get"), Route::Other);
}

#[test]
fn get_existing_file_sends_it() {
    let req = handler_request("GET /style.css HTTP/1.1\r\n\r\n");
    let res = Response::new_at(0);
    let actions = run(&req, &res, &[true, true], 42);
    match &actions[0] {
        Action::SendFile(r) => {
            let mut r = r.clone();
            assert_eq!(*r.status(), Status::SUCCESS);
            assert_eq!(r.content_type(), "text/css");
            assert_eq!(r.content_length(), "42");
            assert_eq!(r.server(), "Rusty");
        },
        _ => panic!("expected the file to be sent"),
    }
}

#[test]
fn head_existing_file_sends_header() {
    let req = handler_request("HEAD /pic.jpg HTTP/1.1\r\n\r\n");
    let res = Response::new_at(0);
    match &run(&req, &res, &[true, true], 1234567)[0] {
        Action::Send(r) => {
            let mut r = r.clone();
            assert_eq!(*r.status(), Status::SUCCESS);
            assert_eq!(r.content_type(), "image/jpeg");
            assert_eq!(r.content_length(), "1234567");
        },
        _ => panic!("expected the header alone"),
    }
}

#[test]
fn other_method_refused() {
    let req = handler_request("POST /style.css HTTP/1.1\r\n\r\n");
    let res = Response::new_at(0);
    match &run(&req, &res, &[], 0)[0] {
        Action::Send(r) => assert_eq!(*r.clone().status(), Status::METHOD_NOT_ALLOWED),
        _ => panic!("expected 405"),
    }
}

#[test]
fn traversal_forbidden() {
    let req = handler_request("GET /a/../secret.txt HTTP/1.1\r\n\r\n");
    let res = Response::new_at(0);
    match &run(&req, &res, &[], 0)[0] {
        Action::Send(r) => assert_eq!(*r.clone().status(), Status::FORBIDDEN),
        _ => panic!("expected 403"),
    }
}

#[test]
fn missing_index_forbidden() {
    let req = handler_request("GET /dir HTTP/1.1\r\n\r\n");
    let res = Response::new_at(0);
    match &run(&req, &res, &[false], 0)[0] {
        Action::Send(r) => assert_eq!(*r.clone().status(), Status::FORBIDDEN),
        _ => panic!("expected 403"),
    }
}

#[test]
fn missing_file_not_found() {
    let req = handler_request("GET /missing.png HTTP/1.1\r\n\r\n");
    let res = Response::new_at(0);
    match &run(&req, &res, &[false, false], 0)[0] {
        Action::Send(r) => assert_eq!(*r.clone().status(), Status::NOT_FOUND),
        _ => panic!("expected 404"),
    }
}

#[test]
fn unknown_extension_octet_stream() {
    let req = handler_request("GET /notes.txt HTTP/1.1\r\n\r\n");
    let res = Response::new_at(0);
    match &run(&req, &res, &[true, true], 7)[0] {
        Action::SendFile(r) => assert_eq!(r.clone().content_type(), "application/octet-stream"),
        _ => panic!("expected the file to be sent"),
    }
}

#[test]
fn waits_for_matching_events() {
    assert!(waits_for(Stage::Start, Event::Started));
    assert!(!waits_for(Stage::Start, Event::Exists(true)));
    assert!(waits_for(Stage::ForbiddenCheck, Event::Exists(false)));
    assert!(waits_for(Stage::MissingCheck, Event::Exists(true)));
    assert!(waits_for(Stage::Measure, Event::Length(3)));
    assert!(!waits_for(Stage::Measure, Event::Started));
    assert!(!waits_for(Stage::Finished, Event::Started));
}

#[test]
fn batches_of_waiting_connections() {
    let mut waiting: Vec<u32> = (0..30).collect();
    let batch = take_batch(&mut waiting);
    assert_eq!(batch, (6..30).rev().collect::<Vec<u32>>());
    assert_eq!(waiting, (0..6).collect::<Vec<u32>>());
    let batch = take_batch(&mut waiting);
    assert_eq!(batch, vec![5, 4, 3, 2, 1, 0]);
    assert!(waiting.is_empty());
    assert!(take_batch(&mut waiting).is_empty());
}

#[test]
fn pause_threshold() {
    assert!(!should_pause(500));
    assert!(should_pause(501));
    assert!(!should_pause(0));
}

#[test]
fn at_least_one_worker() {
    assert!(worker_count() >= 1);
}

#[test]
fn text_helpers() {
    assert_eq!(string(&trim_chars(&chars_of(" \t x y \r\n"))), "x y");
    assert_eq!(string(&trim_chars(&chars_of("\u{3000}a\u{a0}"))), "a");
    assert_eq!(string(&trim_chars(&chars_of("   "))), "");
    assert!(is_whitespace('\u{85}'));
    assert!(!is_whitespace('\0'));
    assert_eq!(string(&first_line_chars(&chars_of("ab\r\ncd"))), "ab");
    assert_eq!(string(&first_line_chars(&chars_of("ab\rcd\n"))), "ab\rcd\n");
    let parts = split_spaces_chars(&chars_of(" a  b"));
    let parts: Vec<String> = parts.iter().map(|p| string(p)).collect();
    assert_eq!(parts, vec!["", "a", "", "b"]);
    assert!(contains_chars(&chars_of("x/../y"), &chars_of("../")));
    assert!(!contains_chars(&chars_of("x/.."), &chars_of("../")));
    assert!(contains_chars(&chars_of("abc"), &chars_of("")));
    assert!(ends_with_chars(&chars_of("a/index.html"), &chars_of("index.html")));
    assert!(!ends_with_chars(&chars_of("html"), &chars_of("index.html")));
}

#[test]
fn decimal_notation() {
    assert_eq!(string(&decimal_chars(0)), "0");
    assert_eq!(string(&decimal_chars(7)), "7");
    assert_eq!(string(&decimal_chars(1234)), "1234");
    assert_eq!(string(&decimal_chars(u64::MAX)), u64::MAX.to_string());
}

#[test]
fn head_matches_get_header() {
    let get = handler_request("GET /a/b.gif HTTP/1.1\r\n\r\n");
    let head = handler_request("HEAD /a/b.gif HTTP/1.1\r\n\r\n");
    let res = Response::new_at(1000);
    let g = run(&get, &res, &[true, true], 99);
    let h = run(&head, &res, &[true, true], 99);
    match (&g[0], &h[0]) {
        (Action::SendFile(a), Action::Send(b)) => assert_eq!(a.prepare(), b.prepare()),
        _ => panic!("expected GET to send the file and HEAD the header"),
    }
}

#[test]
fn handling_asks_at_most_three_queries() {
    let req = handler_request("GET /x.html HTTP/1.1\r\n\r\n");
    let res = Response::new_at(0);
    let mut stage = Stage::Start;
    let mut event = Event::Started;
    let mut steps = 0;
    while stage != Stage::Finished {
        let (next, action) = step(&req, &res, stage, event);
        steps += 1;
        stage = next;
        event = match action {
            Action::CheckExists => Event::Exists(true),
            Action::MeasureFile => Event::Length(10),
            _ => event,
        };
    }
    assert_eq!(steps, 4);
}

#[test]
fn header_framing() {
    let mut r = Response::new_at(0);
    r.set_status(403);
    let h = r.prepare();
    assert!(h.starts_with("HTTP/1.1 403 Forbidden\r\n"));
    assert!(h.ends_with("\r\n\r\n"));
}

#[test]
fn collected_paths_match_pathbuf() {
    let cases = [
        ("./public/httptest/", "style.css"),
        ("./public/httptest/", "/etc/x/index.html"),
        ("./public/httptest/", ""),
        ("base", "file"),
        ("base", "/abs"),
        ("base", ""),
        ("", "rel"),
        ("", "/abs"),
        ("/", "x"),
        ("/tmp", "/etc"),
    ];
    for (a, b) in cases {
        let expected: std::path::PathBuf = [a, b].iter().collect();
        assert_eq!(collect_path(a, b), expected.to_str().unwrap(), "{:?} + {:?}", a, b);
    }
    assert_eq!(collect_path("./public/httptest/", "dir2/index.html"), "./public/httptest/dir2/index.html");
    assert_eq!(collect_path("base", "file"), "base/file");
}
