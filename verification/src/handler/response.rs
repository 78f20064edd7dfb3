//! The response to one request: status, headers and their wire form.
use vstd::prelude::*;
use crate::text::{chars_of, decimal, decimal_chars, string_from_chars};

verus! {

/// The status a response reports.
#[allow(non_camel_case_types)]
#[derive(Clone, Copy, Debug, PartialEq, Eq, Structural)]
pub enum Status {
    NOT_FOUND,
    SUCCESS,
    METHOD_NOT_ALLOWED,
    FORBIDDEN,
}

/// The numeric code of a status.
pub open spec fn status_code(s: Status) -> i32 {
    match s {
        Status::SUCCESS => 200,
        Status::FORBIDDEN => 403,
        Status::NOT_FOUND => 404,
        Status::METHOD_NOT_ALLOWED => 405,
    }
}

/// The reason phrase of a status.
pub open spec fn reason_phrase(s: Status) -> Seq<char> {
    match s {
        Status::SUCCESS => "Success"@,
        Status::FORBIDDEN => "Forbidden"@,
        Status::NOT_FOUND => "Not Found"@,
        Status::METHOD_NOT_ALLOWED => "Method Not Allowed"@,
    }
}

/// The status that a numeric code selects: 403, 404 and 405 select their
/// own status, any other code selects success.
pub open spec fn status_for_code(code: i32) -> Status {
    if code == 403 {
        Status::FORBIDDEN
    } else if code == 404 {
        Status::NOT_FOUND
    } else if code == 405 {
        Status::METHOD_NOT_ALLOWED
    } else {
        Status::SUCCESS
    }
}

impl Status {
    /// The code and reason phrase of `s`.
    pub fn extract(s: Status) -> (r: (i32, String))
        ensures
            r.0 == status_code(s),
            r.1@ == reason_phrase(s),
    {
        match s {
            Status::SUCCESS => (200, String::from_str("Success")),
            Status::FORBIDDEN => (403, String::from_str("Forbidden")),
            Status::NOT_FOUND => (404, String::from_str("Not Found")),
            Status::METHOD_NOT_ALLOWED => (405, String::from_str("Method Not Allowed")),
        }
    }
}

/// Every status is selected by its own code, and a code selects a status
/// reporting that code where it is 403, 404 or 405, and 200 otherwise.
pub proof fn law_status_codes(s: Status, code: i32)
    ensures
        status_for_code(status_code(s)) == s,
        status_code(status_for_code(code)) == if code == 403 || code == 404 || code == 405 {
            code
        } else {
            200
        },
{
}

/// The first moment that `httpdate` cannot format: the start of the year
/// 10000, in seconds since the Unix epoch.
pub const DATE_LIMIT: u64 = 253402300800u64;

/// What `httpdate::fmt_http_date` writes for the moment `secs` seconds
/// after the Unix epoch (an IMF-fixdate such as
/// `Sun, 06 Nov 1994 08:49:37 GMT`).
pub uninterp spec fn http_date_text(secs: u64) -> Seq<char>;

/// Formats a moment as an HTTP date with `httpdate::fmt_http_date`.
/// Trusted: the text is `http_date_text(secs)`.  `httpdate` panics on
/// moments from the year 10000 on, which `requires` leaves out.
#[verifier::external_body]
pub(crate) fn fmt_http_date(secs: u64) -> (r: String)
    requires
        secs < DATE_LIMIT,
    ensures
        r@ == http_date_text(secs),
{
    httpdate::fmt_http_date(std::time::UNIX_EPOCH + std::time::Duration::from_secs(secs))
}

/// The current time in whole seconds since the Unix epoch, or `None` where
/// the system clock reads a moment before it (`SystemTime::now`).
/// Trusted for nothing: what it returns depends on the clock.
#[verifier::external_body]
pub(crate) fn unix_time_now() -> (r: Option<u64>) {
    match std::time::SystemTime::now().duration_since(std::time::UNIX_EPOCH) {
        Ok(d) => Some(d.as_secs()),
        Err(_) => None,
    }
}

/// The fields of a response, as values.
pub struct ResponseView {
    pub status: Status,
    pub content_type: Seq<char>,
    pub content_length: Seq<char>,
    pub server: Seq<char>,
    pub connection: Seq<char>,
    pub date: Option<u64>,
}

/// The view of a fresh response dated `date`.
pub open spec fn default_response(date: Option<u64>) -> ResponseView {
    ResponseView {
        status: Status::SUCCESS,
        content_type: "application/octet-stream"@,
        content_length: "0"@,
        server: "Rusty"@,
        connection: "closer"@,
        date: date,
    }
}

/// The header block a response sends, given the text of its date.
pub open spec fn header_text(r: ResponseView, date: Seq<char>) -> Seq<char> {
    "HTTP/1.1 "@ + decimal(status_code(r.status) as nat) + " "@ + reason_phrase(r.status)
        + "\r\nDate: "@ + date + "\r\nServer: "@ + r.server + "\r\nContent-Length: "@
        + r.content_length + "\r\nContent-Type: "@ + r.content_type + "\r\nConnection: "@
        + r.connection + "\r\n\r\n"@
}

/// The header block starts with the status line and ends with an empty
/// line.
pub proof fn law_header_framing(r: ResponseView, date: Seq<char>)
    ensures
        header_text(r, date).subrange(0, 9) == "HTTP/1.1 "@,
        crate::text::ends_with(header_text(r, date), "\r\n\r\n"@),
{
    reveal_strlit("HTTP/1.1 ");
    reveal_strlit("\r\n\r\n");
    let h = header_text(r, date);
    let head = "HTTP/1.1 "@;
    let tail = "\r\n\r\n"@;
    let middle = decimal(status_code(r.status) as nat) + " "@ + reason_phrase(r.status)
        + "\r\nDate: "@ + date + "\r\nServer: "@ + r.server + "\r\nContent-Length: "@
        + r.content_length + "\r\nContent-Type: "@ + r.content_type + "\r\nConnection: "@
        + r.connection;
    assert(h =~= head + middle + tail);
    assert(h.subrange(0, 9) =~= head);
    assert(h.subrange(h.len() - 4, h.len() as int) =~= tail);
}

/// The header block carries the response's own values: the status line
/// holds its code and reason phrase, and each header line holds the
/// corresponding field (or, for `Date`, the date text given).
pub proof fn law_header_fields(r: ResponseView, date: Seq<char>)
    ensures
        header_text(r, date).subrange(
            0,
            (9 + decimal(status_code(r.status) as nat).len() + 1 + reason_phrase(r.status).len()) as int,
        ) == "HTTP/1.1 "@ + decimal(status_code(r.status) as nat)
            + " "@ + reason_phrase(r.status),
        crate::text::contains(header_text(r, date), "\r\nDate: "@ + date + "\r\n"@),
        crate::text::contains(header_text(r, date), "\r\nServer: "@ + r.server + "\r\n"@),
        crate::text::contains(
            header_text(r, date),
            "\r\nContent-Length: "@ + r.content_length + "\r\n"@,
        ),
        crate::text::contains(
            header_text(r, date),
            "\r\nContent-Type: "@ + r.content_type + "\r\n"@,
        ),
        crate::text::contains(
            header_text(r, date),
            "\r\nConnection: "@ + r.connection + "\r\n"@,
        ),
{
    reveal_strlit("HTTP/1.1 ");
    reveal_strlit(" ");
    reveal_strlit("\r\n");
    reveal_strlit("\r\nDate: ");
    reveal_strlit("\r\nServer: ");
    reveal_strlit("\r\nContent-Length: ");
    reveal_strlit("\r\nContent-Type: ");
    reveal_strlit("\r\nConnection: ");
    reveal_strlit("\r\n\r\n");
    let h = header_text(r, date);
    let crlf = "\r\n"@;
    let status = "HTTP/1.1 "@ + decimal(status_code(r.status) as nat) + " "@ + reason_phrase(
        r.status,
    );
    let date_line = "\r\nDate: "@ + date;
    let server_line = "\r\nServer: "@ + r.server;
    let length_line = "\r\nContent-Length: "@ + r.content_length;
    let type_line = "\r\nContent-Type: "@ + r.content_type;
    let conn_line = "\r\nConnection: "@ + r.connection;
    assert(h =~= status + date_line + server_line + length_line + type_line + conn_line
        + "\r\n\r\n"@);
    assert(h.subrange(0, status.len() as int) =~= status);
    // Each line is followed by the "\r\n" that starts the next one.
    let p1 = status.len() as int;
    let p2 = p1 + date_line.len();
    let p3 = p2 + server_line.len();
    let p4 = p3 + length_line.len();
    let p5 = p4 + type_line.len();
    assert(h.subrange(p1, p1 + date_line.len() + 2) =~= date_line + crlf);
    assert(crate::text::occurs_at(h, "\r\nDate: "@ + date + crlf, p1));
    assert(h.subrange(p2, p2 + server_line.len() + 2) =~= server_line + crlf);
    assert(crate::text::occurs_at(h, "\r\nServer: "@ + r.server + crlf, p2));
    assert(h.subrange(p3, p3 + length_line.len() + 2) =~= length_line + crlf);
    assert(crate::text::occurs_at(h, "\r\nContent-Length: "@ + r.content_length + crlf, p3));
    assert(h.subrange(p4, p4 + type_line.len() + 2) =~= type_line + crlf);
    assert(crate::text::occurs_at(h, "\r\nContent-Type: "@ + r.content_type + crlf, p4));
    assert(h.subrange(p5, p5 + conn_line.len() + 2) =~= conn_line + crlf);
    assert(crate::text::occurs_at(h, "\r\nConnection: "@ + r.connection + crlf, p5));
}

/// A response: its status, headers and date.  The date is the whole
/// seconds since the Unix epoch, or `None` for a moment before the epoch.
#[derive(Clone, Debug)]
pub struct Response {
    status: Status,
    content_type: String,
    content_length: String,
    server: String,
    connection: String,
    date: Option<u64>,
}

impl View for Response {
    type V = ResponseView;

    closed spec fn view(&self) -> ResponseView {
        ResponseView {
            status: self.status,
            content_type: self.content_type@,
            content_length: self.content_length@,
            server: self.server@,
            connection: self.connection@,
            date: self.date,
        }
    }
}

impl Response {
    /// Selects the status by its code: 403, 404 and 405 select their own
    /// status, any other code selects success.
    pub fn set_status(&mut self, status: i32)
        ensures
            final(self)@ == (ResponseView { status: status_for_code(status), ..old(self)@ }),
    {
        self.status =
        match status {
            403 => Status::FORBIDDEN,
            404 => Status::NOT_FOUND,
            405 => Status::METHOD_NOT_ALLOWED,
            _ => Status::SUCCESS,
        };
    }

    /// Sets the `Content-Type` header.
    pub fn set_content_type(&mut self, content_type: String)
        ensures
            final(self)@ == (ResponseView { content_type: content_type@, ..old(self)@ }),
    {
        self.content_type = content_type;
    }

    /// Sets the `Content-Length` header.
    pub fn set_content_length(&mut self, content_length: String)
        ensures
            final(self)@ == (ResponseView { content_length: content_length@, ..old(self)@ }),
    {
        self.content_length = content_length;
    }

    /// Sets the date, in seconds since the Unix epoch.
    pub fn set_date(&mut self, date: u64)
        ensures
            final(self)@ == (ResponseView { date: Some(date), ..old(self)@ }),
    {
        self.date = Some(date);
    }

    /// Sets the `Server` header.
    pub fn set_server(&mut self, server: String)
        ensures
            final(self)@ == (ResponseView { server: server@, ..old(self)@ }),
    {
        self.server = server;
    }

    /// Sets the `Connection` header.
    pub fn set_connection(&mut self, connection: String)
        ensures
            final(self)@ == (ResponseView { connection: connection@, ..old(self)@ }),
    {
        self.connection = connection;
    }

    /// The status.
    pub fn status(&mut self) -> (r: &Status)
        ensures
            *r == old(self)@.status,
            final(self)@ == old(self)@,
    {
        &self.status
    }

    /// The `Content-Type` header.
    pub fn content_type(&mut self) -> (r: &String)
        ensures
            r@ == old(self)@.content_type,
            final(self)@ == old(self)@,
    {
        &self.content_type
    }

    /// The `Content-Length` header.
    pub fn content_length(&mut self) -> (r: &String)
        ensures
            r@ == old(self)@.content_length,
            final(self)@ == old(self)@,
    {
        &self.content_length
    }

    /// The date, in seconds since the Unix epoch (`None` for a moment
    /// before the epoch).
    pub fn date(&mut self) -> (r: &Option<u64>)
        ensures
            *r == old(self)@.date,
            final(self)@ == old(self)@,
    {
        &self.date
    }

    /// The `Server` header.
    pub fn server(&mut self) -> (r: &String)
        ensures
            r@ == old(self)@.server,
            final(self)@ == old(self)@,
    {
        &self.server
    }

    /// The `Connection` header.
    pub fn connection(&mut self) -> (r: &String)
        ensures
            r@ == old(self)@.connection,
            final(self)@ == old(self)@,
    {
        &self.connection
    }

    /// A copy of this response.
    pub fn duplicate(&self) -> (r: Response)
        ensures
            r@ == self@,
    {
        Response {
            status: self.status,
            content_type: self.content_type.clone(),
            content_length: self.content_length.clone(),
            server: self.server.clone(),
            connection: self.connection.clone(),
            date: self.date,
        }
    }

    /// A fresh response dated `date`: success, `application/octet-stream`,
    /// length `0`, server `Rusty`, connection `closer`.
    pub fn new_at(date: u64) -> (r: Response)
        ensures
            r@ == default_response(Some(date)),
    {
        Response {
            status: Status::SUCCESS,
            content_type: String::from_str("application/octet-stream"),
            content_length: String::from_str("0"),
            server: String::from_str("Rusty"),
            connection: String::from_str("closer"),
            date: Some(date),
        }
    }

    /// A fresh response dated now: success, `application/octet-stream`,
    /// length `0`, server `Rusty`, connection `closer`.  Where the system
    /// clock reads a moment before the Unix epoch the date is `None`, and
    /// the response cannot be prepared for sending.
    pub fn new() -> (r: Response)
        ensures
            r@ == default_response(r@.date),
    {
        let now = unix_time_now();
        Response {
            status: Status::SUCCESS,
            content_type: String::from_str("application/octet-stream"),
            content_length: String::from_str("0"),
            server: String::from_str("Rusty"),
            connection: String::from_str("closer"),
            date: now,
        }
    }

    /// The header block of this response, with `date` as the text of its
    /// `Date` header.
    pub fn render(&self, date: &str) -> (r: String)
        ensures
            r@ == header_text(self@, date@),
    {
        let (code, name) = Status::extract(self.status);
        let digits = decimal_chars(code as u64);
        let code_text = string_from_chars(digits.as_slice());
        let mut out = String::from_str("HTTP/1.1 ");
        out.append(code_text.as_str());
        out.append(" ");
        out.append(name.as_str());
        out.append("\r\nDate: ");
        out.append(date);
        out.append("\r\nServer: ");
        out.append(self.server.as_str());
        out.append("\r\nContent-Length: ");
        out.append(self.content_length.as_str());
        out.append("\r\nContent-Type: ");
        out.append(self.content_type.as_str());
        out.append("\r\nConnection: ");
        out.append(self.connection.as_str());
        out.append("\r\n\r\n");
        out
    }

    /// The header block this response sends: the status line and the
    /// `Date`, `Server`, `Content-Length`, `Content-Type` and `Connection`
    /// headers, then an empty line.
    pub fn prepare(&self) -> (r: String)
        requires
            self@.date matches Some(secs) && secs < DATE_LIMIT,
        ensures
            r@ == header_text(self@, http_date_text(self@.date->0)),
    {
        let date = fmt_http_date(self.date.unwrap());
        self.render(date.as_str())
    }
}

} // verus!
