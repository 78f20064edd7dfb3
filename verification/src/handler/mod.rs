//! Answering one request: routing, the checks on the requested file and
//! the response that results.
//!
//! Handling alternates decisions with work on the file system and the
//! connection.  The decisions are `step`: from where the handling stands and
//! what the last piece of outside work found, to the next stage and what to
//! do next.  The caller performs each action and reports back.
pub mod mime;
pub mod request;
pub mod response;

use vstd::prelude::*;
use crate::fs_path::{extension_of, path_extension};
use crate::handler::mime::{extract_mime, mime_type};
use crate::handler::request::Request;
use crate::handler::response::{status_for_code, Response, ResponseView};
use crate::request::RequestLine;
use crate::text::{
    chars_eq_str, chars_of, contains, contains_chars, decimal, decimal_chars, ends_with,
    ends_with_chars, string_from_chars,
};

verus! {

/// How a request is answered, by its method.
#[derive(Clone, Copy, Debug, PartialEq, Eq, Structural)]
pub enum Route {
    Get,
    Head,
    Other,
}

/// The route of a method: `GET` and `HEAD` are served, anything else is
/// refused.
pub open spec fn route_of(method: Seq<char>) -> Route {
    if method == "GET"@ {
        Route::Get
    } else if method == "HEAD"@ {
        Route::Head
    } else {
        Route::Other
    }
}

/// The route of the method `method`.
pub fn route(method: &str) -> (r: Route)
    ensures
        r == route_of(method@),
{
    let m = chars_of(method);
    if chars_eq_str(m.as_slice(), "GET") {
        Route::Get
    } else if chars_eq_str(m.as_slice(), "HEAD") {
        Route::Head
    } else {
        Route::Other
    }
}

/// Where the handling of one request stands.
#[derive(Clone, Copy, Debug, PartialEq, Eq, Structural)]
pub enum Stage {
    /// Nothing is decided yet.
    Start,
    /// Waiting to learn whether the file exists, for the forbidden check.
    ForbiddenCheck,
    /// Waiting to learn whether the file exists, for the not-found check.
    MissingCheck,
    /// Waiting for the length of the file.
    Measure,
    /// The request is answered.
    Finished,
}

/// What the last piece of outside work found.
#[derive(Clone, Copy, Debug, PartialEq, Eq, Structural)]
pub enum Event {
    /// Handling begins.
    Started,
    /// Whether the requested file exists.
    Exists(bool),
    /// The length of the requested file in bytes.
    Length(u64),
}

/// What the handler asks for next.
pub enum Action {
    /// Find out whether the requested file exists; answer `Event::Exists`.
    CheckExists,
    /// Find out the length of the requested file; answer `Event::Length`.
    MeasureFile,
    /// Send the header block of this response and close the connection.
    Send(Response),
    /// Send the header block of this response, then the requested file,
    /// and close the connection.
    SendFile(Response),
    /// Stop without answering: the file to serve has no extension to take
    /// its content type from.
    Abort,
}

/// An action, with responses taken by their view.
pub enum ActionView {
    CheckExists,
    MeasureFile,
    Send(ResponseView),
    SendFile(ResponseView),
    Abort,
}

impl View for Action {
    type V = ActionView;

    open spec fn view(&self) -> ActionView {
        match self {
            Action::CheckExists => ActionView::CheckExists,
            Action::MeasureFile => ActionView::MeasureFile,
            Action::Send(r) => ActionView::Send(r@),
            Action::SendFile(r) => ActionView::SendFile(r@),
            Action::Abort => ActionView::Abort,
        }
    }
}

/// Whether `event` is what a handler at `stage` waits for.
pub open spec fn expects(stage: Stage, event: Event) -> bool {
    match stage {
        Stage::Start => event is Started,
        Stage::ForbiddenCheck => event is Exists,
        Stage::MissingCheck => event is Exists,
        Stage::Measure => event is Length,
        Stage::Finished => false,
    }
}

/// Whether `event` is what a handler at `stage` waits for.
pub fn waits_for(stage: Stage, event: Event) -> (r: bool)
    ensures
        r == expects(stage, event),
{
    match stage {
        Stage::Start => event == Event::Started,
        Stage::ForbiddenCheck | Stage::MissingCheck => match event {
            Event::Exists(_) => true,
            _ => false,
        },
        Stage::Measure => match event {
            Event::Length(_) => true,
            _ => false,
        },
        Stage::Finished => false,
    }
}

/// `res` with the status that `code` selects.
pub open spec fn with_status(res: ResponseView, code: i32) -> ResponseView {
    ResponseView { status: status_for_code(code), ..res }
}

/// `res` describing the file that serves `req`, `len` bytes long.
pub open spec fn file_response(req: RequestLine, res: ResponseView, len: u64) -> ResponseView {
    ResponseView {
        content_type: mime_type(path_extension(req.target).unwrap()),
        content_length: decimal(len as nat),
        ..res
    }
}

/// The next stage and action of a handler answering `req`, starting from
/// the response `res`, at `stage`, once `event` is known.
///
/// A method other than `GET` and `HEAD` is refused (405).  A path holding
/// `../` is forbidden (403) at once; a path ending in `index.html` is
/// forbidden where the file does not exist; any other missing file is not
/// found (404).  Otherwise the file's content type follows its extension
/// and its length is measured; `GET` sends the file after the header,
/// `HEAD` the header alone.
pub open spec fn next(req: RequestLine, res: ResponseView, stage: Stage, event: Event) -> (
    Stage,
    ActionView,
) {
    match stage {
        Stage::Start => {
            if route_of(req.method) is Other {
                (Stage::Finished, ActionView::Send(with_status(res, 405)))
            } else if contains(req.target, "../"@) {
                (Stage::Finished, ActionView::Send(with_status(res, 403)))
            } else {
                (Stage::ForbiddenCheck, ActionView::CheckExists)
            }
        },
        Stage::ForbiddenCheck => {
            if ends_with(req.target, "index.html"@) && event == Event::Exists(false) {
                (Stage::Finished, ActionView::Send(with_status(res, 403)))
            } else {
                (Stage::MissingCheck, ActionView::CheckExists)
            }
        },
        Stage::MissingCheck => {
            if event == Event::Exists(false) {
                (Stage::Finished, ActionView::Send(with_status(res, 404)))
            } else if path_extension(req.target) is None {
                (Stage::Finished, ActionView::Abort)
            } else {
                (Stage::Measure, ActionView::MeasureFile)
            }
        },
        Stage::Measure => {
            match event {
                Event::Length(len) => {
                    if path_extension(req.target) is None {
                        (Stage::Finished, ActionView::Abort)
                    } else if route_of(req.method) is Get {
                        (Stage::Finished, ActionView::SendFile(file_response(req, res, len)))
                    } else {
                        (Stage::Finished, ActionView::Send(file_response(req, res, len)))
                    }
                },
                _ => (Stage::Finished, ActionView::Abort),
            }
        },
        Stage::Finished => (Stage::Finished, ActionView::Abort),
    }
}

/// `res` with the status that `code` selects.
fn reply_with_status(res: &Response, code: i32) -> (r: Response)
    ensures
        r@ == with_status(res@, code),
{
    let mut r = res.duplicate();
    r.set_status(code);
    r
}

/// Decides the next stage and action of a handler answering `req` from
/// the response `res`, at `stage`, once `event` is known.
pub fn step(req: &Request, res: &Response, stage: Stage, event: Event) -> (r: (Stage, Action))
    requires
        expects(stage, event),
    ensures
        (r.0, r.1@) == next(req@, res@, stage, event),
{
    let path = chars_of(req.path());
    match stage {
        Stage::Start => {
            let route = route(req.method());
            if route == Route::Other {
                (Stage::Finished, Action::Send(reply_with_status(res, 405)))
            } else if contains_chars(path.as_slice(), chars_of("../").as_slice()) {
                (Stage::Finished, Action::Send(reply_with_status(res, 403)))
            } else {
                (Stage::ForbiddenCheck, Action::CheckExists)
            }
        },
        Stage::ForbiddenCheck => {
            let index = ends_with_chars(path.as_slice(), chars_of("index.html").as_slice());
            if index && event == Event::Exists(false) {
                (Stage::Finished, Action::Send(reply_with_status(res, 403)))
            } else {
                (Stage::MissingCheck, Action::CheckExists)
            }
        },
        Stage::MissingCheck => {
            if event == Event::Exists(false) {
                (Stage::Finished, Action::Send(reply_with_status(res, 404)))
            } else {
                match extension_of(req.path()) {
                    None => (Stage::Finished, Action::Abort),
                    Some(_) => (Stage::Measure, Action::MeasureFile),
                }
            }
        },
        Stage::Measure => {
            let len = match event {
                Event::Length(len) => len,
                _ => 0,
            };
            match extension_of(req.path()) {
                None => (Stage::Finished, Action::Abort),
                Some(ext) => {
                    let mut r = res.duplicate();
                    r.set_content_type(
                        string_from_chars(chars_of(extract_mime(ext.as_str())).as_slice()),
                    );
                    r.set_content_length(string_from_chars(decimal_chars(len).as_slice()));
                    if route(req.method()) == Route::Get {
                        (Stage::Finished, Action::SendFile(r))
                    } else {
                        (Stage::Finished, Action::Send(r))
                    }
                },
            }
        },
        Stage::Finished => (Stage::Finished, Action::Abort),
    }
}

// ---------------------------------------------------------------------------
// Laws of handling
// ---------------------------------------------------------------------------

/// The order of the stages.
pub open spec fn rank(stage: Stage) -> int {
    match stage {
        Stage::Start => 0,
        Stage::ForbiddenCheck => 1,
        Stage::MissingCheck => 2,
        Stage::Measure => 3,
        Stage::Finished => 4,
    }
}

/// Handling only moves forward, and it asks for outside work exactly while
/// it is not finished: a query leads to a stage that waits for its answer,
/// and a reply (or a stop) finishes.  So a request is answered after at
/// most three queries.
pub proof fn law_handling_progresses(
    req: RequestLine,
    res: ResponseView,
    stage: Stage,
    event: Event,
)
    requires
        expects(stage, event),
    ensures
        rank(next(req, res, stage, event).0) > rank(stage),
        next(req, res, stage, event).1 is CheckExists ==> (next(req, res, stage, event).0
            == Stage::ForbiddenCheck || next(req, res, stage, event).0 == Stage::MissingCheck),
        next(req, res, stage, event).1 is MeasureFile ==> next(req, res, stage, event).0
            == Stage::Measure,
        (next(req, res, stage, event).0 == Stage::Finished) <==> !(next(
            req,
            res,
            stage,
            event,
        ).1 is CheckExists || next(req, res, stage, event).1 is MeasureFile),
{
}

/// A method other than `GET` or `HEAD` is answered at once with 405,
/// before the file system is consulted.
pub proof fn law_other_methods_refused(req: RequestLine, res: ResponseView)
    requires
        req.method != "GET"@,
        req.method != "HEAD"@,
    ensures
        next(req, res, Stage::Start, Event::Started) == (
            Stage::Finished,
            ActionView::Send(with_status(res, 405)),
        ),
        with_status(res, 405).status == response::Status::METHOD_NOT_ALLOWED,
{
}

/// A `GET` or `HEAD` for a path holding `../` is answered at once with
/// 403, before the file system is consulted.
pub proof fn law_traversal_forbidden(req: RequestLine, res: ResponseView)
    requires
        req.method == "GET"@ || req.method == "HEAD"@,
        contains(req.target, "../"@),
    ensures
        next(req, res, Stage::Start, Event::Started) == (
            Stage::Finished,
            ActionView::Send(with_status(res, 403)),
        ),
        with_status(res, 403).status == response::Status::FORBIDDEN,
{
    reveal_strlit("GET");
    reveal_strlit("HEAD");
}

/// `HEAD` is handled as `GET` is, step for step, except that where `GET`
/// sends the file after the header, `HEAD` sends the same header alone.
pub proof fn law_head_mirrors_get(
    get: RequestLine,
    head: RequestLine,
    res: ResponseView,
    stage: Stage,
    event: Event,
)
    requires
        get.method == "GET"@,
        head.method == "HEAD"@,
        get.target == head.target,
    ensures
        next(get, res, stage, event).0 == next(head, res, stage, event).0,
        match next(get, res, stage, event).1 {
            ActionView::SendFile(r) => next(head, res, stage, event).1 == ActionView::Send(r),
            a => next(head, res, stage, event).1 == a,
        },
{
    reveal_strlit("GET");
    reveal_strlit("HEAD");
    assert("GET"@.len() != "HEAD"@.len());
    assert(route_of(get.method) == Route::Get);
    assert(route_of(head.method) == Route::Head);
}

/// Every response sent keeps the date, server and connection of the
/// response handling started from; only status, content type and content
/// length change.
pub proof fn law_replies_keep_headers(
    req: RequestLine,
    res: ResponseView,
    stage: Stage,
    event: Event,
)
    ensures
        match next(req, res, stage, event).1 {
            ActionView::Send(r) => r.date == res.date && r.server == res.server && r.connection
                == res.connection,
            ActionView::SendFile(r) => r.date == res.date && r.server == res.server
                && r.connection == res.connection && r.status == res.status,
            _ => true,
        },
{
}

/// A file that exists is never forbidden at the existence check: handling
/// goes on to the not-found check.  Only a missing file can be forbidden
/// there, and only where its path ends in `index.html`.
pub proof fn law_existing_file_not_forbidden(req: RequestLine, res: ResponseView, event: Event)
    ensures
        next(req, res, Stage::ForbiddenCheck, Event::Exists(true)) == (
            Stage::MissingCheck,
            ActionView::CheckExists,
        ),
        next(req, res, Stage::ForbiddenCheck, event).1 is Send ==> event == Event::Exists(false)
            && ends_with(req.target, "index.html"@),
        ends_with(req.target, "index.html"@) ==> next(
            req,
            res,
            Stage::ForbiddenCheck,
            Event::Exists(false),
        ) == (
            Stage::Finished,
            ActionView::Send(ResponseView { status: response::Status::FORBIDDEN, ..res }),
        ),
        !ends_with(req.target, "index.html"@) ==> next(
            req,
            res,
            Stage::ForbiddenCheck,
            Event::Exists(false),
        ) == (Stage::MissingCheck, ActionView::CheckExists),
{
}

/// A missing file is not found (404); an existing one is measured next
/// where its path has an extension.
pub proof fn law_missing_file_not_found(req: RequestLine, res: ResponseView)
    ensures
        next(req, res, Stage::MissingCheck, Event::Exists(false)) == (
            Stage::Finished,
            ActionView::Send(ResponseView { status: response::Status::NOT_FOUND, ..res }),
        ),
        path_extension(req.target) is Some ==> next(
            req,
            res,
            Stage::MissingCheck,
            Event::Exists(true),
        ) == (Stage::Measure, ActionView::MeasureFile),
{
}

/// Once measured, the file is described by its extension's content type and
/// its length in decimal; `GET` sends it after the header, `HEAD` sends the
/// header alone, and the status stays that of the starting response.
pub proof fn law_measured_file_described(req: RequestLine, res: ResponseView, len: u64)
    requires
        path_extension(req.target) is Some,
        req.method == "GET"@ || req.method == "HEAD"@,
    ensures
        ({
            let described = ResponseView {
                content_type: mime_type(path_extension(req.target)->0),
                content_length: decimal(len as nat),
                ..res
            };
            &&& req.method == "GET"@ ==> next(req, res, Stage::Measure, Event::Length(len)) == (
                Stage::Finished,
                ActionView::SendFile(described),
            )
            &&& req.method == "HEAD"@ ==> next(req, res, Stage::Measure, Event::Length(len)) == (
                Stage::Finished,
                ActionView::Send(described),
            )
        }),
{
    reveal_strlit("GET");
    reveal_strlit("HEAD");
    assert("GET"@.len() != "HEAD"@.len());
}

} // verus!
