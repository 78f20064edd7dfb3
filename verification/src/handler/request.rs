//! A request as the handler sees it: method, protocol, and the path of
//! the file that serves its target.
use vstd::prelude::*;
use crate::fs_path::{collect_path, extension_of, served_path};
use crate::request::{has_request_line, request_line, split_request_line, RequestLine};
use crate::text::{chars_of, decode_lossy, slice_chars, string_from_chars, utf8_lossy};

verus! {

/// The request line of `text` with its target mapped to the file that
/// serves it.
pub open spec fn served_request(text: Seq<char>) -> RequestLine {
    let line = request_line(text);
    RequestLine { method: line.method, target: served_path(line.target), protocol: line.protocol }
}

/// The path of the file that serves the request target `path`: a target
/// without an extension gets `/index.html` appended, one leading `/` is
/// dropped, and the result is placed below `./public/httptest/`.
pub fn prepare_path(path: &str) -> (r: String)
    ensures
        r@ == served_path(path@),
{
    let target = chars_of(path);
    let mut with_index = target;
    match extension_of(path) {
        None => {
            let suffix = chars_of("/index.html");
            let mut k: usize = 0;
            let ghost start = with_index@;
            while k < suffix.len()
                invariant
                    0 <= k <= suffix@.len(),
                    with_index@ == start + suffix@.subrange(0, k as int),
                decreases suffix@.len() - k,
            {
                with_index.push(suffix[k]);
                k = k + 1;
            }
            assert(suffix@.subrange(0, suffix@.len() as int) =~= suffix@);
        },
        Some(_) => {},
    }
    let n = with_index.len();
    let relative = if n > 0 && with_index[0] == '/' {
        let r = slice_chars(with_index.as_slice(), 1, n);
        assert(r@ =~= with_index@.drop_first());
        r
    } else {
        with_index
    };
    let rel = string_from_chars(relative.as_slice());
    collect_path("./public/httptest/", rel.as_str())
}

/// A request to be answered from the served directory.
pub struct Request {
    path: String,
    protocol: String,
    method: String,
}

impl View for Request {
    type V = RequestLine;

    closed spec fn view(&self) -> RequestLine {
        RequestLine { method: self.method@, target: self.path@, protocol: self.protocol@ }
    }
}

impl Request {
    /// The request whose text is `text` (the decoded bytes read from the
    /// connection), its target mapped to the file that serves it.
    pub fn from_text(text: &[char]) -> (r: Request)
        requires
            has_request_line(text@),
        ensures
            r@ == served_request(text@),
    {
        let (method, target, protocol) = split_request_line(text).unwrap();
        let path = prepare_path(target.as_str());
        Request { path, protocol, method }
    }

    /// The request held in the first bytes read from a connection.  The
    /// bytes are decoded as UTF-8, invalid sequences replaced.
    pub fn new(buffer: &[u8; 4096]) -> (r: Request)
        requires
            has_request_line(utf8_lossy(buffer@)),
        ensures
            r@ == served_request(utf8_lossy(buffer@)),
    {
        let text = decode_lossy(buffer.as_slice());
        Request::from_text(text.as_slice())
    }

    /// The request held in `buffer`, or `None` where the first line of its
    /// text has fewer than three fields.
    pub fn try_new(buffer: &[u8; 4096]) -> (r: Option<Request>)
        ensures
            r is Some <==> has_request_line(utf8_lossy(buffer@)),
            r matches Some(req) ==> req@ == served_request(utf8_lossy(buffer@)),
    {
        let text = decode_lossy(buffer.as_slice());
        match split_request_line(text.as_slice()) {
            Some(_) => Some(Request::new(buffer)),
            None => None,
        }
    }

    /// The request method.
    pub fn method(&self) -> (r: &str)
        ensures
            r@ == self@.method,
    {
        self.method.as_str()
    }

    /// The protocol named in the request line.
    pub fn protocol(&self) -> (r: &str)
        ensures
            r@ == self@.protocol,
    {
        self.protocol.as_str()
    }

    /// The path of the file that serves the request.
    pub fn path(&self) -> (r: &str)
        ensures
            r@ == self@.target,
    {
        self.path.as_str()
    }
}

} // verus!
