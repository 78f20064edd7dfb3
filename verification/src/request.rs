//! The request line of an HTTP request: method, target and protocol.
use vstd::prelude::*;
use crate::text::{
    decode_lossy, first_line, first_line_chars, lemma_split_nonempty,
    lemma_split_pieces_spaceless, lemma_trim_edges, lemma_trim_keeps_spaceless, split_spaces,
    split_spaces_chars, string_from_chars, trim, trim_chars, utf8_lossy, views, white_space,
};

verus! {

/// The three parts of a request line.
pub struct RequestLine {
    pub method: Seq<char>,
    pub target: Seq<char>,
    pub protocol: Seq<char>,
}

/// The space-separated fields of the first line of `text`.
pub open spec fn request_fields(text: Seq<char>) -> Seq<Seq<char>> {
    split_spaces(first_line(text))
}

/// Whether the first line of `text` has the three fields of a request line.
pub open spec fn has_request_line(text: Seq<char>) -> bool {
    request_fields(text).len() >= 3
}

/// The request line of `text`: its first three fields, each trimmed.
pub open spec fn request_line(text: Seq<char>) -> RequestLine
    recommends
        has_request_line(text),
{
    let f = request_fields(text);
    RequestLine { method: trim(f[0]), target: trim(f[1]), protocol: trim(f[2]) }
}

/// The method, target and protocol of the request line of `text`, or
/// `None` where its first line has fewer than three fields.
pub fn split_request_line(text: &[char]) -> (r: Option<(String, String, String)>)
    ensures
        r is Some <==> has_request_line(text@),
        r matches Some(t) ==> t.0@ == request_line(text@).method && t.1@
            == request_line(text@).target && t.2@ == request_line(text@).protocol,
{
    let line = first_line_chars(text);
    let fields = split_spaces_chars(line.as_slice());
    proof {
        lemma_split_nonempty(line@);
    }
    if fields.len() < 3 {
        return None;
    }
    assert(views(fields@)[0] == fields@[0]@);
    assert(views(fields@)[1] == fields@[1]@);
    assert(views(fields@)[2] == fields@[2]@);
    let method = trim_chars(fields[0].as_slice());
    let target = trim_chars(fields[1].as_slice());
    let protocol = trim_chars(fields[2].as_slice());
    Some(
        (
            string_from_chars(method.as_slice()),
            string_from_chars(target.as_slice()),
            string_from_chars(protocol.as_slice()),
        ),
    )
}

/// A part of a request line as parsing leaves it: no space inside, and no
/// white space at either end.
pub open spec fn clean_part(part: Seq<char>) -> bool {
    &&& forall|j: int| 0 <= j < part.len() ==> part[j] != ' '
    &&& part.len() > 0 ==> !white_space(part[0]) && !white_space(part.last())
}

/// The method, target and protocol of a request line hold no space and
/// neither begin nor end with white space.
pub proof fn law_request_line_parts_clean(text: Seq<char>)
    requires
        has_request_line(text),
    ensures
        clean_part(request_line(text).method),
        clean_part(request_line(text).target),
        clean_part(request_line(text).protocol),
{
    let f = request_fields(text);
    lemma_split_pieces_spaceless(first_line(text));
    assert forall|k: int| 0 <= k < 3 implies clean_part(#[trigger] trim(f[k])) by {
        assert forall|j: int| 0 <= j < f[k].len() implies f[k][j] != ' ' by {}
        lemma_trim_keeps_spaceless(f[k]);
        lemma_trim_edges(f[k]);
    }
    assert(clean_part(trim(f[0])));
    assert(clean_part(trim(f[1])));
    assert(clean_part(trim(f[2])));
}

/// A request as read from a connection: method, path and protocol.
pub struct Request {
    path: String,
    protocol: String,
    method: String,
}

impl View for Request {
    type V = RequestLine;

    closed spec fn view(&self) -> RequestLine {
        RequestLine { method: self.method@, target: self.path@, protocol: self.protocol@ }
    }
}

impl Request {
    /// The request whose text is `text` (the decoded bytes read from the
    /// connection).
    pub fn from_text(text: &[char]) -> (r: Request)
        requires
            has_request_line(text@),
        ensures
            r@ == request_line(text@),
    {
        let (method, path, protocol) = split_request_line(text).unwrap();
        Request { path, protocol, method }
    }

    /// The request held in the first bytes read from a connection.  The
    /// bytes are decoded as UTF-8, invalid sequences replaced.
    pub fn new(buffer: &[u8; 4096]) -> (r: Request)
        requires
            has_request_line(utf8_lossy(buffer@)),
        ensures
            r@ == request_line(utf8_lossy(buffer@)),
    {
        let text = decode_lossy(buffer.as_slice());
        Request::from_text(text.as_slice())
    }

    /// The request held in `buffer`, or `None` where the first line of its
    /// text has fewer than three fields.
    pub fn try_new(buffer: &[u8; 4096]) -> (r: Option<Request>)
        ensures
            r is Some <==> has_request_line(utf8_lossy(buffer@)),
            r matches Some(req) ==> req@ == request_line(utf8_lossy(buffer@)),
    {
        let text = decode_lossy(buffer.as_slice());
        match split_request_line(text.as_slice()) {
            Some(_) => Some(Request::new(buffer)),
            None => None,
        }
    }

    /// The request method.
    pub fn method(&self) -> (r: &str)
        ensures
            r@ == self@.method,
    {
        self.method.as_str()
    }

    /// The protocol named in the request line.
    pub fn protocol(&self) -> (r: &str)
        ensures
            r@ == self@.protocol,
    {
        self.protocol.as_str()
    }

    /// The request target, as given.
    pub fn path(&self) -> (r: &str)
        ensures
            r@ == self@.target,
    {
        self.path.as_str()
    }
}

} // verus!
