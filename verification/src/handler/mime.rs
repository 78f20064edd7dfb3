//! Content types by file extension.
use vstd::prelude::*;
use crate::text::{chars_eq_str, chars_of};

verus! {

/// The content type served for files with extension `ext`; unknown
/// extensions are served as `application/octet-stream`.
pub open spec fn mime_type(ext: Seq<char>) -> Seq<char> {
    if ext == "html"@ {
        "text/html"@
    } else if ext == "css"@ {
        "text/css"@
    } else if ext == "js"@ {
        "application/javascript"@
    } else if ext == "jpg"@ {
        "image/jpeg"@
    } else if ext == "jpeg"@ {
        "image/jpeg"@
    } else if ext == "png"@ {
        "image/png"@
    } else if ext == "gif"@ {
        "image/gif"@
    } else if ext == "swf"@ {
        "application/x-shockwave-flash"@
    } else {
        "application/octet-stream"@
    }
}

/// The content type for the file extension `ext`.
pub fn extract_mime(ext: &str) -> (r: &str)
    ensures
        r@ == mime_type(ext@),
{
    let e = chars_of(ext);
    let e = e.as_slice();
    if chars_eq_str(e, "html") {
        "text/html"
    } else if chars_eq_str(e, "css") {
        "text/css"
    } else if chars_eq_str(e, "js") {
        "application/javascript"
    } else if chars_eq_str(e, "jpg") {
        "image/jpeg"
    } else if chars_eq_str(e, "jpeg") {
        "image/jpeg"
    } else if chars_eq_str(e, "png") {
        "image/png"
    } else if chars_eq_str(e, "gif") {
        "image/gif"
    } else if chars_eq_str(e, "swf") {
        "application/x-shockwave-flash"
    } else {
        "application/octet-stream"
    }
}

/// The content type of each of the eight known extensions.
pub proof fn law_known_extensions()
    ensures
        mime_type("html"@) == "text/html"@,
        mime_type("css"@) == "text/css"@,
        mime_type("js"@) == "application/javascript"@,
        mime_type("jpg"@) == "image/jpeg"@,
        mime_type("jpeg"@) == "image/jpeg"@,
        mime_type("png"@) == "image/png"@,
        mime_type("gif"@) == "image/gif"@,
        mime_type("swf"@) == "application/x-shockwave-flash"@,
{
    reveal_strlit("html");
    reveal_strlit("css");
    reveal_strlit("js");
    reveal_strlit("jpg");
    reveal_strlit("jpeg");
    reveal_strlit("png");
    reveal_strlit("gif");
    reveal_strlit("swf");
    assert("html"@.len() == 4 && "html"@[0] == 'h');
    assert("css"@.len() == 3 && "css"@[0] == 'c');
    assert("js"@.len() == 2 && "js"@[0] == 'j');
    assert("jpg"@.len() == 3 && "jpg"@[0] == 'j');
    assert("jpeg"@.len() == 4 && "jpeg"@[0] == 'j');
    assert("png"@.len() == 3 && "png"@[0] == 'p');
    assert("gif"@.len() == 3 && "gif"@[0] == 'g');
    assert("swf"@.len() == 3 && "swf"@[0] == 's');
}

/// Any extension other than the eight known ones is served as
/// `application/octet-stream`, and only `js` is served as JavaScript.
pub proof fn law_unknown_extensions(ext: Seq<char>)
    ensures
        (ext != "html"@ && ext != "css"@ && ext != "js"@ && ext != "jpg"@ && ext != "jpeg"@ && ext
            != "png"@ && ext != "gif"@ && ext != "swf"@) ==> mime_type(ext)
            == "application/octet-stream"@,
        mime_type(ext) == "application/javascript"@ ==> ext == "js"@,
{
    reveal_strlit("application/javascript");
    reveal_strlit("text/html");
    reveal_strlit("text/css");
    reveal_strlit("image/jpeg");
    reveal_strlit("image/png");
    reveal_strlit("image/gif");
    reveal_strlit("application/x-shockwave-flash");
    reveal_strlit("application/octet-stream");
    assert("application/javascript"@.len() == 22);
    assert("application/octet-stream"@.len() == 24);
    assert("application/x-shockwave-flash"@.len() == 29);
    assert("text/html"@.len() == 9);
    assert("text/css"@.len() == 8);
    assert("image/jpeg"@.len() == 10);
    assert("image/png"@.len() == 9);
    assert("image/gif"@.len() == 9);
}

} // verus!
