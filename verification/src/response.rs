//! A fixed greeting page.
use vstd::prelude::*;

verus! {

/// The complete response that greets every request.
pub open spec fn greeting() -> Seq<char> {
    "HTTP/1.1 200 OK\r\nContent-Type: text/html; charset=UTF-8\r\n\r\n<html><body>Hello world!!!!</body></html>\r\n"@
}

/// The greeting response for a connection, the same whatever was asked.
pub fn parse<S>(_req: &S) -> (r: String)
    ensures
        r@ == greeting(),
{
    let mut response = String::new();
    response.append(
        "HTTP/1.1 200 OK\r\nContent-Type: text/html; charset=UTF-8\r\n\r\n<html><body>Hello world!!!!</body></html>\r\n",
    );
    response
}

} // verus!
