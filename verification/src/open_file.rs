//! Locating the file that serves a request target.
use vstd::prelude::*;
use crate::fs_path::served_path;
use crate::handler::request::prepare_path;

verus! {

/// The path of the file to open for the request target `path`; the file
/// itself is opened by the caller.
pub fn open_file_path(path: &str) -> (r: String)
    ensures
        r@ == served_path(path@),
{
    prepare_path(path)
}

} // verus!
