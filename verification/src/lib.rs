//! The logic of a small static file server: parsing the request line,
//! deciding how a request is answered, rendering the response header, and
//! handing waiting connections to workers in batches.
pub mod text;
pub mod fs_path;
pub mod request;
pub mod handler;
pub mod open_file;
pub mod response;
pub mod balancer;
