# rusty

A small static file server. The verified library (`src/`) holds its logic:

- `request`: the request line (method, target, protocol) parsed from the
  first bytes read from a connection;
- `handler`: how a request is answered, as a sequence of steps that ask the
  caller to check the file system and end with the response to send;
  `handler::request` maps a target to the file below `./public/httptest/`,
  `handler::response` holds the response and renders its header block,
  `handler::mime` gives content types by extension;
- `balancer`: batches of waiting connections for the workers;
- `text`, `fs_path`: character handling and path mapping;
- `response`, `open_file`: a fixed greeting page and the file path for a target.

`app/` runs the server on `async-std`: it accepts connections, runs the worker
pools and performs the reads, checks and writes that the library's steps ask for.
