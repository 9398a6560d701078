use vstd::prelude::*;

verus! {

/// Status line of a successful response.
pub const STATUS_200: &'static str = "HTTP/1.1 200 OK";

/// Status line of a request whose credentials were refused.
pub const STATUS_401: &'static str = "HTTP/1.1 401 UNAUTHORIZED";

/// Status line of a request that matched no route.
pub const STATUS_404: &'static str = "HTTP/1.1 404 NOT FOUND";

/// Status line of a request that failed on the server's side.
pub const STATUS_500: &'static str = "HTTP/1.1 500 INTERNAL SERVER ERROR";

} // verus!
