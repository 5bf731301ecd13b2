//! The request and response values the dispatch core works on: the part of
//! an HTTP exchange the routing logic reads and produces. The connection
//! substrate owns everything else (headers, streaming, keep-alive).

use vstd::prelude::*;

verus! {

/// An incoming request as the router sees it: a method and a path.
pub struct Request {
    pub method: String,
    pub path: String,
}

impl Request {
    /// Builds a request descriptor from its method and path.
    pub fn new(method: &str, path: &str) -> (r: Request)
        ensures
            r.method@ == method@,
            r.path@ == path@,
    {
        Request { method: method.to_owned(), path: path.to_owned() }
    }
}

/// A response as the router produces it: a status code and a body.
pub struct Response {
    pub status: u16,
    pub body: String,
}

impl Response {
    /// Builds a response from its status code and body.
    pub fn new(status: u16, body: &str) -> (r: Response)
        ensures
            r.status == status,
            r.body@ == body@,
    {
        Response { status, body: body.to_owned() }
    }
}

} // verus!
