//! Plain models of HTTP requests and responses.
//!
//! A request is a method, a path, headers and a body; a response is a
//! status code and a body. The health-check handler is a pure function:
//! it always produces the same success response, whatever the request
//! looked like.

use vstd::prelude::*;

verus! {

/// An HTTP request method.
#[derive(Clone, Copy, Debug, PartialEq, Eq, Structural)]
pub enum Method {
    Get,
    Head,
    Post,
    Put,
    Delete,
    Options,
    Patch,
}

/// An inbound HTTP request, reduced to the parts the route table can
/// look at: the method, the path, and the (ignored) headers and body.
pub struct Request {
    pub method: Method,
    pub path: String,
    pub headers: Vec<(String, String)>,
    pub body: Vec<u8>,
}

/// An outbound HTTP response: a status code and a body.
pub struct Response {
    pub status: u16,
    pub body: Vec<u8>,
}

/// The one path the server recognises.
pub open spec fn health_path() -> Seq<char> {
    "/health_check"@
}

/// The status code of the fixed success response.
pub open spec fn success_status() -> u16 {
    200
}

/// The fixed response of the health-check handler: success, no body.
pub open spec fn is_success_response(r: Response) -> bool {
    &&& r.status == success_status()
    &&& r.body@ == Seq::<u8>::empty()
}

/// Whether a request hits the health-check route: method `GET`, path
/// `/health_check`. Headers and body play no part.
pub open spec fn matches_health(req: Request) -> bool {
    &&& req.method is Get
    &&& req.path@ == health_path()
}

/// The health-check handler. It branches on nothing: every call yields
/// the same bodyless success response.
pub fn health_check() -> (r: Response)
    ensures
        is_success_response(r),
{
    Response { status: 200, body: Vec::new() }
}

/// Whether a request is routed depends only on its method and path:
/// two requests that agree on those — whatever their headers and
/// bodies — are matched, or not matched, together.
pub proof fn lemma_headers_body_irrelevant(r1: Request, r2: Request)
    requires
        r1.method == r2.method,
        r1.path@ == r2.path@,
    ensures
        matches_health(r1) == matches_health(r2),
{
}

} // verus!
