//! Request methods, the response value handlers produce, and the fixed CORS
//! preflight response.

use vstd::prelude::*;
use vstd::string::StringExecFns;

verus! {

/// The request methods the dispatcher distinguishes.
#[derive(Clone, Copy, PartialEq, Eq, Structural, Debug)]
pub enum HttpMethod {
    Get,
    Post,
    Put,
    Delete,
    Head,
    Options,
    Patch,
}

/// A complete response: status code, header name/value pairs in order, and
/// the body bytes.
#[derive(Debug)]
pub struct Response {
    pub status: u16,
    pub headers: Vec<(String, String)>,
    pub body: Vec<u8>,
}

/// The single web origin the endpoint trusts. It is a fixed string, never
/// derived from a request: no reflected-origin CORS.
pub open spec fn trusted_origin() -> Seq<char> {
    "https://www.figma.com"@
}

/// The trusted origin as a string slice.
pub fn trusted_origin_str() -> (r: &'static str)
    ensures
        r@ == trusted_origin(),
{
    "https://www.figma.com"
}

/// The fixed preflight answer: no content, the two CORS headers for the
/// trusted origin, an octet-stream content type, and an empty body.
pub open spec fn is_preflight_response(r: Response) -> bool {
    &&& r.status == 204
    &&& r.headers@.len() == 3
    &&& r.headers@[0].0@ == "Access-Control-Allow-Origin"@
    &&& r.headers@[0].1@ == trusted_origin()
    &&& r.headers@[1].0@ == "Access-Control-Allow-Private-Network"@
    &&& r.headers@[1].1@ == "true"@
    &&& r.headers@[2].0@ == "Content-Type"@
    &&& r.headers@[2].1@ == "application/octet-stream"@
    &&& r.body@ == Seq::<u8>::empty()
}

/// Builds the preflight response, the same one for every request.
pub fn preflight_response() -> (r: Response)
    ensures
        is_preflight_response(r),
{
    let mut headers: Vec<(String, String)> = Vec::new();
    headers.push(
        (String::from_str("Access-Control-Allow-Origin"), String::from_str(trusted_origin_str())),
    );
    headers.push((String::from_str("Access-Control-Allow-Private-Network"), String::from_str("true")));
    headers.push((String::from_str("Content-Type"), String::from_str("application/octet-stream")));
    Response { status: 204, headers, body: Vec::new() }
}

} // verus!
