//! The HTTP-shaped response that the handler produces, together with the
//! spec-level model of a response and the three fixed response shapes:
//! CORS preflight, bad request, and upload success.

use vstd::prelude::*;

verus! {

/// An HTTP-shaped response: a status code, a list of headers in order,
/// and a body of text.
pub struct HttpResponse {
    pub status: u16,
    pub headers: Vec<(String, String)>,
    pub body: String,
}

/// The mathematical model of a header list: each header as a pair of
/// character sequences, in order.
pub open spec fn headers_model(hs: Seq<(String, String)>) -> Seq<(Seq<char>, Seq<char>)> {
    hs.map_values(|h: (String, String)| (h.0@, h.1@))
}

/// The mathematical model of a whole response: status, headers, body.
pub open spec fn resp_model(r: HttpResponse) -> (int, Seq<(Seq<char>, Seq<char>)>, Seq<char>) {
    (r.status as int, headers_model(r.headers@), r.body@)
}

/// The headers of a CORS preflight answer.
pub open spec fn preflight_headers() -> Seq<(Seq<char>, Seq<char>)> {
    seq![
        ("Content-Type"@, "application/json"@),
        ("Access-Control-Allow-Origin"@, "*"@),
        ("Access-Control-Allow-Methods"@, "POST, GET, OPTIONS"@),
        ("Access-Control-Allow-Headers"@, "Content-Type, X-Amz-Date, Authorization, X-Api-Key"@),
    ]
}

/// The body of a CORS preflight answer.
pub open spec fn preflight_body() -> Seq<char> {
    "{\"message\":\"CORS preflight response\"}"@
}

/// A response is the CORS preflight answer: status 200, the four CORS
/// headers, and the fixed JSON message body.
pub open spec fn is_preflight(r: HttpResponse) -> bool {
    &&& r.status == 200
    &&& headers_model(r.headers@) == preflight_headers()
    &&& r.body@ == preflight_body()
}

/// A response reports a client error: status 400, one content-type header,
/// and the given message as its body.
pub open spec fn is_bad_request(r: HttpResponse, msg: Seq<char>) -> bool {
    &&& r.status == 400
    &&& headers_model(r.headers@) == seq![("content-type"@, "application/json"@)]
    &&& r.body@ == msg
}

/// The headers of a successful answer.
pub open spec fn success_headers() -> Seq<(Seq<char>, Seq<char>)> {
    seq![("Content-Type"@, "application/json"@)]
}

/// Builds the CORS preflight answer.
pub fn preflight_response() -> (r: HttpResponse)
    ensures
        is_preflight(r),
{
    let mut headers: Vec<(String, String)> = Vec::new();
    headers.push(("Content-Type".to_owned(), "application/json".to_owned()));
    headers.push(("Access-Control-Allow-Origin".to_owned(), "*".to_owned()));
    headers.push(("Access-Control-Allow-Methods".to_owned(), "POST, GET, OPTIONS".to_owned()));
    headers.push((
        "Access-Control-Allow-Headers".to_owned(),
        "Content-Type, X-Amz-Date, Authorization, X-Api-Key".to_owned(),
    ));
    let r = HttpResponse {
        status: 200,
        headers,
        body: "{\"message\":\"CORS preflight response\"}".to_owned(),
    };
    proof {
        assert(headers_model(r.headers@) =~= preflight_headers());
    }
    r
}

/// Builds a client-error answer carrying the given message.
pub fn bad_request_response(msg: String) -> (r: HttpResponse)
    ensures
        is_bad_request(r, msg@),
{
    let mut headers: Vec<(String, String)> = Vec::new();
    headers.push(("content-type".to_owned(), "application/json".to_owned()));
    let r = HttpResponse { status: 400, headers, body: msg };
    proof {
        assert(headers_model(r.headers@) =~= seq![("content-type"@, "application/json"@)]);
    }
    r
}

/// Builds a successful answer whose body is the given, already encoded, text.
pub fn success_response(encoded_body: String) -> (r: HttpResponse)
    ensures
        r.status == 200,
        headers_model(r.headers@) == success_headers(),
        r.body@ == encoded_body@,
{
    let mut headers: Vec<(String, String)> = Vec::new();
    headers.push(("Content-Type".to_owned(), "application/json".to_owned()));
    let r = HttpResponse { status: 200, headers, body: encoded_body };
    proof {
        assert(headers_model(r.headers@) =~= success_headers());
    }
    r
}

} // verus!
