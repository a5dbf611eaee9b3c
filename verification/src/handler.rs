//! The request handler: dispatches on the HTTP method, parses the payload,
//! derives the object key, asks the signing layer for a pre-signed upload
//! URL, and assembles the response. Its whole observable behaviour is
//! stated by `handle_post`.

use vstd::prelude::*;
use crate::json::{
    extract_payload, has_payload_fields, json_doc_of, json_encode_str, json_string_of, parse_json,
};
use crate::payload::{key_of, object_key};
use crate::region::{Credentials, RegionConfig};
use crate::response::{
    bad_request_response, headers_model, is_bad_request, is_preflight, preflight_response,
    resp_model, success_headers, success_response, HttpResponse,
};
use crate::sign::{
    path_uri_safe, presign_put_url, presigned_upload_url, seq_contains, to_sdk_region,
    upload_bucket, upload_bucket_name, upload_path, UPLOAD_URL_EXPIRY_SECS,
};

verus! {

/// The message returned when the body is valid JSON but does not carry both
/// names as strings.
pub open spec fn missing_fields_msg() -> Seq<char> {
    "missing string field `bar_name` or `drink_name`"@
}

/// Builds the missing-fields message.
pub fn missing_fields_message() -> (r: String)
    ensures
        r@ == missing_fields_msg(),
{
    "missing string field `bar_name` or `drink_name`".to_owned()
}

/// The object key a parsed payload asks an upload URL for.
pub open spec fn expected_key(f: Map<Seq<char>, Seq<char>>) -> Seq<char> {
    key_of(f["bar_name"@], f["drink_name"@])
}

/// A response answers a successful upload request for the given key: status
/// 200, one content-type header, and a body that JSON-encodes a pre-signed
/// upload URL for the fixed bucket and that key — a URL that carries the
/// upload path literally whenever the path needs no percent-encoding.
pub open spec fn is_upload_success(r: HttpResponse, key: Seq<char>) -> bool {
    &&& r.status == 200
    &&& headers_model(r.headers@) == success_headers()
    &&& exists|url: Seq<char>|
        #[trigger] presigned_upload_url(url, upload_bucket_name(), key)
            && (path_uri_safe(upload_path(upload_bucket_name(), key)) ==> seq_contains(
            url,
            upload_path(upload_bucket_name(), key) + "?"@,
        ))
            && (json_string_of(url) matches Ok(bd) && r.body@ == bd)
}

/// A propagated error on an upload request for the given key: encoding some
/// pre-signed upload URL for that key as JSON failed with this message.
pub open spec fn is_upload_failure(e: Seq<char>, key: Seq<char>) -> bool {
    exists|url: Seq<char>|
        #[trigger] presigned_upload_url(url, upload_bucket_name(), key)
            && (json_string_of(url) matches Err(m) && e == m)
}

/// The handler's whole observable behaviour, as a relation between the
/// method, the body text, and the outcome:
/// - method OPTIONS: the CORS preflight answer, whatever the body holds;
/// - body not valid JSON: status 400 carrying the parser's message;
/// - body valid JSON without both names as strings: status 400 carrying the
///   fixed missing-fields message;
/// - otherwise: a success response for the key derived from the two names,
///   or a propagated error if encoding the URL failed.
pub open spec fn handle_post(m: Seq<char>, b: Seq<char>, r: Result<HttpResponse, String>) -> bool {
    if m == "OPTIONS"@ {
        r matches Ok(resp) && is_preflight(resp)
    } else {
        match json_doc_of(b) {
            Err(msg) => r matches Ok(resp) && is_bad_request(resp, msg),
            Ok(fields) => if has_payload_fields(fields) {
                match r {
                    Ok(resp) => is_upload_success(resp, expected_key(fields)),
                    Err(e) => is_upload_failure(e@, expected_key(fields)),
                }
            } else {
                r matches Ok(resp) && is_bad_request(resp, missing_fields_msg())
            },
        }
    }
}

/// Relies on str's equality: two string slices are equal exactly when their
/// character sequences are equal.
#[verifier::external_body]
fn str_eq(a: &str, b: &str) -> (r: bool)
    ensures
        r == (a@ == b@),
{
    a == b
}

/// Handles one HTTP-shaped request: `method` and `body` come from the
/// inbound event, `region` and `creds` are the signing configuration the
/// caller resolved. Never panics; an `Err` is the fatal path the caller
/// reports to the platform.
pub fn handle(method: &str, body: &str, region: &RegionConfig, creds: &Credentials) -> (r: Result<
    HttpResponse,
    String,
>)
    ensures
        handle_post(method@, body@, r),
{
    if str_eq(method, "OPTIONS") {
        return Ok(preflight_response());
    }
    let doc = match parse_json(body) {
        Err(msg) => {
            return Ok(bad_request_response(msg));
        },
        Ok(doc) => doc,
    };
    let payload = match extract_payload(&doc) {
        None => {
            return Ok(bad_request_response(missing_fields_message()));
        },
        Some(p) => p,
    };
    let key = object_key(payload.bar_name.as_str(), payload.drink_name.as_str());
    let sdk_region = to_sdk_region(region);
    let url = presign_put_url(
        upload_bucket(),
        key.as_str(),
        UPLOAD_URL_EXPIRY_SECS,
        &sdk_region,
        creds,
    );
    match json_encode_str(url.as_str()) {
        Ok(encoded) => {
            let resp = success_response(encoded);
            proof {
                let fields = json_doc_of(body@)->Ok_0;
                let k = expected_key(fields);
                assert(presigned_upload_url(url@, upload_bucket_name(), k) && (path_uri_safe(
                    upload_path(upload_bucket_name(), k),
                ) ==> seq_contains(url@, upload_path(upload_bucket_name(), k) + "?"@)) && (
                json_string_of(url@) matches Ok(bd) && resp.body@ == bd));
            }
            Ok(resp)
        },
        Err(e) => {
            proof {
                let fields = json_doc_of(body@)->Ok_0;
                assert(presigned_upload_url(url@, upload_bucket_name(), expected_key(fields)) && (
                json_string_of(url@) matches Err(m) && e@ == m));
            }
            Err(e)
        },
    }
}

/// Two runs of the handler on the same input are structurally identical:
/// on the preflight and both client-error paths the whole response models
/// agree; on the success path both carry status 200, the same headers, and
/// bodies that JSON-encode pre-signed upload URLs for the same key — only
/// the signature- and time-bound parts of the URL may differ.
pub proof fn lemma_handle_deterministic(
    m: Seq<char>,
    b: Seq<char>,
    r1: Result<HttpResponse, String>,
    r2: Result<HttpResponse, String>,
)
    requires
        handle_post(m, b, r1),
        handle_post(m, b, r2),
    ensures
        m == "OPTIONS"@ ==> (r1 matches Ok(a) && (r2 matches Ok(c) && resp_model(a) == resp_model(
            c,
        ))),
        (m != "OPTIONS"@ && !(json_doc_of(b) matches Ok(f) && has_payload_fields(f))) ==> (
        r1 matches Ok(a) && (r2 matches Ok(c) && resp_model(a) == resp_model(c))),
        json_doc_of(b) matches Ok(f) ==> ((has_payload_fields(f) && m != "OPTIONS"@) ==> (
        r1 matches Ok(a) ==> (r2 matches Ok(c) ==> (a.status == c.status && headers_model(
            a.headers@,
        ) == headers_model(c.headers@) && is_upload_success(a, expected_key(f))
            && is_upload_success(c, expected_key(f)))))),
{
}

} // verus!
