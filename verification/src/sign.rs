//! The signing layer: asking the storage SDK for a pre-signed upload URL.
//! The URL embeds a timestamp and a signature, so no two calls need agree;
//! the trusted contract states only what holds of every outcome — the URL's
//! scheme and the percent-encoded upload path it carries.

use vstd::prelude::*;
use crate::region::{Credentials, RegionConfig};

verus! {

#[verifier::external_type_specification]
#[verifier::external_body]
pub struct ExRegion(rusoto_core::Region);

/// How long a signed upload URL stays valid, in seconds.
pub const UPLOAD_URL_EXPIRY_SECS: u64 = 3600;

/// The fixed object-storage bucket that uploads are signed for.
pub open spec fn upload_bucket_name() -> Seq<char> {
    "cocktail-recommendations"@
}

/// The fixed object-storage bucket that uploads are signed for.
pub fn upload_bucket() -> (r: &'static str)
    ensures
        r@ == upload_bucket_name(),
{
    "cocktail-recommendations"
}

/// What the SDK's path encoding yields for a given path: each character is
/// kept or percent-encoded, independently of its neighbours.
pub uninterp spec fn uri_path_encoded(s: Seq<char>) -> Seq<char>;

/// A character the SDK's path encoding keeps as it stands: an ASCII letter
/// or digit, or one of '-', '.', '_', '~', '/'.
pub open spec fn uri_unreserved_path_char(c: char) -> bool {
    ||| 'a' <= c <= 'z'
    ||| 'A' <= c <= 'Z'
    ||| '0' <= c <= '9'
    ||| c == '-'
    ||| c == '.'
    ||| c == '_'
    ||| c == '~'
    ||| c == '/'
}

/// Every character of the path is kept as it stands by the SDK's encoding.
pub open spec fn path_uri_safe(s: Seq<char>) -> bool {
    forall|i: int| 0 <= i < s.len() ==> uri_unreserved_path_char(#[trigger] s[i])
}

/// The needle stands in the haystack at position i.
pub open spec fn seq_contains_at(hay: Seq<char>, needle: Seq<char>, i: int) -> bool {
    0 <= i && i + needle.len() <= hay.len() && hay.subrange(i, i + needle.len()) == needle
}

/// The needle stands somewhere in the haystack.
pub open spec fn seq_contains(hay: Seq<char>, needle: Seq<char>) -> bool {
    exists|i: int| seq_contains_at(hay, needle, i)
}

/// The text starts with "http://" or "https://".
pub open spec fn has_url_scheme(url: Seq<char>) -> bool {
    ||| url.len() >= 7 && url.subrange(0, 7) == "http://"@
    ||| url.len() >= 8 && url.subrange(0, 8) == "https://"@
}

/// The request path an upload for this bucket and key is signed over.
pub open spec fn upload_path(bucket: Seq<char>, key: Seq<char>) -> Seq<char> {
    "/"@ + bucket + "/"@ + key
}

/// What every pre-signed upload URL for this bucket and key looks like:
/// it carries a URL scheme and, between its path and its query, the
/// percent-encoded upload path followed by '?'.
pub open spec fn presigned_upload_url(url: Seq<char>, bucket: Seq<char>, key: Seq<char>) -> bool {
    &&& has_url_scheme(url)
    &&& seq_contains(url, uri_path_encoded(upload_path(bucket, key)) + "?"@)
}

/// Relies on rusoto_core::Region::default in the platform-default arm: it
/// resolves the default region from the process environment and profile,
/// falling back to us-east-1, and never fails.
#[verifier::external_body]
pub(crate) fn to_sdk_region(region: &RegionConfig) -> rusoto_core::Region {
    match region {
        RegionConfig::PlatformDefault => rusoto_core::Region::default(),
        RegionConfig::Custom { name, endpoint } => rusoto_core::Region::Custom {
            name: name.clone(),
            endpoint: endpoint.clone(),
        },
    }
}

/// Relies on rusoto_s3's PreSignedRequest::get_presigned_url for a put
/// request: the URL it returns is scheme "://" host encoded-path "?" query,
/// where the path ends with the percent-encoded "/{bucket}/{key}" and the
/// query is never empty; the encoding keeps unreserved characters and '/'.
#[verifier::external_body]
pub(crate) fn presign_put_url(
    bucket: &str,
    key: &str,
    expires_secs: u64,
    region: &rusoto_core::Region,
    creds: &Credentials,
) -> (r: String)
    ensures
        has_url_scheme(r@),
        seq_contains(r@, uri_path_encoded(upload_path(bucket@, key@)) + "?"@),
        path_uri_safe(upload_path(bucket@, key@)) ==> seq_contains(
            r@,
            upload_path(bucket@, key@) + "?"@,
        ),
{
    let aws_creds = rusoto_credential::AwsCredentials::new(
        creds.access_key.as_str(),
        creds.secret_key.as_str(),
        creds.session_token.clone(),
        None,
    );
    let options = rusoto_s3::util::PreSignedRequestOption {
        expires_in: std::time::Duration::from_secs(expires_secs),
    };
    let request = rusoto_s3::PutObjectRequest {
        bucket: bucket.to_owned(),
        key: key.to_owned(),
        ..Default::default()
    };
    rusoto_s3::util::PreSignedRequest::get_presigned_url(&request, region, &aws_creds, &options)
}

} // verus!
