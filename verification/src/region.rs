//! Signing configuration: the region the upload URL is signed for and the
//! credentials it is signed with. Both are resolved once, outside the
//! handler, and passed in as plain values.

use vstd::prelude::*;

verus! {

/// The region the signing collaborator is pointed at: either the platform's
/// default region, or a custom endpoint with an explicit region name.
pub enum RegionConfig {
    PlatformDefault,
    Custom { name: String, endpoint: String },
}

/// Cloud credentials, resolved by the caller's provider chain and handed in
/// as plain values.
pub struct Credentials {
    pub access_key: String,
    pub secret_key: String,
    pub session_token: Option<String>,
}

/// The region name used in custom-endpoint mode: the configured name when
/// one is present, else the literal "custom".
pub open spec fn region_label(region_name: Option<String>) -> Seq<char> {
    match region_name {
        Some(n) => n@,
        None => "custom"@,
    }
}

/// How an endpoint override and a region name resolve to a region choice:
/// an endpoint override always wins and carries the region label; without
/// one the platform default is used.
pub open spec fn resolves_region(
    endpoint_url: Option<String>,
    region_name: Option<String>,
    r: RegionConfig,
) -> bool {
    match endpoint_url {
        Some(u) => r matches RegionConfig::Custom { name, endpoint } && name@ == region_label(
            region_name,
        ) && endpoint@ == u@,
        None => r is PlatformDefault,
    }
}

/// Resolves the signing region from an optional endpoint override and an
/// optional region name.
pub fn resolve_region(endpoint_url: Option<String>, region_name: Option<String>) -> (r:
    RegionConfig)
    ensures
        resolves_region(endpoint_url, region_name, r),
{
    match endpoint_url {
        Some(u) => RegionConfig::Custom {
            name: match region_name {
                Some(n) => n,
                None => "custom".to_owned(),
            },
            endpoint: u,
        },
        None => RegionConfig::PlatformDefault,
    }
}

/// With an endpoint override present and no region name configured, the
/// resolved region is custom and its name is the literal "custom".
pub proof fn lemma_custom_region_default_name(endpoint_url: Option<String>, r: RegionConfig)
    requires
        endpoint_url is Some,
        resolves_region(endpoint_url, None, r),
    ensures
        r matches RegionConfig::Custom { name, endpoint } && name@ == "custom"@ && endpoint@
            == endpoint_url.unwrap()@,
{
}

} // verus!
