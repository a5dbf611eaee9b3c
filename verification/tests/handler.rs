use cocktail_upload::handler::handle;
use cocktail_upload::payload::object_key;
use cocktail_upload::region::{resolve_region, Credentials, RegionConfig};
use cocktail_upload::response::HttpResponse;
use cocktail_upload::sign::upload_bucket;

fn test_credentials() -> Credentials {
    Credentials {
        access_key: "AKIDEXAMPLE".to_string(),
        secret_key: "SECRET-REDACTED".to_string(),
        session_token: None,
    }
}

fn test_region() -> RegionConfig {
    RegionConfig::Custom {
        name: "custom".to_string(),
        endpoint: "http://localhost:9000".to_string(),
    }
}

fn run(method: &str, body: &str) -> HttpResponse {
    handle(method, body, &test_region(), &test_credentials()).expect("handler failed")
}

#[test]
fn options_is_preflight_whatever_the_body() {
    for body in ["", "not json", "{\"bar_name\":\"a\",\"drink_name\":\"b\"}"] {
        let resp = run("OPTIONS", body);
        assert_eq!(resp.status, 200);
        assert_eq!(resp.body, "{\"message\":\"CORS preflight response\"}");
        let headers: Vec<(String, String)> = resp.headers;
        assert_eq!(headers.len(), 4);
        assert_eq!(headers[0], ("Content-Type".to_string(), "application/json".to_string()));
        assert_eq!(headers[1], ("Access-Control-Allow-Origin".to_string(), "*".to_string()));
        assert_eq!(
            headers[2],
            ("Access-Control-Allow-Methods".to_string(), "POST, GET, OPTIONS".to_string())
        );
        assert_eq!(
            headers[3],
            (
                "Access-Control-Allow-Headers".to_string(),
                "Content-Type, X-Amz-Date, Authorization, X-Api-Key".to_string()
            )
        );
    }
}

#[test]
fn object_key_is_prefix_names_suffix() {
    let key = object_key("Joe's Bar", "Mojito");
    assert_eq!(key, "cocktail-pictures/Joe's Bar/Mojito.jpg");
}

#[test]
fn object_key_empty_names() {
    assert_eq!(object_key("", ""), "cocktail-pictures//.jpg");
}

#[test]
fn invalid_json_gives_400_with_parser_message() {
    let resp = run("POST", "not json");
    assert_eq!(resp.status, 400);
    assert!(!resp.body.is_empty());
    assert_eq!(
        resp.headers,
        vec![("content-type".to_string(), "application/json".to_string())]
    );
}

#[test]
fn missing_field_gives_400_with_fixed_message() {
    let resp = run("POST", "{\"bar_name\":\"Joe's Bar\"}");
    assert_eq!(resp.status, 400);
    assert_eq!(resp.body, "missing string field `bar_name` or `drink_name`");
}

#[test]
fn non_string_field_gives_400_with_fixed_message() {
    let resp = run("POST", "{\"bar_name\":\"Joe's Bar\",\"drink_name\":7}");
    assert_eq!(resp.status, 400);
    assert_eq!(resp.body, "missing string field `bar_name` or `drink_name`");
}

#[test]
fn non_object_json_gives_400_with_fixed_message() {
    let resp = run("POST", "[1, 2, 3]");
    assert_eq!(resp.status, 400);
    assert_eq!(resp.body, "missing string field `bar_name` or `drink_name`");
}

#[test]
fn success_body_encodes_presigned_url_with_key() {
    let resp = run("POST", "{\"bar_name\":\"mybar\",\"drink_name\":\"mojito\"}");
    assert_eq!(resp.status, 200);
    assert_eq!(
        resp.headers,
        vec![("Content-Type".to_string(), "application/json".to_string())]
    );
    let url: String = serde_json::from_str(&resp.body).expect("body is not a JSON string");
    assert!(url.starts_with("http://") || url.starts_with("https://"));
    let expected_path = format!(
        "/{}/cocktail-pictures/mybar/mojito.jpg?",
        upload_bucket()
    );
    assert!(url.contains(&expected_path), "url {} misses {}", url, expected_path);
}

#[test]
fn success_with_empty_names_signs_degenerate_key() {
    let resp = run("POST", "{\"bar_name\":\"\",\"drink_name\":\"\"}");
    assert_eq!(resp.status, 200);
    let url: String = serde_json::from_str(&resp.body).expect("body is not a JSON string");
    assert!(url.contains("/cocktail-recommendations/cocktail-pictures//.jpg?"));
}

#[test]
fn camel_case_fields_are_not_accepted() {
    let resp = run("POST", "{\"barName\":\"a\",\"drinkName\":\"b\"}");
    assert_eq!(resp.status, 400);
}

#[test]
fn handler_is_idempotent_up_to_signature() {
    let body = "{\"bar_name\":\"mybar\",\"drink_name\":\"mojito\"}";
    let first = run("POST", body);
    let second = run("POST", body);
    assert_eq!(first.status, second.status);
    assert_eq!(first.headers, second.headers);
    let url1: String = serde_json::from_str(&first.body).unwrap();
    let url2: String = serde_json::from_str(&second.body).unwrap();
    let path1 = url1.split('?').next().unwrap();
    let path2 = url2.split('?').next().unwrap();
    assert_eq!(path1, path2);

    let bad1 = run("POST", "not json");
    let bad2 = run("POST", "not json");
    assert_eq!(bad1.status, bad2.status);
    assert_eq!(bad1.headers, bad2.headers);
    assert_eq!(bad1.body, bad2.body);
}

#[test]
fn endpoint_override_without_region_name_is_custom() {
    let region = resolve_region(Some("http://localhost:9000".to_string()), None);
    match region {
        RegionConfig::Custom { name, endpoint } => {
            assert_eq!(name, "custom");
            assert_eq!(endpoint, "http://localhost:9000");
        }
        RegionConfig::PlatformDefault => panic!("endpoint override must win"),
    }
}

#[test]
fn endpoint_override_keeps_configured_region_name() {
    let region = resolve_region(
        Some("http://localhost:9000".to_string()),
        Some("eu-west-1".to_string()),
    );
    match region {
        RegionConfig::Custom { name, .. } => assert_eq!(name, "eu-west-1"),
        RegionConfig::PlatformDefault => panic!("endpoint override must win"),
    }
}

#[test]
fn no_endpoint_override_uses_platform_default() {
    let region = resolve_region(None, Some("eu-west-1".to_string()));
    assert!(matches!(region, RegionConfig::PlatformDefault));
}

#[test]
fn signed_region_name_appears_in_credential_parameter() {
    let resp = run("POST", "{\"bar_name\":\"a\",\"drink_name\":\"b\"}");
    let url: String = serde_json::from_str(&resp.body).unwrap();
    assert!(url.contains("custom"), "url {} misses the region name", url);
}
