use ota_signer::error::{PipelineError, ValidationError};
use ota_signer::publish::{base_origin, download_url, published_urls, route_url, scheme, PublishedUrls};
use ota_signer::signing::SignResult;

#[test]
fn scheme_follows_the_forwarded_protocol() {
    assert_eq!(scheme(Some("https")), "https");
    assert_eq!(scheme(Some("http")), "http");
    assert_eq!(scheme(None), "http");
}

#[test]
fn any_other_forwarded_protocol_means_http() {
    assert_eq!(scheme(Some("HTTPS")), "http");
    assert_eq!(scheme(Some("https ")), "http");
    assert_eq!(scheme(Some("")), "http");
    assert_eq!(scheme(Some("wss")), "http");
}

#[test]
fn origin_is_scheme_and_host() {
    assert_eq!(base_origin(Some("example.com"), Some("https")), Ok("https://example.com".to_string()));
    assert_eq!(base_origin(Some("example.com:8080"), None), Ok("http://example.com:8080".to_string()));
    assert_eq!(base_origin(Some("[::1]:3000"), Some("ftp")), Ok("http://[::1]:3000".to_string()));
    assert_eq!(base_origin(Some(""), None), Ok("http://".to_string()));
}

#[test]
fn request_without_host_is_a_bad_request() {
    let outcome = base_origin(None, Some("https"));
    assert_eq!(outcome, Err(PipelineError::Validation(ValidationError::MissingHost)));
    let error = outcome.unwrap_err();
    assert_eq!(error.status(), 400);
    assert_eq!(error.message(), "Missing Host header");
    assert_eq!(base_origin(None, None), Err(PipelineError::Validation(ValidationError::MissingHost)));
}

#[test]
fn download_url_names_the_public_route() {
    assert_eq!(download_url("https://example.com", "1_t_D_f.ipa"), "https://example.com/public/1_t_D_f.ipa");
}

#[test]
fn route_url_joins_without_encoding() {
    assert_eq!(
        route_url("http://h", "ota", "com.example.app", "3.2.1", "x y.ipa"),
        "http://h/ota/com.example.app/3.2.1/x y.ipa"
    );
}

#[test]
fn the_three_addresses_of_an_artifact() {
    let signed = SignResult { bundle_id: "com.example.app".to_string(), bundle_version: "3.2.1".to_string() };
    assert_eq!(
        published_urls("https://example.com", &signed, "1700_tok_DEV_app_ipa.ipa"),
        PublishedUrls {
            ipa_url: "https://example.com/public/1700_tok_DEV_app_ipa.ipa".to_string(),
            ota_url: "https://example.com/ota/com.example.app/3.2.1/1700_tok_DEV_app_ipa.ipa".to_string(),
            install_url: "https://example.com/install/com.example.app/3.2.1/1700_tok_DEV_app_ipa.ipa"
                .to_string(),
        }
    );
}
