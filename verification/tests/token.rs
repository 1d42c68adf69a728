use registry_proxy::config::DockerHubCredentials;
use registry_proxy::error::ProxyError;
use registry_proxy::token::{read_token, status_is_success, token_request, TokenResponse};

fn body(token: &str, access_token: &str) -> Option<TokenResponse> {
    Some(TokenResponse { token: token.to_string(), access_token: access_token.to_string() })
}

#[test]
fn token_request_names_service_and_scope() {
    let request = token_request(
        &DockerHubCredentials::anonymous(),
        "https://auth.docker.io/token",
        "registry.docker.io",
        "repository:library/alpine:pull",
    );
    assert_eq!(
        request.url,
        "https://auth.docker.io/token?service=registry.docker.io&scope=repository:library/alpine:pull"
    );
    assert!(request.basic_auth.is_none());
}

#[test]
fn token_request_names_an_empty_scope() {
    let request = token_request(&DockerHubCredentials::anonymous(), "r", "s", "");
    assert_eq!(request.url, "r?service=s&scope=");
}

#[test]
fn token_request_carries_the_configured_account() {
    let credentials =
        DockerHubCredentials::new(Some("name".to_string()), Some("secret".to_string()));
    let request = token_request(&credentials, "r", "s", "x");
    assert_eq!(request.basic_auth, Some(("name".to_string(), "secret".to_string())));
}

#[test]
fn token_request_carries_nothing_of_half_an_account() {
    let credentials = DockerHubCredentials::new(Some("name".to_string()), Some(String::new()));
    assert!(token_request(&credentials, "r", "s", "x").basic_auth.is_none());
    let credentials = DockerHubCredentials::new(None, Some("secret".to_string()));
    assert!(token_request(&credentials, "r", "s", "x").basic_auth.is_none());
}

#[test]
fn token_field_wins() {
    assert_eq!(read_token(200, body("T", "A")), Ok("T".to_string()));
    assert_eq!(read_token(299, body("T", "")), Ok("T".to_string()));
}

#[test]
fn access_token_is_used_where_token_is_empty() {
    assert_eq!(read_token(200, body("", "A")), Ok("A".to_string()));
}

#[test]
fn empty_token_is_an_error() {
    assert_eq!(read_token(200, body("", "")), Err(ProxyError::TokenMissing));
    assert_eq!(read_token(200, None), Err(ProxyError::TokenMissing));
}

#[test]
fn status_outside_2xx_is_an_error() {
    assert_eq!(read_token(401, body("T", "A")), Err(ProxyError::TokenRequestFailed(401)));
    assert_eq!(read_token(199, body("T", "A")), Err(ProxyError::TokenRequestFailed(199)));
    assert_eq!(read_token(300, None), Err(ProxyError::TokenRequestFailed(300)));
    assert_eq!(read_token(500, None), Err(ProxyError::TokenRequestFailed(500)));
}

#[test]
fn success_is_200_to_299() {
    assert!(!status_is_success(199));
    assert!(status_is_success(200));
    assert!(status_is_success(204));
    assert!(status_is_success(299));
    assert!(!status_is_success(300));
    assert!(!status_is_success(0));
    assert!(!status_is_success(u16::MAX));
}
