use registry_proxy::error::{decimal_string, ProxyError};

#[test]
fn messages_of_errors() {
    assert_eq!(
        ProxyError::UnsupportedRegistry("unknown".to_string()).message(),
        "Unsupported registry: unknown"
    );
    assert_eq!(
        ProxyError::UnsupportedMethod("TRACE".to_string()).message(),
        "Unsupported method: TRACE"
    );
    assert_eq!(ProxyError::TokenRequestFailed(401).message(), "Token request failed: 401");
    assert_eq!(ProxyError::TokenMissing.message(), "Token response holds no token");
    assert_eq!(ProxyError::TooManyRedirects.message(), "Too many redirects");
    assert_eq!(ProxyError::UpstreamTransport.message(), "Upstream request failed");
    assert_eq!(ProxyError::BodyReadFailed.message(), "Failed to read body");
    assert_eq!(ProxyError::HeaderRejected.message(), "Request headers could not be built");
    assert_eq!(ProxyError::UnexpectedEvent.message(), "Unexpected event");
}

#[test]
fn numbers_in_decimal() {
    assert_eq!(decimal_string(0), "0");
    assert_eq!(decimal_string(7), "7");
    assert_eq!(decimal_string(10), "10");
    assert_eq!(decimal_string(404), "404");
    assert_eq!(decimal_string(1000), "1000");
    assert_eq!(decimal_string(65535), "65535");
}
