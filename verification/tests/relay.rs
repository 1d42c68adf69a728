use registry_proxy::error::ProxyError;
use registry_proxy::relay::{
    failure_reply, inbound_path, query_string, relay_status, substitutes_body,
    upstream_error_body,
};

fn pairs(list: &[(&str, &str)]) -> Vec<(String, String)> {
    list.iter().map(|(k, v)| (k.to_string(), v.to_string())).collect()
}

#[test]
fn path_gets_its_slash() {
    assert_eq!(inbound_path("library/alpine/manifests/3.18"), "/library/alpine/manifests/3.18");
    assert_eq!(inbound_path(""), "/");
    assert_eq!(inbound_path("/x"), "//x");
}

#[test]
fn query_of_no_parameters() {
    assert_eq!(query_string(&pairs(&[])), None);
}

#[test]
fn query_of_parameters() {
    assert_eq!(query_string(&pairs(&[("n", "10")])).as_deref(), Some("?n=10"));
    assert_eq!(
        query_string(&pairs(&[("n", "10"), ("last", "abc"), ("x", "")])).as_deref(),
        Some("?n=10&last=abc&x=")
    );
    assert_eq!(query_string(&pairs(&[("", "")])).as_deref(), Some("?="));
}

#[test]
fn status_goes_back_where_it_has_three_digits() {
    assert_eq!(relay_status(200), 200);
    assert_eq!(relay_status(100), 100);
    assert_eq!(relay_status(404), 404);
    assert_eq!(relay_status(999), 999);
    assert_eq!(relay_status(99), 500);
    assert_eq!(relay_status(1000), 500);
    assert_eq!(relay_status(0), 500);
}

#[test]
fn body_is_written_for_an_empty_failure() {
    assert!(substitutes_body(404, 0));
    assert!(substitutes_body(500, 0));
    assert!(substitutes_body(302, 0));
    assert!(!substitutes_body(404, 1));
    assert!(!substitutes_body(200, 0));
    assert!(!substitutes_body(204, 0));
    assert!(!substitutes_body(299, 10));
}

#[test]
fn body_for_an_empty_failure() {
    assert_eq!(upstream_error_body("404 Not Found"), "Upstream error: 404 Not Found");
    assert_eq!(upstream_error_body(""), "Upstream error: ");
}

#[test]
fn failure_is_status_500_with_the_message() {
    assert_eq!(
        failure_reply(&ProxyError::UnsupportedRegistry("unknown".to_string())),
        (500, "Unsupported registry: unknown".to_string())
    );
    assert_eq!(
        failure_reply(&ProxyError::TooManyRedirects),
        (500, "Too many redirects".to_string())
    );
}
