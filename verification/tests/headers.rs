use registry_proxy::headers::{
    agent_headers, blob_headers, direct_headers, header_text, is_value_text, prepare_headers,
    with_bearer, API_ACCEPT, BLOB_ACCEPT, DOCKER_USER_AGENT,
};
use reqwest::header::{HeaderMap, HeaderName, HeaderValue};

fn map(fields: &[(&str, &str)]) -> HeaderMap {
    let mut out = HeaderMap::new();
    for (name, value) in fields {
        out.append(
            HeaderName::from_bytes(name.as_bytes()).unwrap(),
            HeaderValue::from_str(value).unwrap(),
        );
    }
    out
}

fn value<'a>(headers: &'a HeaderMap, name: &str) -> Option<&'a str> {
    headers.get(name).map(|v| v.to_str().unwrap())
}

#[test]
fn prepared_for_docker_hub() {
    let inbound = map(&[("host", "proxy.local"), ("user-agent", "curl/8"), ("x-trace", "1")]);
    let out = prepare_headers(&inbound, "registry-1.docker.io", false).unwrap();
    assert_eq!(value(&out, "host"), Some("registry-1.docker.io"));
    assert_eq!(value(&out, "docker-distribution-api-version"), Some("registry/2.0"));
    assert_eq!(value(&out, "user-agent"), Some(DOCKER_USER_AGENT));
    assert_eq!(
        value(&out, "user-agent"),
        Some("docker/20.10.12 go/go1.16.12 git-commit/459d0df kernel/5.10.47 os/linux arch/amd64 UpstreamClient(Docker-Client/20.10.12 \\(linux\\))")
    );
    assert_eq!(value(&out, "accept-encoding"), Some("gzip"));
    assert_eq!(value(&out, "connection"), Some("keep-alive"));
    assert_eq!(value(&out, "cache-control"), Some("max-age=0"));
    assert_eq!(value(&out, "accept"), Some(API_ACCEPT));
    assert_eq!(value(&out, "x-trace"), Some("1"));
    assert_eq!(out.len(), 8);
}

#[test]
fn prepared_for_another_registry() {
    let inbound = map(&[("user-agent", "curl/8"), ("accept", "text/plain")]);
    let out = prepare_headers(&inbound, "quay.io", false).unwrap();
    assert_eq!(value(&out, "host"), Some("quay.io"));
    assert_eq!(value(&out, "docker-distribution-api-version"), Some("registry/2.0"));
    assert_eq!(value(&out, "user-agent"), Some("curl/8"));
    assert_eq!(value(&out, "accept"), Some(API_ACCEPT));
    assert!(out.get("accept-encoding").is_none());
    assert!(out.get("connection").is_none());
    assert!(out.get("cache-control").is_none());
    assert_eq!(out.len(), 4);
}

#[test]
fn prepared_accept_depends_on_blob() {
    let inbound = HeaderMap::new();
    assert_eq!(
        value(&prepare_headers(&inbound, "quay.io", true).unwrap(), "accept"),
        Some("application/octet-stream, application/vnd.docker.image.rootfs.diff.tar.gzip, application/vnd.oci.image.layer.v1.tar+gzip")
    );
    assert_eq!(value(&prepare_headers(&inbound, "quay.io", true).unwrap(), "accept"), Some(BLOB_ACCEPT));
    assert_eq!(
        value(&prepare_headers(&inbound, "quay.io", false).unwrap(), "accept"),
        Some("application/json, application/vnd.docker.distribution.manifest.v2+json, application/vnd.docker.distribution.manifest.list.v2+json, application/vnd.oci.image.manifest.v1+json, application/vnd.oci.image.index.v1+json")
    );
}

#[test]
fn prepared_leaves_the_inbound_set_as_it_is() {
    let inbound = map(&[("host", "proxy.local"), ("accept", "a"), ("accept", "b")]);
    let before = inbound.clone();
    let out = prepare_headers(&inbound, "registry-1.docker.io", true).unwrap();
    assert_eq!(inbound, before);
    assert_eq!(out.get_all("accept").iter().count(), 1);
    assert_eq!(inbound.get_all("accept").iter().count(), 2);
}

#[test]
fn prepared_refuses_a_host_that_no_header_can_carry() {
    assert!(prepare_headers(&HeaderMap::new(), "bad\nhost", false).is_none());
    assert!(prepare_headers(&HeaderMap::new(), "bad\u{7f}host", false).is_none());
}

#[test]
fn prepared_keeps_authorization_as_it_came() {
    let with = map(&[("authorization", "Basic abc")]);
    let out = prepare_headers(&with, "registry-1.docker.io", false).unwrap();
    assert_eq!(value(&out, "authorization"), Some("Basic abc"));
    let out = prepare_headers(&HeaderMap::new(), "registry-1.docker.io", false).unwrap();
    assert!(out.get("authorization").is_none());
}

#[test]
fn blob_set_fills_in_what_is_missing() {
    let out = blob_headers(&HeaderMap::new()).unwrap();
    assert_eq!(value(&out, "accept"), Some("application/octet-stream"));
    assert_eq!(value(&out, "range"), Some("bytes=0-"));
    assert_eq!(value(&out, "cache-control"), Some("no-cache"));
    assert_eq!(value(&out, "connection"), Some("keep-alive"));
    assert_eq!(out.len(), 4);
}

#[test]
fn blob_set_keeps_accept_and_range_and_forces_the_rest() {
    let prepared = map(&[
        ("accept", "x/y"),
        ("range", "bytes=5-9"),
        ("cache-control", "max-age=0"),
        ("connection", "close"),
        ("host", "h"),
    ]);
    let out = blob_headers(&prepared).unwrap();
    assert_eq!(value(&out, "accept"), Some("x/y"));
    assert_eq!(value(&out, "range"), Some("bytes=5-9"));
    assert_eq!(value(&out, "cache-control"), Some("no-cache"));
    assert_eq!(value(&out, "connection"), Some("keep-alive"));
    assert_eq!(value(&out, "host"), Some("h"));
    assert_eq!(value(&prepared, "connection"), Some("close"));
}

#[test]
fn bearer_token_replaces_authorization() {
    let base = map(&[("authorization", "Basic abc"), ("host", "h")]);
    let out = with_bearer(&base, "T0k3n").unwrap();
    assert_eq!(value(&out, "authorization"), Some("Bearer T0k3n"));
    assert_eq!(value(&out, "host"), Some("h"));
    assert_eq!(value(&base, "authorization"), Some("Basic abc"));
    assert_eq!(out.len(), 2);
}

#[test]
fn bearer_token_that_no_header_can_carry() {
    assert!(with_bearer(&HeaderMap::new(), "line\nbreak").is_none());
}

#[test]
fn agent_set_holds_one_field() {
    let out = agent_headers("docker-registry-proxy").unwrap();
    assert_eq!(value(&out, "user-agent"), Some("docker-registry-proxy"));
    assert_eq!(out.len(), 1);
}

#[test]
fn direct_set_without_and_with_token() {
    let out = direct_headers(None).unwrap();
    assert_eq!(
        value(&out, "user-agent"),
        Some("Mozilla/5.0 (Macintosh; Intel Mac OS X 10_15_7) AppleWebKit/537.36")
    );
    assert_eq!(value(&out, "accept"), Some("*/*"));
    assert_eq!(value(&out, "accept-encoding"), Some("gzip, deflate, br"));
    assert!(out.get("authorization").is_none());
    assert_eq!(out.len(), 3);
    let out = direct_headers(Some("T")).unwrap();
    assert_eq!(value(&out, "authorization"), Some("Bearer T"));
    assert_eq!(out.len(), 4);
}

#[test]
fn text_of_a_field() {
    let headers = map(&[("Location", "https://cdn.example/a"), ("x", "1"), ("x", "2")]);
    assert_eq!(header_text(&headers, "location").as_deref(), Some("https://cdn.example/a"));
    assert_eq!(header_text(&headers, "LOCATION").as_deref(), Some("https://cdn.example/a"));
    assert_eq!(header_text(&headers, "x").as_deref(), Some("1"));
    assert!(header_text(&headers, "y").is_none());
    assert!(header_text(&headers, "").is_none());
    assert!(header_text(&headers, "not a name").is_none());
}

#[test]
fn text_of_a_field_that_is_no_text() {
    let mut headers = HeaderMap::new();
    headers.insert("location", HeaderValue::from_bytes(b"caf\xc3\xa9").unwrap());
    assert!(header_text(&headers, "location").is_none());
    headers.insert("location", HeaderValue::from_bytes(b"a\tb").unwrap());
    assert_eq!(header_text(&headers, "location").as_deref(), Some("a\tb"));
}

#[test]
fn values_that_headers_carry() {
    assert!(is_value_text("Bearer abc.def-ghi_jkl"));
    assert!(is_value_text(""));
    assert!(is_value_text("a\tb"));
    assert!(is_value_text("café"));
    assert!(!is_value_text("a\nb"));
    assert!(!is_value_text("a\rb"));
    assert!(!is_value_text("a\u{0}b"));
    assert!(!is_value_text("a\u{7f}b"));
    assert!(HeaderValue::from_str("café").is_ok());
    assert!(HeaderValue::from_str("a\u{7f}b").is_err());
}

fn crowded(names: usize) -> HeaderMap {
    let mut out = HeaderMap::new();
    for i in 0..names {
        out.insert(
            HeaderName::from_bytes(format!("x-field-{}", i).as_bytes()).unwrap(),
            HeaderValue::from_static("1"),
        );
    }
    assert_eq!(out.keys_len(), names);
    out
}

#[test]
fn prepared_is_built_while_the_inbound_set_has_room() {
    let inbound = crowded(4096 - 7);
    let out = prepare_headers(&inbound, "registry-1.docker.io", true).unwrap();
    assert_eq!(out.keys_len(), 4096);
    assert_eq!(value(&out, "host"), Some("registry-1.docker.io"));
    assert_eq!(value(&out, "x-field-0"), Some("1"));
    assert_eq!(inbound.keys_len(), 4096 - 7);
    let out = prepare_headers(&inbound, "quay.io", false).unwrap();
    assert_eq!(out.keys_len(), 4096 - 7 + 3);
}

#[test]
fn prepared_is_built_on_a_map_of_any_capacity() {
    let inbound = HeaderMap::with_capacity(24000);
    let out = prepare_headers(&inbound, "registry-1.docker.io", false).unwrap();
    assert_eq!(out.keys_len(), 7);
    let mut inbound = HeaderMap::with_capacity(3);
    inbound.insert("accept", HeaderValue::from_static("a"));
    inbound.append("accept", HeaderValue::from_static("b"));
    let out = prepare_headers(&inbound, "registry-1.docker.io", false).unwrap();
    assert_eq!(out.keys_len(), 7);
    assert_eq!(out.len(), 7);
}

#[test]
fn blob_set_is_built_while_the_prepared_set_has_room() {
    let prepared = crowded(4096 - 4);
    let out = blob_headers(&prepared).unwrap();
    assert_eq!(out.keys_len(), 4096);
    assert_eq!(value(&out, "range"), Some("bytes=0-"));
}

#[test]
fn bearer_token_is_carried_while_the_set_has_room() {
    let base = crowded(4095);
    let out = with_bearer(&base, "T").unwrap();
    assert_eq!(out.keys_len(), 4096);
    assert_eq!(value(&out, "authorization"), Some("Bearer T"));
    let out = with_bearer(&out, "U").unwrap();
    assert_eq!(out.keys_len(), 4096);
    assert_eq!(value(&out, "authorization"), Some("Bearer U"));
}

#[test]
fn agent_set_is_built_exactly_for_agents_that_headers_carry() {
    assert!(agent_headers("").is_some());
    assert!(agent_headers("caf\u{e9}/1.0").is_some());
    assert!(agent_headers("tab\tbed").is_some());
    assert!(agent_headers("line\nbreak").is_none());
    assert!(agent_headers("nul\u{0}").is_none());
    assert!(agent_headers("del\u{7f}").is_none());
}

#[test]
fn direct_set_is_built_exactly_for_tokens_that_headers_carry() {
    assert!(direct_headers(None).is_some());
    assert!(direct_headers(Some("")).is_some());
    assert!(direct_headers(Some("abc.def")).is_some());
    assert!(direct_headers(Some("line\nbreak")).is_none());
    assert!(direct_headers(Some("bell\u{7}")).is_none());
}
