use registry_proxy::path::format_docker_hub_path;

#[test]
fn canonical_keeps_a_v2_path() {
    assert_eq!(
        format_docker_hub_path("docker", "/v2/library/nginx/manifests/latest"),
        "/v2/library/nginx/manifests/latest"
    );
}

#[test]
fn canonical_prefixes_a_library_path() {
    assert_eq!(
        format_docker_hub_path("docker", "/library/nginx/manifests/latest"),
        "/v2/library/nginx/manifests/latest"
    );
}

#[test]
fn canonical_puts_a_bare_name_under_library() {
    assert_eq!(format_docker_hub_path("docker", "/nginx"), "/v2/library/nginx");
}

#[test]
fn canonical_keeps_a_namespace() {
    assert_eq!(format_docker_hub_path("docker", "/bitnami/redis"), "/v2/bitnami/redis");
}

#[test]
fn canonical_root_under_v2_key() {
    assert_eq!(format_docker_hub_path("v2", "/"), "/v2/");
}

#[test]
fn canonical_catalog_under_v2_key() {
    assert_eq!(format_docker_hub_path("v2", "/_catalog"), "/v2/_catalog");
}

#[test]
fn canonical_v2_key_prefixes_whatever_it_gets() {
    assert_eq!(format_docker_hub_path("v2", "/v2/x"), "/v2/v2/x");
    assert_eq!(format_docker_hub_path("v2", "x"), "/v2x");
    assert_eq!(format_docker_hub_path("v2", ""), "/v2");
}

#[test]
fn canonical_path_without_leading_slash() {
    assert_eq!(format_docker_hub_path("docker", "nginx"), "/v2/nginx");
    assert_eq!(format_docker_hub_path("docker", ""), "/v2/");
}

#[test]
fn canonical_v2_prefix_without_slash_is_kept() {
    assert_eq!(format_docker_hub_path("docker", "/v2"), "/v2");
    assert_eq!(format_docker_hub_path("docker", "/v2foo"), "/v2foo");
}

#[test]
fn canonical_counts_every_slash() {
    assert_eq!(format_docker_hub_path("docker", "/nginx/"), "/v2/nginx/");
    assert_eq!(format_docker_hub_path("docker", "/"), "/v2/library/");
    assert_eq!(format_docker_hub_path("docker", "/library"), "/v2/library/library");
}

#[test]
fn canonical_is_idempotent_under_keys_other_than_v2() {
    for path in ["/nginx", "/bitnami/redis", "/library/x", "/v2/a/b", "plain", "", "/"] {
        let once = format_docker_hub_path("docker", path);
        let twice = format_docker_hub_path("docker", &once);
        assert_eq!(once, twice);
        assert!(once.starts_with("/v2"));
    }
}

#[test]
fn canonical_handles_characters_beyond_ascii() {
    assert_eq!(format_docker_hub_path("docker", "/café"), "/v2/library/café");
    assert_eq!(format_docker_hub_path("docker", "/é/ü"), "/v2/é/ü");
}
