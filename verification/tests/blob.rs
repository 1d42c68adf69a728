use registry_proxy::blob::{
    build_upstream_url, candidates_for, hub_api_url_of, path_is_blob, pull_scope_of,
    replace_colons, repository_of,
};

#[test]
fn upstream_url_joins_host_path_and_query() {
    assert_eq!(
        build_upstream_url("quay.io", "/v2/a/b/tags/list", Some("?n=10")),
        "https://quay.io/v2/a/b/tags/list?n=10"
    );
    assert_eq!(build_upstream_url("gcr.io", "/v2/", None), "https://gcr.io/v2/");
    assert_eq!(build_upstream_url("gcr.io", "", Some("")), "https://gcr.io");
}

#[test]
fn blob_paths_are_recognised() {
    assert!(path_is_blob("/v2/library/alpine/blobs/sha256:abc"));
    assert!(path_is_blob("/blobs/"));
    assert!(!path_is_blob("/v2/library/alpine/blobs"));
    assert!(!path_is_blob("/v2/library/alpine/manifests/latest"));
    assert!(!path_is_blob(""));
}

#[test]
fn repository_of_a_blob_path() {
    assert_eq!(repository_of("/v2/library/alpine/blobs/sha256:abc"), "library/alpine");
    assert_eq!(repository_of("/v2/a/b/c/blobs/x"), "a/b/c");
}

#[test]
fn repository_of_a_blob_address() {
    assert_eq!(
        repository_of("https://registry-1.docker.io/v2/bitnami/redis/blobs/sha256:abc"),
        "bitnami/redis"
    );
}

#[test]
fn repository_defaults_where_none_is_named() {
    assert_eq!(repository_of("/v2/blobs/x"), "library/redis");
    assert_eq!(repository_of("/v2//blobs/x"), "library/redis");
    assert_eq!(repository_of("/blobs/x"), "library/redis");
    assert_eq!(repository_of("/v2/a/b"), "library/redis");
    assert_eq!(repository_of("/blobs/v2/x"), "library/redis");
    assert_eq!(repository_of(""), "library/redis");
}

#[test]
fn scope_for_pulling() {
    assert_eq!(pull_scope_of("library/alpine"), "repository:library/alpine:pull");
    assert_eq!(pull_scope_of(""), "repository::pull");
}

#[test]
fn colons_become_slashes() {
    assert_eq!(replace_colons("sha256:abc"), "sha256/abc");
    assert_eq!(replace_colons("a:b:c"), "a/b/c");
    assert_eq!(replace_colons(":"), "/");
    assert_eq!(replace_colons("::"), "//");
    assert_eq!(replace_colons("plain"), "plain");
    assert_eq!(replace_colons(""), "");
    assert_eq!(replace_colons("x:"), "x/");
}

#[test]
fn three_candidates_for_a_refused_blob() {
    let found =
        candidates_for("https://registry-1.docker.io/v2/library/alpine/blobs/sha256:deadbeef01");
    assert_eq!(
        found,
        vec![
            "https://production.cloudflare.docker.com/registry-v2/docker/registry/v2/blobs/sha256/de/sha256/deadbeef01/data".to_string(),
            "https://registry.hub.docker.com/v2/library/alpine/blobs/sha256:deadbeef01".to_string(),
            "https://registry-cdn.docker.io/v2/library/alpine/blobs/sha256:deadbeef01".to_string(),
        ]
    );
}

#[test]
fn candidates_take_the_shard_from_offsets_seven_and_eight() {
    let found = candidates_for("/v2/r/blobs/0123456789");
    assert_eq!(
        found[0],
        "https://production.cloudflare.docker.com/registry-v2/docker/registry/v2/blobs/sha256/78/0123456789/data"
    );
    assert_eq!(found[1], "https://registry.hub.docker.com/v2/r/blobs/0123456789");
}

#[test]
fn candidates_use_the_default_repository() {
    let found = candidates_for("https://cdn.example/blobs/sha256:ab");
    assert_eq!(found.len(), 3);
    assert_eq!(found[1], "https://registry.hub.docker.com/v2/library/redis/blobs/sha256:ab");
    assert_eq!(found[2], "https://registry-cdn.docker.io/v2/library/redis/blobs/sha256:ab");
}

#[test]
fn no_candidates_without_a_digest_of_nine_characters() {
    assert!(candidates_for("https://cdn.example/file").is_empty());
    assert!(candidates_for("/v2/r/blobs/sha256:a").is_empty());
    assert!(candidates_for("/v2/r/blobs/").is_empty());
    assert_eq!(candidates_for("/v2/r/blobs/sha256:ab").len(), 3);
}

#[test]
fn hub_api_address_of_a_manifest_path() {
    assert_eq!(
        hub_api_url_of("/v2/bitnami/redis/manifests/7.0").as_deref(),
        Some("https://hub.docker.com/v2/repositories/bitnami/redis/tags/7.0")
    );
}

#[test]
fn hub_api_address_leaves_library_out() {
    assert_eq!(
        hub_api_url_of("/v2/library/alpine/manifests/3.18").as_deref(),
        Some("https://hub.docker.com/v2/repositories/alpine/tags/3.18")
    );
}

#[test]
fn hub_api_address_needs_a_name_under_v2() {
    assert!(hub_api_url_of("/v2/manifests/x").is_none());
    assert!(hub_api_url_of("/v2//manifests/x").is_none());
    assert!(hub_api_url_of("/v2/a/manifests/x").is_some());
    assert!(hub_api_url_of("/v3/a/manifests/x").is_none());
    assert!(hub_api_url_of("/v2/a/b").is_none());
    assert!(hub_api_url_of("").is_none());
    assert_eq!(
        hub_api_url_of("/v2/nginx/manifests/").as_deref(),
        Some("https://hub.docker.com/v2/repositories/nginx/tags/")
    );
}
