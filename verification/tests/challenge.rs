use registry_proxy::challenge::parse_www_authenticate_header;

fn pairs(value: &str) -> Vec<(String, String)> {
    parse_www_authenticate_header(value)
        .expect("a challenge")
        .params
        .into_iter()
        .map(|p| (p.name, p.value))
        .collect()
}

fn pair(name: &str, value: &str) -> (String, String) {
    (name.to_string(), value.to_string())
}

#[test]
fn challenge_with_three_parameters() {
    let c = parse_www_authenticate_header("Bearer realm=\"R\",service=\"S\",scope=\"X\"").unwrap();
    assert_eq!(c.scheme, "Bearer");
    assert_eq!(c.params.len(), 3);
    assert_eq!(c.get("realm").unwrap(), "R");
    assert_eq!(c.get("service").unwrap(), "S");
    assert_eq!(c.get("scope").unwrap(), "X");
    assert!(c.get("other").is_none());
    assert!(c.is_bearer());
}

#[test]
fn challenge_of_docker_hub() {
    let value = "Bearer realm=\"https://auth.docker.io/token\",service=\"registry.docker.io\",scope=\"repository:library/ubuntu:pull\"";
    assert_eq!(
        pairs(value),
        vec![
            pair("realm", "https://auth.docker.io/token"),
            pair("service", "registry.docker.io"),
            pair("scope", "repository:library/ubuntu:pull"),
        ]
    );
}

#[test]
fn challenge_without_space_is_none() {
    assert!(parse_www_authenticate_header("Bearer").is_none());
    assert!(parse_www_authenticate_header("").is_none());
    assert!(parse_www_authenticate_header("realm=\"x\"").is_none());
}

#[test]
fn challenge_splits_at_the_first_space_only() {
    let c = parse_www_authenticate_header("Basic realm=\"a b\"").unwrap();
    assert_eq!(c.scheme, "Basic");
    assert_eq!(c.get("realm").unwrap(), "a b");
    assert!(!c.is_bearer());
}

#[test]
fn challenge_with_leading_space_has_empty_scheme() {
    let c = parse_www_authenticate_header(" a=b").unwrap();
    assert_eq!(c.scheme, "");
    assert_eq!(c.get("a").unwrap(), "b");
}

#[test]
fn challenge_drops_terms_without_equals() {
    assert_eq!(pairs("Bearer a=1,junk,b=2,"), vec![pair("a", "1"), pair("b", "2")]);
    assert_eq!(pairs("Bearer "), vec![]);
    assert_eq!(pairs("Bearer ,,"), vec![]);
}

#[test]
fn challenge_trims_ascii_white_space() {
    assert_eq!(
        pairs("Bearer  realm = \"R\" ,\tservice=\t S\r\n"),
        vec![pair("realm", "R"), pair("service", "S")]
    );
}

#[test]
fn challenge_strips_one_pair_of_quotes() {
    assert_eq!(pairs("Bearer a=\"\"x\"\""), vec![pair("a", "\"x\"")]);
    assert_eq!(pairs("Bearer a=\"x"), vec![pair("a", "\"x")]);
    assert_eq!(pairs("Bearer a=x\""), vec![pair("a", "x\"")]);
    assert_eq!(pairs("Bearer a=\""), vec![pair("a", "\"")]);
    assert_eq!(pairs("Bearer a=\"\""), vec![pair("a", "")]);
    assert_eq!(pairs("Bearer a=\" x \""), vec![pair("a", " x ")]);
}

#[test]
fn challenge_splits_a_term_at_its_first_equals() {
    assert_eq!(pairs("Bearer a=b=c"), vec![pair("a", "b=c")]);
    assert_eq!(pairs("Bearer =v"), vec![pair("", "v")]);
    assert_eq!(pairs("Bearer k="), vec![pair("k", "")]);
}

#[test]
fn challenge_splits_at_commas_inside_quotes() {
    assert_eq!(
        pairs("Bearer scope=\"a,b\",x=1"),
        vec![pair("scope", "\"a"), pair("x", "1")]
    );
}

#[test]
fn challenge_names_match_in_any_case_and_the_last_wins() {
    let c = parse_www_authenticate_header("BEARER Realm=one,realm=two,REALM=three").unwrap();
    assert!(c.is_bearer());
    assert_eq!(c.get("realm").unwrap(), "three");
    assert_eq!(c.get("ReAlM").unwrap(), "three");
    assert_eq!(c.params[0].name, "Realm");
}

#[test]
fn challenge_scheme_is_compared_without_case() {
    assert!(parse_www_authenticate_header("bearer a=b").unwrap().is_bearer());
    assert!(parse_www_authenticate_header("bEaReR a=b").unwrap().is_bearer());
    assert!(!parse_www_authenticate_header("bearers a=b").unwrap().is_bearer());
    assert!(!parse_www_authenticate_header("Digest a=b").unwrap().is_bearer());
}
