use libsql_hrana::target::{
    connect_params, endpoint_plan, find_jwt, params_from_config, params_from_url, Config,
    EndpointStep, TargetError,
};
use libsql_hrana::url_parts::UrlParts;

fn parts(scheme: &str, text: &str, query: &[(&str, &str)]) -> UrlParts {
    UrlParts {
        scheme: scheme.to_string(),
        text: text.to_string(),
        query: query.iter().map(|(k, v)| (k.to_string(), v.to_string())).collect(),
    }
}

#[test]
fn libsql_scheme_becomes_wss_and_jwt_is_the_credential() {
    let p = params_from_url("libsql://db.example.com/?jwt=abc").unwrap();
    assert_eq!(p.endpoint, "wss://db.example.com/");
    assert_eq!(p.credential, Some("abc".to_string()));
}

#[test]
fn other_scheme_is_kept_and_no_jwt_means_no_credential() {
    let p = params_from_url("https://db.example.com").unwrap();
    assert_eq!(p.endpoint, "https://db.example.com/");
    assert_eq!(p.credential, None);
}

#[test]
fn first_jwt_pair_wins() {
    let p = params_from_url("wss://h.example/?a=1&jwt=first&jwt=second").unwrap();
    assert_eq!(p.endpoint, "wss://h.example/?a=1");
    assert_eq!(p.credential, Some("first".to_string()));
}

#[test]
fn empty_jwt_means_no_credential() {
    let p = params_from_url("libsql://h.example?jwt=").unwrap();
    assert_eq!(p.endpoint, "wss://h.example/");
    assert_eq!(p.credential, None);
}

#[test]
fn malformed_url_is_a_url_error() {
    assert_eq!(params_from_url("not a url").err(), Some(TargetError::Url));
    assert_eq!(params_from_url("").err(), Some(TargetError::Url));
}

#[test]
fn libsql_scheme_without_authority_is_a_url_error() {
    assert_eq!(params_from_url("libsql:db").err(), Some(TargetError::Url));
}

#[test]
fn empty_token_means_no_authentication() {
    let a = connect_params("wss://h.example".to_string(), String::new());
    assert_eq!(a.endpoint, "wss://h.example");
    assert_eq!(a.credential, None);
    let b = params_from_url("wss://h.example").unwrap();
    assert_eq!(a.credential, b.credential);
}

#[test]
fn token_is_presented_as_given() {
    let p = connect_params("ws://localhost:8080".to_string(), "tok".to_string());
    assert_eq!(p.credential, Some("tok".to_string()));
}

#[test]
fn config_without_token_connects_without_credential() {
    let p = params_from_config(Config { url: "ws://localhost:8080".to_string(), auth_token: None });
    assert_eq!(p.endpoint, "ws://localhost:8080");
    assert_eq!(p.credential, None);
    let q = params_from_config(Config {
        url: "ws://localhost:8080".to_string(),
        auth_token: Some("secret".to_string()),
    });
    assert_eq!(q.credential, Some("secret".to_string()));
    let r = params_from_config(Config {
        url: "ws://localhost:8080".to_string(),
        auth_token: Some(String::new()),
    });
    assert_eq!(r.credential, None);
}

#[test]
fn jwt_lookup_over_decoded_pairs() {
    let q = vec![
        ("a".to_string(), "1".to_string()),
        ("jwt".to_string(), "x y".to_string()),
    ];
    assert_eq!(find_jwt(&q), "x y");
    assert_eq!(find_jwt(&Vec::new()), "");
}

#[test]
fn jwt_value_is_percent_decoded() {
    let p = params_from_url("libsql://db.example.com/?jwt=a%20b").unwrap();
    assert_eq!(p.endpoint, "wss://db.example.com/");
    assert_eq!(p.credential, Some("a b".to_string()));
}

#[test]
fn other_query_pairs_stay_in_order() {
    let p = params_from_url("libsql://h.example/db?x=1&jwt=t&y=a%20b#frag").unwrap();
    assert_eq!(p.endpoint, "wss://h.example/db?x=1&y=a+b#frag");
    assert_eq!(p.credential, Some("t".to_string()));
}

#[test]
fn url_without_query_keeps_no_question_mark() {
    let p = params_from_url("ws://localhost:8080/?jwt=k").unwrap();
    assert_eq!(p.endpoint, "ws://localhost:8080/");
    assert_eq!(p.credential, Some("k".to_string()));
}

#[test]
fn url_without_jwt_passes_unchanged() {
    let p = params_from_url("https://h.example/?a=%20&b").unwrap();
    assert_eq!(p.endpoint, "https://h.example/?a=%20&b");
    assert_eq!(p.credential, None);
    let q = params_from_url("libsql://h.example/db?a=%20").unwrap();
    assert_eq!(q.endpoint, "wss://h.example/db?a=%20");
    assert_eq!(q.credential, None);
}

#[test]
fn plan_keeps_other_scheme_without_jwt() {
    let plan = endpoint_plan(&parts("https", "https://h/?a=1", &[("a", "1")])).unwrap();
    assert!(matches!(plan.step, EndpointStep::Ready(ref t) if t == "https://h/?a=1"));
    assert_eq!(plan.token, "");
}

#[test]
fn plan_rewrites_libsql_and_reparses() {
    let plan = endpoint_plan(&parts("libsql", "libsql://h/db", &[])).unwrap();
    assert!(matches!(plan.step, EndpointStep::Reparse(ref t) if t == "wss://h/db"));
}

#[test]
fn plan_drops_jwt_from_query() {
    let plan = endpoint_plan(&parts(
        "libsql",
        "libsql://h/?jwt=t&x=1",
        &[("jwt", "t"), ("x", "1")],
    ))
    .unwrap();
    assert_eq!(plan.token, "t");
    match plan.step {
        EndpointStep::SetQuery(base, Some(q)) => {
            assert_eq!(base, "wss://h/?jwt=t&x=1");
            assert_eq!(q, "x=1");
        }
        _ => panic!("the jwt pair should be dropped"),
    }
    let only = endpoint_plan(&parts("wss", "wss://h/?jwt=t", &[("jwt", "t")])).unwrap();
    assert!(matches!(only.step, EndpointStep::SetQuery(ref b, None) if b == "wss://h/?jwt=t"));
}

#[test]
fn plan_refuses_libsql_without_authority() {
    assert!(matches!(endpoint_plan(&parts("libsql", "libsql:db", &[])), Err(TargetError::Url)));
}
