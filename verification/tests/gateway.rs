use hypatia_ca::ca::CaCore;
use hypatia_ca::gateway::{handle_sign_request, parse_request};

const NOW: u64 = 1_700_000_000;

fn primed_core() -> CaCore {
    let mut core = CaCore::new();
    core.create_root(String::from("Hypatia-Root"), 3650, false, NOW)
        .unwrap();
    core
}

fn post() -> String {
    String::from("POST")
}

fn sign_path() -> String {
    String::from("/sign")
}

#[test]
fn gateway_auth_scenario() {
    let mut core = primed_core();
    let token = String::from("example-token");

    let wrong = String::from("Bearer wrong");
    let r = handle_sign_request(
        &mut core,
        &post(),
        &sign_path(),
        Some(&wrong),
        &token,
        &br#"{"cn":"svc.example"}"#.to_vec(),
        NOW,
    );
    assert_eq!(r.status, 401);
    assert_eq!(r.body, "unauthorized");
    assert_eq!(core.cert_count(), 0);

    let good = format!("Bearer {token}");
    let r = handle_sign_request(
        &mut core,
        &post(),
        &sign_path(),
        Some(&good),
        &token,
        &br#"{"cn":"svc.example","days":30}"#.to_vec(),
        NOW,
    );
    assert_eq!(r.status, 200);
    assert_eq!(r.body, "ok");
    assert_eq!(core.cert_count(), 1);
    let cert = core.cert_by_id(0).unwrap();
    assert_eq!(cert.cn, "svc.example");
    assert_eq!(cert.not_after, NOW + 30 * 86400);
}

#[test]
fn gateway_missing_auth_is_unauthorized() {
    let mut core = primed_core();
    let token = String::from("tok");
    let r = handle_sign_request(
        &mut core,
        &post(),
        &sign_path(),
        None,
        &token,
        &br#"{"cn":"a","days":1}"#.to_vec(),
        NOW,
    );
    assert_eq!(r.status, 401);
}

#[test]
fn gateway_malformed_body_scenario() {
    let mut core = primed_core();
    let token = String::from("tok");
    let good = String::from("Bearer tok");
    let r = handle_sign_request(
        &mut core,
        &post(),
        &sign_path(),
        Some(&good),
        &token,
        &b"not-json".to_vec(),
        NOW,
    );
    assert_eq!(r.status, 400);
    assert_eq!(r.body, "bad request");
    assert_eq!(core.cert_count(), 0);
}

#[test]
fn gateway_missing_days_uses_default_validity() {
    let mut core = primed_core();
    let token = String::from("tok");
    let good = String::from("Bearer tok");
    let r = handle_sign_request(
        &mut core,
        &post(),
        &sign_path(),
        Some(&good),
        &token,
        &br#"{"cn":"svc.example"}"#.to_vec(),
        NOW,
    );
    // days is optional: the default validity window of 365 days applies
    assert_eq!(r.status, 200);
    assert_eq!(core.cert_count(), 1);
    let cert = core.cert_by_id(0).unwrap();
    assert_eq!(cert.cn, "svc.example");
    assert_eq!(cert.not_after, NOW + 365 * 86400);
}

#[test]
fn gateway_unknown_route_is_not_found() {
    let mut core = primed_core();
    let token = String::from("tok");
    let good = String::from("Bearer tok");
    let r = handle_sign_request(
        &mut core,
        &String::from("GET"),
        &sign_path(),
        Some(&good),
        &token,
        &vec![],
        NOW,
    );
    assert_eq!(r.status, 404);
    assert_eq!(r.body, "not found");
    let r2 = handle_sign_request(
        &mut core,
        &post(),
        &String::from("/other"),
        Some(&good),
        &token,
        &vec![],
        NOW,
    );
    assert_eq!(r2.status, 404);
}

#[test]
fn gateway_issuer_failure_is_server_error() {
    // no root anchor: issuance fails, the gateway answers 500
    let mut core = CaCore::new();
    let token = String::from("tok");
    let good = String::from("Bearer tok");
    let r = handle_sign_request(
        &mut core,
        &post(),
        &sign_path(),
        Some(&good),
        &token,
        &br#"{"cn":"svc.example","days":30}"#.to_vec(),
        NOW,
    );
    assert_eq!(r.status, 500);
}

#[test]
fn request_grammar_accepts_both_orders_and_whitespace() {
    let r = parse_request(&br#"  { "days" : 7 , "cn" : "x.y" }  "#.to_vec()).unwrap();
    assert_eq!(r.cn, b"x.y".to_vec());
    assert_eq!(r.days, Some(7));

    let r2 = parse_request(&br#"{"cn":"only"}"#.to_vec()).unwrap();
    assert_eq!(r2.cn, b"only".to_vec());
    assert_eq!(r2.days, None);
}

#[test]
fn request_grammar_rejects_malformed_bodies() {
    assert!(parse_request(&b"".to_vec()).is_none());
    assert!(parse_request(&b"not-json".to_vec()).is_none());
    assert!(parse_request(&br#"{"days":30}"#.to_vec()).is_none());
    assert!(parse_request(&br#"{"cn":"a","cn":"b"}"#.to_vec()).is_none());
    assert!(parse_request(&br#"{"cn":"a","days":30,}"#.to_vec()).is_none());
    assert!(parse_request(&br#"{"cn":"a","days":4294967296}"#.to_vec()).is_none());
    assert!(parse_request(&br#"{"cn":"a","days":-1}"#.to_vec()).is_none());
    assert!(parse_request(&br#"{"cn":"a","days":30} trailing"#.to_vec()).is_none());
    // an unknown member with a nested value is outside the grammar
    assert!(parse_request(&br#"{"cn":"a","x":{"y":1}}"#.to_vec()).is_none());
    assert!(parse_request(&br#"{"cn":"a","x":[1]}"#.to_vec()).is_none());
    // the largest accepted value still parses
    let r = parse_request(&br#"{"cn":"a","days":4294967295}"#.to_vec()).unwrap();
    assert_eq!(r.days, Some(4294967295));
}

#[test]
fn request_grammar_ignores_unknown_members() {
    let r = parse_request(&br#"{"cn":"a","other":1}"#.to_vec()).unwrap();
    assert_eq!(r.cn, b"a".to_vec());
    assert_eq!(r.days, None);

    let r2 = parse_request(
        &br#"{"note":"x","cn":"a","f":-1.5e+3,"flag":true,"none":null,"days":9}"#.to_vec(),
    )
    .unwrap();
    assert_eq!(r2.cn, b"a".to_vec());
    assert_eq!(r2.days, Some(9));
}

#[test]
fn request_grammar_passes_utf8_common_names_through() {
    // raw UTF-8 passes through the grammar unchanged
    let raw = "{\"cn\":\"café.example\",\"days\":30}".as_bytes().to_vec();
    let r = parse_request(&raw).unwrap();
    assert_eq!(r.cn, "café.example".as_bytes().to_vec());
    // escape sequences are not interpreted: a backslash is outside the grammar
    let escaped = br#"{"cn":"caf\u00e9","days":30}"#.to_vec();
    assert!(parse_request(&escaped).is_none());
}

#[test]
fn gateway_issues_for_utf8_common_name() {
    let mut core = primed_core();
    let token = String::from("tok");
    let good = String::from("Bearer tok");
    let body = "{\"cn\":\"café.example\",\"days\":7}".as_bytes().to_vec();
    let r = handle_sign_request(&mut core, &post(), &sign_path(), Some(&good), &token, &body, NOW);
    assert_eq!(r.status, 200);
    assert_eq!(core.cert_by_id(0).unwrap().cn, "café.example");
}

#[test]
fn gateway_rejects_invalid_utf8_common_name() {
    let mut core = primed_core();
    let token = String::from("tok");
    let good = String::from("Bearer tok");
    // a lone 0xFF byte is allowed by the grammar but is not valid UTF-8
    let mut body = br#"{"cn":""#.to_vec();
    body.push(0xFF);
    body.extend_from_slice(br#"","days":7}"#);
    let r = handle_sign_request(&mut core, &post(), &sign_path(), Some(&good), &token, &body, NOW);
    assert_eq!(r.status, 400);
    assert_eq!(core.cert_count(), 0);
}
