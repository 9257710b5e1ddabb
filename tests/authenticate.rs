use jsonwebtoken::jwk::{Jwk, KeyAlgorithm};
use jsonwebtoken::{encode, Algorithm, EncodingKey, Header};
use jwt_auth::error::{DecodeFailure, JwtError};
use jwt_auth::keys::{find_matching_key_set, Key, KeySet, TokenHeader};
use jwt_auth::lookup::{LookupError, LookupLocation};
use jwt_auth::plugin::{
    available_key_sets, select_result, JwtAuthPlugin, JwtAuthPluginConfig, RequestContext, VerifiedToken,
};
use jwt_auth::request::{HeaderEntry, HttpRequest};
use jwt_auth::token::{validate_claims, ClaimValue};

const SECRET_ONE: &[u8] = b"first-secret-key-material-0001";
const SECRET_TWO: &[u8] = b"other-secret-key-material-0002";
const K_ONE: &str = "Zmlyc3Qtc2VjcmV0LWtleS1tYXRlcmlhbC0wMDAx";
const K_TWO: &str = "b3RoZXItc2VjcmV0LWtleS1tYXRlcmlhbC0wMDAy";

fn jwk(k: &str, alg: Option<&str>, kid: Option<&str>) -> Jwk {
    let mut v = serde_json::Map::new();
    v.insert("kty".to_string(), serde_json::Value::String("oct".to_string()));
    v.insert("k".to_string(), serde_json::Value::String(k.to_string()));
    if let Some(a) = alg {
        v.insert("alg".to_string(), serde_json::Value::String(a.to_string()));
    }
    if let Some(id) = kid {
        v.insert("kid".to_string(), serde_json::Value::String(id.to_string()));
    }
    serde_json::from_value(serde_json::Value::Object(v)).unwrap()
}

fn key(k: &str, alg: Option<&str>, kid: Option<&str>) -> Key {
    Key::from_jwk(jwk(k, alg, kid))
}

fn payload(extra: &[(&str, serde_json::Value)]) -> serde_json::Value {
    let mut m = serde_json::Map::new();
    m.insert("sub".to_string(), serde_json::Value::String("user-1".to_string()));
    m.insert("exp".to_string(), serde_json::Value::from(4_000_000_000u64));
    for (k, v) in extra {
        m.insert(k.to_string(), v.clone());
    }
    serde_json::Value::Object(m)
}

fn sign(secret: &[u8], kid: Option<&str>, claims: &serde_json::Value) -> String {
    let mut header = Header::new(Algorithm::HS256);
    header.kid = kid.map(String::from);
    encode(&header, claims, &EncodingKey::from_secret(secret)).unwrap()
}

fn config() -> JwtAuthPluginConfig {
    JwtAuthPluginConfig {
        lookup_locations: vec![LookupLocation::Header {
            name: "authorization".to_string(),
            prefix: Some("Bearer".to_string()),
        }],
        issuers: None,
        audiences: None,
        forward_claims_to_upstream_header: None,
        forward_token_to_upstream_header: None,
        reject_unauthenticated_requests: None,
    }
}

fn bearer(token: &str) -> HttpRequest {
    HttpRequest {
        headers: vec![HeaderEntry { name: "authorization".to_string(), value: format!("Bearer {}", token).into_bytes() }],
        query_params: vec![],
    }
}

fn strings(v: &[&str]) -> Option<Vec<String>> {
    Some(v.iter().map(|s| s.to_string()).collect())
}

fn text(s: &str) -> ClaimValue {
    ClaimValue::Text(s.to_string())
}

fn list(v: &[Option<&str>]) -> ClaimValue {
    ClaimValue::List(v.iter().map(|s| s.map(String::from)).collect())
}

#[test]
fn status_codes_follow_error_kind() {
    assert_eq!(JwtError::LookupFailed(LookupError::LookupFailed).status_code(), 400);
    assert_eq!(JwtError::JwkAlgorithmNotSupported(KeyAlgorithm::RSA_OAEP).status_code(), 400);
    assert_eq!(JwtError::HTTPRequestParsingError("x".to_string()).status_code(), 400);
    assert_eq!(JwtError::JwkMissingAlgorithm.status_code(), 500);
    assert_eq!(JwtError::FailedToLocateProvider.status_code(), 500);
    assert_eq!(JwtError::AllProvidersFailedToDecode(vec![]).status_code(), 401);
    assert_eq!(JwtError::FailedToDecodeToken(DecodeFailure::InvalidIssuer).status_code(), 401);
    let plugin = JwtAuthPlugin::new_from_config(config());
    match plugin.authenticate(&vec![], &bearer("abc.def.ghi")) {
        Err(e @ JwtError::InvalidJwtHeader(_)) => assert_eq!(e.status_code(), 400),
        _ => panic!("expected an invalid header"),
    }
}

#[test]
fn key_id_takes_precedence_over_algorithm() {
    let sets = vec![
        KeySet { keys: vec![key(K_ONE, Some("HS256"), Some("a"))] },
        KeySet { keys: vec![key(K_TWO, Some("HS256"), Some("b"))] },
    ];
    let header = TokenHeader { alg: Algorithm::HS256, kid: Some("b".to_string()) };
    assert!(matches!(find_matching_key_set(&header, &sets), Ok(1)));
}

#[test]
fn algorithm_matches_when_no_key_id_matches() {
    let sets = vec![
        KeySet { keys: vec![key(K_ONE, Some("HS384"), None)] },
        KeySet { keys: vec![key(K_TWO, Some("HS256"), None)] },
    ];
    let header = TokenHeader { alg: Algorithm::HS256, kid: Some("missing".to_string()) };
    assert!(matches!(find_matching_key_set(&header, &sets), Ok(1)));
    let header = TokenHeader { alg: Algorithm::HS512, kid: None };
    assert!(matches!(find_matching_key_set(&header, &sets), Err(JwtError::FailedToLocateProvider)));
}

#[test]
fn encryption_algorithm_stops_algorithm_matching() {
    let sets = vec![KeySet { keys: vec![key(K_ONE, Some("RSA-OAEP"), None), key(K_TWO, Some("HS256"), None)] }];
    let header = TokenHeader { alg: Algorithm::HS256, kid: None };
    assert!(matches!(
        find_matching_key_set(&header, &sets),
        Err(JwtError::JwkAlgorithmNotSupported(KeyAlgorithm::RSA_OAEP))
    ));
}

#[test]
fn issuer_policy() {
    let iss = strings(&["https://issuer"]);
    assert!(validate_claims(&iss, &None, &text("https://issuer"), &ClaimValue::Missing).is_ok());
    assert!(matches!(validate_claims(&iss, &None, &ClaimValue::Missing, &ClaimValue::Missing), Err(DecodeFailure::InvalidIssuer)));
    assert!(matches!(validate_claims(&iss, &None, &text("https://other"), &ClaimValue::Missing), Err(DecodeFailure::InvalidIssuer)));
    assert!(matches!(validate_claims(&iss, &None, &ClaimValue::Other, &ClaimValue::Missing), Err(DecodeFailure::InvalidIssuer)));
    assert!(validate_claims(&None, &None, &ClaimValue::Missing, &ClaimValue::Missing).is_ok());
    assert!(validate_claims(&None, &None, &text("anything"), &ClaimValue::Other).is_ok());
}

#[test]
fn audience_policy() {
    let aud = strings(&["api", "web"]);
    assert!(validate_claims(&None, &aud, &ClaimValue::Missing, &list(&[Some("api"), Some("web")])).is_ok());
    assert!(validate_claims(&None, &aud, &ClaimValue::Missing, &list(&[])).is_ok());
    assert!(matches!(validate_claims(&None, &aud, &ClaimValue::Missing, &ClaimValue::Missing), Err(DecodeFailure::InvalidAudience)));
    assert!(matches!(validate_claims(&None, &aud, &ClaimValue::Missing, &text("api")), Err(DecodeFailure::InvalidAudience)));
    assert!(matches!(validate_claims(&None, &aud, &ClaimValue::Missing, &list(&[Some("api"), Some("x")])), Err(DecodeFailure::InvalidAudience)));
    assert!(matches!(validate_claims(&None, &aud, &ClaimValue::Missing, &list(&[Some("api"), None])), Err(DecodeFailure::InvalidAudience)));
}

#[test]
fn round_trip_claims_equal_payload() {
    let mut cfg = config();
    cfg.issuers = strings(&["iss-a"]);
    cfg.audiences = strings(&["aud-a", "aud-b"]);
    let plugin = JwtAuthPlugin::new_from_config(cfg);
    let claims = payload(&[
        ("iss", serde_json::Value::String("iss-a".to_string())),
        ("aud", string_array(&["aud-a"])),
    ]);
    let token = sign(SECRET_ONE, Some("k1"), &claims);
    let sets = vec![KeySet { keys: vec![key(K_ONE, Some("HS256"), Some("k1"))] }];
    let verified: VerifiedToken = match plugin.authenticate(&sets, &bearer(&token)) {
        Ok(v) => v,
        Err(e) => panic!("expected success, got status {}", e.status_code()),
    };
    assert_eq!(verified.claims, claims);
    assert_eq!(verified.token, token);
}

fn string_array(v: &[&str]) -> serde_json::Value {
    serde_json::Value::Array(v.iter().map(|s| serde_json::Value::String(s.to_string())).collect())
}

#[test]
fn audience_string_is_refused_under_allow_list() {
    let mut cfg = config();
    cfg.audiences = strings(&["aud-a"]);
    let plugin = JwtAuthPlugin::new_from_config(cfg);
    let token = sign(SECRET_ONE, None, &payload(&[("aud", serde_json::Value::String("aud-a".to_string()))]));
    let keys = vec![key(K_ONE, Some("HS256"), None)];
    match plugin.decode_and_validate_token(&token, &keys) {
        Err(JwtError::AllProvidersFailedToDecode(errs)) => {
            assert_eq!(errs.len(), 1);
            assert!(matches!(errs[0], JwtError::FailedToDecodeToken(_)));
        },
        _ => panic!("expected a failure"),
    }
}

#[test]
fn first_valid_key_wins() {
    let plugin = JwtAuthPlugin::new_from_config(config());
    let token = sign(SECRET_TWO, None, &payload(&[]));
    let keys = vec![
        key(K_ONE, Some("HS256"), None),
        key(K_TWO, Some("HS256"), None),
        key(K_ONE, None, None),
    ];
    let verified = plugin.decode_and_validate_token(&token, &keys).ok().unwrap();
    assert_eq!(verified.token, token);
}

#[test]
fn every_key_failing_gives_one_entry_per_key() {
    let plugin = JwtAuthPlugin::new_from_config(config());
    let token = sign(SECRET_TWO, None, &payload(&[]));
    let keys = vec![
        key(K_ONE, Some("HS256"), None),
        key(K_ONE, None, None),
        key(K_ONE, Some("RSA1_5"), None),
    ];
    match plugin.decode_and_validate_token(&token, &keys) {
        Err(JwtError::AllProvidersFailedToDecode(errs)) => {
            assert_eq!(errs.len(), 3);
            assert!(matches!(errs[0], JwtError::FailedToDecodeToken(DecodeFailure::Token(_))));
            assert!(matches!(errs[1], JwtError::JwkMissingAlgorithm));
            assert!(matches!(errs[2], JwtError::JwkAlgorithmNotSupported(KeyAlgorithm::RSA1_5)));
        },
        _ => panic!("expected every key to fail"),
    }
    assert!(matches!(
        plugin.decode_and_validate_token(&token, &vec![]),
        Err(JwtError::AllProvidersFailedToDecode(v)) if v.is_empty()
    ));
}

#[test]
fn invalid_signature_is_rejected_with_401() {
    let mut cfg = config();
    cfg.reject_unauthenticated_requests = Some(true);
    let plugin = JwtAuthPlugin::new_from_config(cfg);
    let token = sign(SECRET_TWO, Some("k1"), &payload(&[]));
    let set = KeySet { keys: vec![key(K_ONE, Some("HS256"), Some("k1"))] };
    let mut ctx = RequestContext::new();
    plugin.on_downstream_http_request(vec![Some(set)], &bearer(&token), &mut ctx);
    let sc = ctx.short_circuit.expect("the request is answered at once");
    assert_eq!(sc.status, 401);
    assert_eq!(sc.message, "unauthenticated request");
    assert!(ctx.claims.is_none() && ctx.token.is_none());
}

#[test]
fn malformed_token_is_rejected_with_400() {
    let mut cfg = config();
    cfg.reject_unauthenticated_requests = Some(true);
    let plugin = JwtAuthPlugin::new_from_config(cfg);
    let mut ctx = RequestContext::new();
    plugin.on_downstream_http_request(vec![], &bearer("abc.def.ghi"), &mut ctx);
    assert_eq!(ctx.short_circuit.map(|s| s.status), Some(400));
}

#[test]
fn missing_credential_fails_open_without_forwarding() {
    let mut cfg = config();
    cfg.reject_unauthenticated_requests = Some(false);
    cfg.forward_claims_to_upstream_header = Some("x-claims".to_string());
    cfg.forward_token_to_upstream_header = Some("x-token".to_string());
    let plugin = JwtAuthPlugin::new_from_config(cfg);
    let req = HttpRequest { headers: vec![], query_params: vec![] };
    let mut ctx = RequestContext::new();
    plugin.on_downstream_http_request(vec![], &req, &mut ctx);
    assert!(ctx.short_circuit.is_none() && ctx.claims.is_none() && ctx.token.is_none());
    let mut upstream = HttpRequest { headers: vec![], query_params: vec![] };
    plugin.on_upstream_http_request(&mut ctx, &mut upstream);
    assert!(upstream.headers.is_empty());
    assert!(ctx.short_circuit.is_none());
}

#[test]
fn healthy_provider_suffices_when_another_fails() {
    let mut cfg = config();
    cfg.reject_unauthenticated_requests = Some(true);
    cfg.forward_claims_to_upstream_header = Some("X-Claims".to_string());
    cfg.forward_token_to_upstream_header = Some("X-Token".to_string());
    let plugin = JwtAuthPlugin::new_from_config(cfg);
    let claims = payload(&[]);
    let token = sign(SECRET_ONE, Some("k1"), &claims);
    let set = KeySet { keys: vec![key(K_ONE, Some("HS256"), Some("k1"))] };
    let mut ctx = RequestContext::new();
    plugin.on_downstream_http_request(vec![None, Some(set)], &bearer(&token), &mut ctx);
    assert!(ctx.short_circuit.is_none());
    assert_eq!(ctx.claims.as_ref(), Some(&claims));
    assert_eq!(ctx.token.as_deref(), Some(token.as_str()));

    let mut upstream = HttpRequest { headers: vec![], query_params: vec![] };
    plugin.on_upstream_http_request(&mut ctx, &mut upstream);
    assert!(ctx.short_circuit.is_none());
    assert_eq!(upstream.headers.len(), 2);
    assert_eq!(upstream.headers[0].name, "x-claims");
    assert_eq!(upstream.headers[0].value, claims.to_string().into_bytes());
    assert_eq!(upstream.headers[1].name, "x-token");
    assert_eq!(upstream.headers[1].value, token.into_bytes());
}

#[test]
fn invalid_upstream_header_name_short_circuits() {
    let mut cfg = config();
    cfg.forward_token_to_upstream_header = Some("bad header".to_string());
    let plugin = JwtAuthPlugin::new_from_config(cfg);
    let mut ctx = RequestContext::new();
    ctx.token = Some("tok".to_string());
    let mut upstream = HttpRequest { headers: vec![], query_params: vec![] };
    plugin.on_upstream_http_request(&mut ctx, &mut upstream);
    assert!(upstream.headers.is_empty());
    let sc = ctx.short_circuit.unwrap();
    assert_eq!(sc.status, 400);
    assert_eq!(sc.message, "Failed to parse header name for token");
}

#[test]
fn invalid_upstream_header_value_short_circuits() {
    let mut cfg = config();
    cfg.forward_token_to_upstream_header = Some("x-token".to_string());
    let plugin = JwtAuthPlugin::new_from_config(cfg);
    let mut ctx = RequestContext::new();
    ctx.token = Some("line\nbreak".to_string());
    let mut upstream = HttpRequest { headers: vec![], query_params: vec![] };
    plugin.on_upstream_http_request(&mut ctx, &mut upstream);
    assert!(upstream.headers.is_empty());
    assert_eq!(ctx.short_circuit.unwrap().message, "Failed to convert token to header value");
}

#[test]
fn failed_providers_are_dropped_in_order() {
    let a = KeySet { keys: vec![key(K_ONE, Some("HS256"), Some("a"))] };
    let b = KeySet { keys: vec![key(K_TWO, Some("HS256"), Some("b")), key(K_ONE, None, None)] };
    let sets = available_key_sets(vec![None, Some(a), None, Some(b), None]);
    assert_eq!(sets.len(), 2);
    assert_eq!(sets[0].keys.len(), 1);
    assert_eq!(sets[1].keys.len(), 2);
    assert_eq!(sets[1].keys[0].key_id.as_deref(), Some("b"));
}

#[test]
fn key_reads_id_and_algorithm_from_material() {
    let k = key(K_ONE, Some("ES384"), Some("kid-9"));
    assert_eq!(k.key_id.as_deref(), Some("kid-9"));
    assert_eq!(k.key_algorithm, Some(KeyAlgorithm::ES384));
    let set = KeySet::from_jwks(vec![jwk(K_ONE, None, None), jwk(K_TWO, Some("HS256"), Some("x"))]);
    assert_eq!(set.keys.len(), 2);
    assert_eq!(set.keys[0].key_algorithm, None);
    assert_eq!(set.keys[1].key_id.as_deref(), Some("x"));
}

fn verified(token: &str) -> VerifiedToken {
    VerifiedToken {
        claims: payload(&[]),
        token: token.to_string(),
        issuer: ClaimValue::Missing,
        audience: ClaimValue::Missing,
    }
}

#[test]
fn selection_returns_first_success() {
    let r = select_result(vec![
        Err(JwtError::JwkMissingAlgorithm),
        Ok(verified("second")),
        Ok(verified("third")),
        Err(JwtError::FailedToLocateProvider),
    ]);
    assert_eq!(r.ok().unwrap().token, "second");
}

#[test]
fn selection_aggregates_every_error_in_order() {
    let r = select_result(vec![
        Err(JwtError::JwkMissingAlgorithm),
        Err(JwtError::FailedToDecodeToken(DecodeFailure::InvalidAudience)),
        Err(JwtError::JwkAlgorithmNotSupported(KeyAlgorithm::RSA_OAEP_256)),
    ]);
    match r {
        Err(JwtError::AllProvidersFailedToDecode(errs)) => {
            assert_eq!(errs.len(), 3);
            assert!(matches!(errs[0], JwtError::JwkMissingAlgorithm));
            assert!(matches!(errs[1], JwtError::FailedToDecodeToken(DecodeFailure::InvalidAudience)));
            assert!(matches!(errs[2], JwtError::JwkAlgorithmNotSupported(KeyAlgorithm::RSA_OAEP_256)));
        },
        _ => panic!("expected the aggregate error"),
    }
    assert!(matches!(select_result(vec![]), Err(JwtError::AllProvidersFailedToDecode(v)) if v.is_empty()));
}

#[test]
fn decode_policy_follows_key_and_config() {
    let mut cfg = config();
    cfg.issuers = strings(&["iss-a"]);
    let plugin = JwtAuthPlugin::new_from_config(cfg);
    let p = plugin.decode_policy(&key(K_ONE, Some("PS384"), None)).ok().unwrap();
    assert_eq!(p.algorithm, Algorithm::PS384);
    assert_eq!(p.issuers, strings(&["iss-a"]));
    assert!(matches!(plugin.decode_policy(&key(K_ONE, None, None)), Err(JwtError::JwkMissingAlgorithm)));
    assert!(matches!(
        plugin.decode_policy(&key(K_ONE, Some("RSA1_5"), None)),
        Err(JwtError::JwkAlgorithmNotSupported(KeyAlgorithm::RSA1_5))
    ));
}

#[test]
fn accept_claims_builds_verified_token() {
    let mut cfg = config();
    cfg.issuers = strings(&["iss-a"]);
    let plugin = JwtAuthPlugin::new_from_config(cfg);
    let t = plugin.accept_claims("tok", payload(&[]), text("iss-a"), ClaimValue::Other).ok().unwrap();
    assert_eq!(t.token, "tok");
    assert_eq!(t.claims, payload(&[]));
    assert!(matches!(
        plugin.accept_claims("tok", payload(&[]), text("iss-b"), ClaimValue::Other),
        Err(JwtError::FailedToDecodeToken(DecodeFailure::InvalidIssuer))
    ));
}

#[test]
fn audience_is_ignored_without_allow_list() {
    let plugin = JwtAuthPlugin::new_from_config(config());
    let token = sign(SECRET_ONE, None, &payload(&[("aud", string_array(&["anyone"]))]));
    let keys = vec![key(K_ONE, Some("HS256"), None)];
    assert!(plugin.decode_and_validate_token(&token, &keys).is_ok());
}

#[test]
fn empty_audience_array_is_accepted_under_allow_list() {
    let mut cfg = config();
    cfg.audiences = strings(&["aud-a"]);
    let plugin = JwtAuthPlugin::new_from_config(cfg);
    let token = sign(SECRET_ONE, None, &payload(&[("aud", string_array(&[]))]));
    let keys = vec![key(K_ONE, Some("HS256"), None)];
    assert!(plugin.decode_and_validate_token(&token, &keys).is_ok());
}

#[test]
fn claims_and_token_headers_are_both_appended() {
    let mut cfg = config();
    cfg.forward_claims_to_upstream_header = Some("X-Claims".to_string());
    cfg.forward_token_to_upstream_header = Some("X-Token".to_string());
    let plugin = JwtAuthPlugin::new_from_config(cfg);
    let mut ctx = RequestContext::new();
    ctx.claims = Some(payload(&[]));
    ctx.token = Some("tok".to_string());
    let mut upstream = HttpRequest {
        headers: vec![HeaderEntry { name: "x-claims".to_string(), value: b"earlier".to_vec() }],
        query_params: vec![],
    };
    plugin.on_upstream_http_request(&mut ctx, &mut upstream);
    assert!(ctx.short_circuit.is_none());
    assert_eq!(upstream.headers.len(), 3);
    assert_eq!(upstream.headers[0].value, b"earlier".to_vec());
    assert_eq!(upstream.headers[1].name, "x-claims");
    assert_eq!(upstream.headers[2].name, "x-token");
    assert_eq!(upstream.headers[2].value, b"tok".to_vec());
}

#[test]
fn invalid_claims_header_name_stops_before_token() {
    let mut cfg = config();
    cfg.forward_claims_to_upstream_header = Some("bad name".to_string());
    cfg.forward_token_to_upstream_header = Some("x-token".to_string());
    let plugin = JwtAuthPlugin::new_from_config(cfg);
    let mut ctx = RequestContext::new();
    ctx.claims = Some(payload(&[]));
    ctx.token = Some("tok".to_string());
    let mut upstream = HttpRequest { headers: vec![], query_params: vec![] };
    plugin.on_upstream_http_request(&mut ctx, &mut upstream);
    assert!(upstream.headers.is_empty());
    let sc = ctx.short_circuit.unwrap();
    assert_eq!(sc.status, 400);
    assert_eq!(sc.message, "Failed to parse header name for claims");
}

#[test]
fn append_header_appends_or_refuses() {
    let mut ctx = RequestContext::new();
    let mut upstream = HttpRequest { headers: vec![], query_params: vec![] };
    let stopped = JwtAuthPlugin::append_header(
        &"X-Claims".to_string(), &"{\"sub\":\"u\"}".to_string(), "bad name", "bad value", &mut ctx, &mut upstream,
    );
    assert!(!stopped);
    assert_eq!(upstream.headers[0].name, "x-claims");
    assert_eq!(upstream.headers[0].value, b"{\"sub\":\"u\"}".to_vec());
    assert!(ctx.short_circuit.is_none());

    let stopped = JwtAuthPlugin::append_header(
        &"X-Claims".to_string(), &"a\nb".to_string(), "bad name", "bad value", &mut ctx, &mut upstream,
    );
    assert!(stopped);
    assert_eq!(upstream.headers.len(), 1);
    let sc = ctx.short_circuit.take().unwrap();
    assert_eq!((sc.status, sc.message.as_str()), (400, "bad value"));

    let stopped = JwtAuthPlugin::append_header(
        &"bad name".to_string(), &"ok".to_string(), "bad name", "bad value", &mut ctx, &mut upstream,
    );
    assert!(stopped);
    assert_eq!(upstream.headers.len(), 1);
    assert_eq!(ctx.short_circuit.unwrap().message, "bad name");
}
