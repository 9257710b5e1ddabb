use jwt_auth::lookup::{find_cookie, lookup_token, LookupError, LookupLocation};
use jwt_auth::request::{HeaderEntry, HttpRequest};

fn request(headers: &[(&str, &[u8])], query: &[(&str, &str)]) -> HttpRequest {
    HttpRequest {
        headers: headers
            .iter()
            .map(|(n, v)| HeaderEntry { name: n.to_string(), value: v.to_vec() })
            .collect(),
        query_params: query.iter().map(|(k, v)| (k.to_string(), v.to_string())).collect(),
    }
}

fn bearer_header() -> LookupLocation {
    LookupLocation::Header { name: "Authorization".to_string(), prefix: Some("Bearer".to_string()) }
}

#[test]
fn header_with_prefix_yields_trimmed_token() {
    let req = request(&[("authorization", b"Bearer   abc.def.ghi  ")], &[]);
    assert_eq!(lookup_token(&vec![bearer_header()], &req), Ok("abc.def.ghi".to_string()));
}

#[test]
fn header_without_prefix_is_taken_verbatim() {
    let rules = vec![LookupLocation::Header { name: "x-token".to_string(), prefix: None }];
    let req = request(&[("X-Token", b" raw value ")], &[]);
    assert_eq!(lookup_token(&rules, &req), Ok(" raw value ".to_string()));
}

#[test]
fn header_names_match_without_regard_to_case() {
    let req = request(&[("AUTHORIZATION", b"Bearer t")], &[]);
    assert_eq!(lookup_token(&vec![bearer_header()], &req), Ok("t".to_string()));
}

#[test]
fn prefix_mismatch_does_not_fall_through() {
    let rules = vec![bearer_header(), LookupLocation::QueryParam { name: "token".to_string() }];
    let req = request(&[("authorization", b"Basic abc")], &[("token", "from-query")]);
    assert_eq!(lookup_token(&rules, &req), Err(LookupError::MismatchedPrefix));
}

#[test]
fn absent_header_falls_through_to_query() {
    let rules = vec![bearer_header(), LookupLocation::QueryParam { name: "token".to_string() }];
    let req = request(&[], &[("other", "x"), ("token", "from-query")]);
    assert_eq!(lookup_token(&rules, &req), Ok("from-query".to_string()));
}

#[test]
fn first_matching_rule_wins_in_any_order() {
    let q = LookupLocation::QueryParam { name: "token".to_string() };
    let c = LookupLocation::Cookie { name: "jwt".to_string() };
    let req = request(&[("cookie", b"jwt=from-cookie")], &[("token", "from-query")]);
    assert_eq!(lookup_token(&vec![q, c], &req), Ok("from-query".to_string()));
    let q = LookupLocation::QueryParam { name: "token".to_string() };
    let c = LookupLocation::Cookie { name: "jwt".to_string() };
    assert_eq!(lookup_token(&vec![c, q], &req), Ok("from-cookie".to_string()));
}

#[test]
fn cookie_found_among_others() {
    let rules = vec![LookupLocation::Cookie { name: "jwt".to_string() }];
    let req = request(&[("Cookie", b"a=1; jwt=xyz; b=2")], &[]);
    assert_eq!(lookup_token(&rules, &req), Ok("xyz".to_string()));
}

#[test]
fn unparsable_cookie_is_skipped() {
    let rules = vec![LookupLocation::Cookie { name: "jwt".to_string() }];
    let req = request(&[("cookie", b"=novalue; jwt=tok")], &[]);
    assert_eq!(lookup_token(&rules, &req), Ok("tok".to_string()));
}

#[test]
fn cookie_value_is_percent_decoded() {
    let rules = vec![LookupLocation::Cookie { name: "jwt".to_string() }];
    let req = request(&[("cookie", b"jwt=a%20b")], &[]);
    assert_eq!(lookup_token(&rules, &req), Ok("a b".to_string()));
}

#[test]
fn no_credential_anywhere_is_lookup_failed() {
    let rules = vec![
        bearer_header(),
        LookupLocation::QueryParam { name: "token".to_string() },
        LookupLocation::Cookie { name: "jwt".to_string() },
    ];
    let req = request(&[("cookie", b"other=1")], &[("x", "y")]);
    assert_eq!(lookup_token(&rules, &req), Err(LookupError::LookupFailed));
    assert_eq!(lookup_token(&vec![], &req), Err(LookupError::LookupFailed));
}

#[test]
fn non_text_header_fails_to_stringify() {
    let req = request(&[("authorization", b"Bearer \x01abc")], &[]);
    assert_eq!(lookup_token(&vec![bearer_header()], &req), Err(LookupError::FailedToStringifyHeader));
}

#[test]
fn non_text_cookie_header_is_ignored() {
    let rules = vec![
        LookupLocation::Cookie { name: "jwt".to_string() },
        LookupLocation::QueryParam { name: "token".to_string() },
    ];
    let req = request(&[("cookie", b"jwt=\x7f")], &[("token", "q")]);
    assert_eq!(lookup_token(&rules, &req), Ok("q".to_string()));
}

#[test]
fn find_cookie_skips_unparsed_entries() {
    let cookies = vec![None, Some(("a".to_string(), "1".to_string())), Some(("jwt".to_string(), "v".to_string()))];
    assert_eq!(find_cookie(&cookies, &"jwt".to_string()), Some("v".to_string()));
    assert_eq!(find_cookie(&cookies, &"zzz".to_string()), None);
}

#[test]
fn prefix_remainder_is_trimmed_of_tabs_and_spaces() {
    let req = request(&[("authorization", b"Bearer\t abc.def.ghi \t")], &[]);
    assert_eq!(lookup_token(&vec![bearer_header()], &req), Ok("abc.def.ghi".to_string()));
}
