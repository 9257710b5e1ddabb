//! Credential lookup: the ordered rules that find the raw token in a request.
use vstd::prelude::*;
use crate::request::{header_value, query_value_from, HttpRequest};
use crate::text::{
    all_visible_ascii, ascii_chars, ascii_text, is_visible_ascii, is_visible_ascii_text,
    split_on, split_semicolons, strip_prefix, trim, trimmed,
};

verus! {

/// Where a credential may be found.
pub enum LookupLocation {
    /// A header; with a prefix, the header must start with it and the token
    /// is what follows, trimmed.
    Header { name: String, prefix: Option<String> },
    /// A query parameter, taken as it stands.
    QueryParam { name: String },
    /// A cookie of the `cookie` header, matched by its exact name.
    Cookie { name: String },
}

#[derive(Clone, Copy, Debug, PartialEq, Eq, Structural)]
pub enum LookupError {
    /// No rule produced a value.
    LookupFailed,
    /// A header was present but did not start with the configured prefix.
    MismatchedPrefix,
    /// A header was present but its value could not be read as text.
    FailedToStringifyHeader,
}

/// The name and value that the `cookie` crate reads from one cookie text.
pub uninterp spec fn parsed_cookie(s: Seq<char>) -> Option<(Seq<char>, Seq<char>)>;

/// Relies on `cookie::Cookie::parse_encoded` to parse one percent-encoded
/// cookie, and on `Cookie::name_value_trimmed` to read its name and value.
#[verifier::external_body]
fn parse_cookie(s: &str) -> (r: Option<(String, String)>)
    ensures
        r is None <==> parsed_cookie(s@) is None,
        r matches Some(p) ==> parsed_cookie(s@) == Some((p.0@, p.1@)),
{
    match cookie::Cookie::parse_encoded(s) {
        Ok(c) => {
            let (n, v) = c.name_value_trimmed();
            Some((n.to_string(), v.to_string()))
        },
        Err(_) => None,
    }
}

pub open spec fn cookie_view(p: Option<(String, String)>) -> Option<(Seq<char>, Seq<char>)> {
    match p {
        Some(p) => Some((p.0@, p.1@)),
        None => None,
    }
}

/// The value of the first parsed cookie at or after `i` called `name`;
/// texts that did not parse are passed over.
pub open spec fn cookie_from(cs: Seq<Option<(Seq<char>, Seq<char>)>>, name: Seq<char>, i: int) -> Option<Seq<char>>
    decreases cs.len() - i,
{
    if i < 0 || i >= cs.len() {
        None
    } else {
        match cs[i] {
            Some(p) => if p.0 == name {
                Some(p.1)
            } else {
                cookie_from(cs, name, i + 1)
            },
            None => cookie_from(cs, name, i + 1),
        }
    }
}

/// The cookies of a `cookie` header's text, one per `;`-separated piece.
pub open spec fn cookies_of(text: Seq<char>) -> Seq<Option<(Seq<char>, Seq<char>)>> {
    split_on(text, ';').map_values(|s: Seq<char>| parsed_cookie(s))
}

/// What one rule finds: `None` when the value is absent, so the next rule is
/// tried; otherwise the token or the error that ends the lookup.
pub open spec fn rule_outcome(rule: LookupLocation, req: HttpRequest) -> Option<Result<Seq<char>, LookupError>> {
    match rule {
        LookupLocation::Header { name, prefix } => match header_value(req.headers@, name@) {
            None => None,
            Some(bs) => if !all_visible_ascii(bs) {
                Some(Err(LookupError::FailedToStringifyHeader))
            } else {
                match prefix {
                    None => Some(Ok(ascii_chars(bs))),
                    Some(p) => if p@.is_prefix_of(ascii_chars(bs)) {
                        Some(Ok(trimmed(ascii_chars(bs).skip(p@.len() as int))))
                    } else {
                        Some(Err(LookupError::MismatchedPrefix))
                    },
                }
            },
        },
        LookupLocation::QueryParam { name } => match query_value_from(req.query_params@, name@, 0) {
            Some(v) => Some(Ok(v)),
            None => None,
        },
        LookupLocation::Cookie { name } => match header_value(req.headers@, "cookie"@) {
            Some(bs) => if all_visible_ascii(bs) {
                match cookie_from(cookies_of(ascii_chars(bs)), name@, 0) {
                    Some(v) => Some(Ok(v)),
                    None => None,
                }
            } else {
                None
            },
            None => None,
        },
    }
}

/// The result of trying the rules from the `k`-th on, in order.
pub open spec fn lookup_from(rules: Seq<LookupLocation>, req: HttpRequest, k: int) -> Result<Seq<char>, LookupError>
    decreases rules.len() - k,
{
    if k < 0 || k >= rules.len() {
        Err(LookupError::LookupFailed)
    } else {
        match rule_outcome(rules[k], req) {
            None => lookup_from(rules, req, k + 1),
            Some(r) => r,
        }
    }
}

pub open spec fn text_result(r: Result<String, LookupError>) -> Result<Seq<char>, LookupError> {
    match r {
        Ok(s) => Ok(s@),
        Err(e) => Err(e),
    }
}

/// The value of the first cookie called `name` among parsed cookies; `None`
/// stands for a cookie text that did not parse.
pub fn find_cookie(cookies: &Vec<Option<(String, String)>>, name: &String) -> (r: Option<String>)
    ensures
        r matches Some(v) ==> cookie_from(cookies@.map_values(|p| cookie_view(p)), name@, 0) == Some(v@),
        r is None ==> cookie_from(cookies@.map_values(|p| cookie_view(p)), name@, 0) is None,
{
    let ghost cs = cookies@.map_values(|p| cookie_view(p));
    let mut i: usize = 0;
    while i < cookies.len()
        invariant
            i <= cookies@.len(),
            cs == cookies@.map_values(|p| cookie_view(p)),
            cookie_from(cs, name@, 0) == cookie_from(cs, name@, i as int),
        decreases cookies@.len() - i,
    {
        match &cookies[i] {
            Some(p) => {
                if p.0 == *name {
                    return Some(p.1.clone());
                }
            },
            None => {},
        }
        i = i + 1;
    }
    None
}

proof fn lemma_visible_is_ascii(bs: Seq<u8>)
    requires
        all_visible_ascii(bs),
    ensures
        forall|i: int| 0 <= i < bs.len() ==> #[trigger] bs[i] < 128,
{
    assert forall|i: int| 0 <= i < bs.len() implies #[trigger] bs[i] < 128 by {
        assert(is_visible_ascii(bs[i]));
    }
}

/// Reads a header value as text, or `None` where it holds other bytes.
fn header_text(bs: &Vec<u8>) -> (r: Option<String>)
    ensures
        r is Some <==> all_visible_ascii(bs@),
        r matches Some(t) ==> t@ == ascii_chars(bs@),
{
    if is_visible_ascii_text(bs) {
        proof { lemma_visible_is_ascii(bs@); }
        Some(ascii_text(bs))
    } else {
        None
    }
}

/// Parses each `;`-separated piece of a `cookie` header's text.
fn parse_cookies(text: &String) -> (r: Vec<Option<(String, String)>>)
    ensures
        r@.map_values(|p| cookie_view(p)) == cookies_of(text@),
{
    let pieces = split_semicolons(text.as_str());
    let ghost segs = split_on(text@, ';');
    let mut out: Vec<Option<(String, String)>> = Vec::new();
    let mut i: usize = 0;
    while i < pieces.len()
        invariant
            i <= pieces@.len(),
            pieces@.len() == segs.len(),
            segs == split_on(text@, ';'),
            forall|j: int| 0 <= j < pieces@.len() ==> #[trigger] pieces@[j]@ == segs[j],
            out@.map_values(|p| cookie_view(p)) =~= segs.take(i as int).map_values(|s: Seq<char>| parsed_cookie(s)),
        decreases pieces@.len() - i,
    {
        let c = parse_cookie(pieces[i].as_str());
        let ghost before = out@;
        out.push(c);
        proof {
            assert(out@ =~= before.push(c));
            assert(cookie_view(c) == parsed_cookie(segs[i as int]));
            assert(out@.map_values(|p| cookie_view(p)) =~= before.map_values(|p| cookie_view(p)).push(cookie_view(c)));
            assert(pieces@[i as int]@ == segs[i as int]);
            assert(segs.take(i as int + 1) =~= segs.take(i as int).push(segs[i as int]));
            assert(out@.map_values(|p| cookie_view(p)) =~= segs.take(i as int + 1).map_values(|s: Seq<char>| parsed_cookie(s)));
        }
        i = i + 1;
    }
    assert(segs.take(i as int) =~= segs);
    out
}

/// Applies one rule to the request.
pub fn rule_value(rule: &LookupLocation, req: &HttpRequest) -> (r: Option<Result<String, LookupError>>)
    ensures
        r is None <==> rule_outcome(*rule, *req) is None,
        r matches Some(x) ==> rule_outcome(*rule, *req) == Some(text_result(x)),
{
    match rule {
        LookupLocation::Header { name, prefix } => {
            let idx = req.find_header(name.as_str());
            match idx {
                None => None,
                Some(i) => {
                    let bs = &req.headers[i].value;
                    assert(header_value(req.headers@, name@) == Some(bs@));
                    match header_text(bs) {
                        None => Some(Err(LookupError::FailedToStringifyHeader)),
                        Some(text) => match prefix {
                            None => Some(Ok(text)),
                            Some(p) => match strip_prefix(text.as_str(), p.as_str()) {
                                Some(rest) => {
                                    let t = trim(rest.as_str());
                                    assert(t@ == trimmed(ascii_chars(bs@).skip(p@.len() as int)));
                                    Some(Ok(t))
                                },
                                None => Some(Err(LookupError::MismatchedPrefix)),
                            },
                        },
                    }
                },
            }
        },
        LookupLocation::QueryParam { name } => match req.query_param(name) {
            Some(v) => Some(Ok(v)),
            None => None,
        },
        LookupLocation::Cookie { name } => {
            let idx = req.find_header("cookie");
            match idx {
                None => None,
                Some(i) => match header_text(&req.headers[i].value) {
                    None => None,
                    Some(text) => {
                        assert(header_value(req.headers@, "cookie"@) == Some(req.headers@[i as int].value@));
                        let cookies = parse_cookies(&text);
                        assert(cookies@.map_values(|p| cookie_view(p)) == cookies_of(ascii_chars(req.headers@[i as int].value@)));
                        match find_cookie(&cookies, name) {
                            Some(v) => Some(Ok(v)),
                            None => None,
                        }
                    },
                },
            }
        },
    }
}

/// Tries the rules in order and returns the first value found.
pub fn lookup_token(rules: &Vec<LookupLocation>, req: &HttpRequest) -> (r: Result<String, LookupError>)
    ensures
        text_result(r) == lookup_from(rules@, *req, 0),
{
    let mut k: usize = 0;
    while k < rules.len()
        invariant
            k <= rules@.len(),
            lookup_from(rules@, *req, 0) == lookup_from(rules@, *req, k as int),
        decreases rules@.len() - k,
    {
        match rule_value(&rules[k], req) {
            Some(r) => {
                return r;
            },
            None => {},
        }
        k = k + 1;
    }
    Err(LookupError::LookupFailed)
}

/// A rule that finds nothing passes the lookup on to the next rule.
pub proof fn lemma_absent_rule_falls_through(rules: Seq<LookupLocation>, req: HttpRequest, i: int)
    requires
        0 <= i < rules.len(),
        rule_outcome(rules[i], req) is None,
    ensures
        lookup_from(rules, req, i) == lookup_from(rules, req, i + 1),
{
}

proof fn lemma_first_rule_from(rules: Seq<LookupLocation>, req: HttpRequest, k: int, i: int)
    requires
        0 <= k <= i < rules.len(),
        forall|j: int| k <= j < i ==> rule_outcome(#[trigger] rules[j], req) is None,
        rule_outcome(rules[i], req) is Some,
    ensures
        lookup_from(rules, req, k) == rule_outcome(rules[i], req)->0,
    decreases i - k,
{
    if k < i {
        lemma_first_rule_from(rules, req, k + 1, i);
    }
}

/// Whatever the order of the rules, the lookup gives what the first rule
/// that finds something gives, every earlier rule having found nothing.
pub proof fn lemma_first_matching_rule_wins(rules: Seq<LookupLocation>, req: HttpRequest, i: int)
    requires
        0 <= i < rules.len(),
        forall|j: int| 0 <= j < i ==> rule_outcome(#[trigger] rules[j], req) is None,
        rule_outcome(rules[i], req) is Some,
    ensures
        lookup_from(rules, req, 0) == rule_outcome(rules[i], req)->0,
{
    lemma_first_rule_from(rules, req, 0, i);
}

/// A header that is present but lacks the configured prefix ends the lookup
/// with a prefix mismatch, whatever the later rules would find, and that
/// error differs from the one for a credential found nowhere.
pub proof fn lemma_prefix_mismatch_stops_lookup(rules: Seq<LookupLocation>, req: HttpRequest, i: int)
    requires
        0 <= i < rules.len(),
        forall|j: int| 0 <= j < i ==> rule_outcome(#[trigger] rules[j], req) is None,
        rules[i] matches LookupLocation::Header { name, prefix: Some(p) } && header_value(req.headers@, name@) matches Some(bs)
            && all_visible_ascii(bs) && !p@.is_prefix_of(ascii_chars(bs)),
    ensures
        lookup_from(rules, req, 0) == Err::<Seq<char>, LookupError>(LookupError::MismatchedPrefix),
        lookup_from(rules, req, 0) != Err::<Seq<char>, LookupError>(LookupError::LookupFailed),
{
    lemma_first_matching_rule_wins(rules, req, i);
}

} // verus!
