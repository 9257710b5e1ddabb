//! The authentication engine and its two pipeline hooks.
use vstd::prelude::*;
use vstd::utf8::encode_utf8;
use crate::error::{status_of, DecodeFailure, JwtError};
use crate::keys::{
    algorithm_of_key, decode_header, decoded_header, find_matching_key_set, matching_key_set,
    signing_algorithm, Key, KeySet,
};
use crate::lookup::{lookup_from, lookup_token, text_result, LookupError, LookupLocation};
use crate::request::{HeaderEntry, HttpRequest};
use crate::token::{
    audience_accepted, claim_of, copy_texts, decode_claims, decoding_key_from_jwk, issuer_accepted,
    validate_claims, validation_for, ClaimValue, DecodePolicy,
};

verus! {

pub struct JwtAuthPluginConfig {
    /// Where to look for the token, in order.
    pub lookup_locations: Vec<LookupLocation>,
    /// The accepted issuers; with none, any issuer is accepted.
    pub issuers: Option<Vec<String>>,
    /// The accepted audiences; with none, any audience is accepted.
    pub audiences: Option<Vec<String>>,
    /// The upstream header that receives the verified claims.
    pub forward_claims_to_upstream_header: Option<String>,
    /// The upstream header that receives the verified token.
    pub forward_token_to_upstream_header: Option<String>,
    /// Whether a request that fails authentication is answered at once.
    pub reject_unauthenticated_requests: Option<bool>,
}

pub struct JwtAuthPlugin {
    pub config: JwtAuthPluginConfig,
}

/// A token whose signature and claims passed every check.
pub struct VerifiedToken {
    /// The full claim set.
    pub claims: serde_json::Value,
    /// The token as it came in.
    pub token: String,
    /// The `iss` claim as the issuer policy read it.
    pub issuer: ClaimValue,
    /// The `aud` claim as the audience policy read it.
    pub audience: ClaimValue,
}

/// The answer given in place of forwarding the request.
pub struct ShortCircuit {
    pub status: u16,
    pub message: String,
}

/// The state that the hooks of one request share.
pub struct RequestContext {
    pub claims: Option<serde_json::Value>,
    pub token: Option<String>,
    pub short_circuit: Option<ShortCircuit>,
}

impl RequestContext {
    pub fn new() -> (r: RequestContext)
        ensures
            r.claims is None,
            r.token is None,
            r.short_circuit is None,
    {
        RequestContext { claims: None, token: None, short_circuit: None }
    }
}

/// `t` verified the token `token` under the configured claim policy.
pub open spec fn verified_for(config: JwtAuthPluginConfig, token: Seq<char>, t: VerifiedToken) -> bool {
    t.token@ == token && issuer_accepted(config.issuers, t.issuer)
        && audience_accepted(config.audiences, t.audience)
}

/// The algorithm that decoding with `key` checks, or the error that the key
/// gives before any decoding: no declared algorithm, or one that names no
/// signing algorithm.
pub open spec fn policy_for(key: Key) -> Result<jsonwebtoken::Algorithm, JwtError> {
    match key.key_algorithm {
        None => Err(JwtError::JwkMissingAlgorithm),
        Some(k) => match signing_algorithm(k) {
            None => Err(JwtError::JwkAlgorithmNotSupported(k)),
            Some(a) => Ok(a),
        },
    }
}

pub open spec fn texts_of(o: Option<Vec<String>>) -> Option<Seq<String>> {
    match o {
        Some(v) => Some(v@),
        None => None,
    }
}

/// What trying one key can give. A key without a usable algorithm fails with
/// that error (or earlier, where its material gives no verification key).
/// Otherwise the signature check, which also depends on the time, decides:
/// the result is a token verified under the claim policy, a key-material
/// error, or a decoding failure; a claim failure only under a configured
/// allow-list for that claim.
pub open spec fn attempt(config: JwtAuthPluginConfig, token: Seq<char>, key: Key, r: Result<VerifiedToken, JwtError>) -> bool {
    match policy_for(key) {
        Err(e) => r matches Err(x) && (x is InvalidDecodingKey || x == e),
        Ok(_) => match r {
            Ok(t) => verified_for(config, token, t),
            Err(x) => match x {
                JwtError::InvalidDecodingKey(_) => true,
                JwtError::FailedToDecodeToken(f) => match f {
                    DecodeFailure::Token(_) => true,
                    DecodeFailure::InvalidIssuer => config.issuers is Some,
                    DecodeFailure::InvalidAudience => config.audiences is Some,
                },
                _ => false,
            },
        },
    }
}

/// The index of the first success at or after `i`.
pub open spec fn first_ok_from(rs: Seq<Result<VerifiedToken, JwtError>>, i: int) -> Option<int>
    decreases rs.len() - i,
{
    if i < 0 || i >= rs.len() {
        None
    } else if rs[i] is Ok {
        Some(i)
    } else {
        first_ok_from(rs, i + 1)
    }
}

/// `r` is the first success among the per-key results, or, where there is
/// none, the aggregate of every key's error in the keys' order.
pub open spec fn is_selection(rs: Seq<Result<VerifiedToken, JwtError>>, r: Result<VerifiedToken, JwtError>) -> bool {
    match first_ok_from(rs, 0) {
        Some(i) => r == rs[i],
        None => r matches Err(JwtError::AllProvidersFailedToDecode(errs)) && errs@.len() == rs.len()
            && forall|j: int| 0 <= j < rs.len() ==> rs[j] == Err::<VerifiedToken, JwtError>(#[trigger] errs@[j]),
    }
}

/// `rs` are the results of trying the keys in order until one succeeds.
pub open spec fn attempts(config: JwtAuthPluginConfig, token: Seq<char>, keys: Seq<Key>, rs: Seq<Result<VerifiedToken, JwtError>>) -> bool {
    &&& rs.len() <= keys.len()
    &&& forall|j: int| 0 <= j < rs.len() ==> attempt(config, token, keys[j], #[trigger] rs[j])
    &&& forall|j: int| 0 <= j < rs.len() - 1 ==> (#[trigger] rs[j]) is Err
    &&& rs.len() < keys.len() ==> rs.len() > 0 && rs.last() is Ok
}

/// The result of verifying `token` against `keys`: the selection over the
/// results of trying them in order.
pub open spec fn tried_keys(config: JwtAuthPluginConfig, token: Seq<char>, keys: Seq<Key>, r: Result<VerifiedToken, JwtError>) -> bool {
    exists|rs: Seq<Result<VerifiedToken, JwtError>>| #[trigger] attempts(config, token, keys, rs) && is_selection(rs, r)
}

/// What authenticating `req` against `sets` gives: lookup failure, malformed
/// header and matching failure exactly; after those, the result of trying
/// the matched set's keys.
pub open spec fn authenticated(config: JwtAuthPluginConfig, sets: Seq<KeySet>, req: HttpRequest, r: Result<VerifiedToken, JwtError>) -> bool {
    match lookup_from(config.lookup_locations@, req, 0) {
        Err(le) => r == Err::<VerifiedToken, JwtError>(JwtError::LookupFailed(le)),
        Ok(tok) => match decoded_header(tok) {
            None => r matches Err(e) && e is InvalidJwtHeader,
            Some(h) => match matching_key_set(h.0, h.1, sets) {
                Err(e) => r == Err::<VerifiedToken, JwtError>(e),
                Ok(i) => tried_keys(config, tok, sets[i].keys@, r),
            },
        },
    }
}

proof fn lemma_no_success_from(rs: Seq<Result<VerifiedToken, JwtError>>, i: int)
    requires
        0 <= i <= rs.len(),
        forall|j: int| i <= j < rs.len() ==> (#[trigger] rs[j]) is Err,
    ensures
        first_ok_from(rs, i) is None,
    decreases rs.len() - i,
{
    if i < rs.len() {
        lemma_no_success_from(rs, i + 1);
    }
}

/// Where every key tried fails, all the keys were tried, and the result is
/// the aggregate error with one entry per key, each that key's own error,
/// in the keys' order.
pub proof fn lemma_all_keys_fail(
    config: JwtAuthPluginConfig,
    token: Seq<char>,
    keys: Seq<Key>,
    rs: Seq<Result<VerifiedToken, JwtError>>,
    r: Result<VerifiedToken, JwtError>,
)
    requires
        attempts(config, token, keys, rs),
        is_selection(rs, r),
        forall|j: int| 0 <= j < rs.len() ==> (#[trigger] rs[j]) is Err,
    ensures
        rs.len() == keys.len(),
        r matches Err(JwtError::AllProvidersFailedToDecode(errs)) && errs@.len() == keys.len()
            && forall|j: int| 0 <= j < keys.len() ==> rs[j] == Err::<VerifiedToken, JwtError>(#[trigger] errs@[j]),
{
    lemma_no_success_from(rs, 0);
    if rs.len() < keys.len() {
        assert(rs[rs.len() - 1] is Err);
    }
}

/// The first key that accepts the token decides the result, whatever the
/// later keys would give.
pub proof fn lemma_first_success_wins(rs: Seq<Result<VerifiedToken, JwtError>>, r: Result<VerifiedToken, JwtError>, i: int)
    requires
        is_selection(rs, r),
        0 <= i < rs.len(),
        rs[i] is Ok,
        forall|j: int| 0 <= j < i ==> (#[trigger] rs[j]) is Err,
    ensures
        r == rs[i],
{
    lemma_first_from(rs, 0, i);
}

proof fn lemma_first_from(rs: Seq<Result<VerifiedToken, JwtError>>, k: int, i: int)
    requires
        0 <= k <= i < rs.len(),
        rs[i] is Ok,
        forall|j: int| k <= j < i ==> (#[trigger] rs[j]) is Err,
    ensures
        first_ok_from(rs, k) == Some(i),
    decreases i - k,
{
    if k < i {
        lemma_first_from(rs, k + 1, i);
    }
}

/// The first success among per-key results, or, where there is none, the
/// aggregate of every error in order.
pub fn select_result(results: Vec<Result<VerifiedToken, JwtError>>) -> (r: Result<VerifiedToken, JwtError>)
    ensures
        is_selection(results@, r),
{
    let ghost all = results@;
    let n: usize = results.len();
    let mut rest = results;
    let mut errs: Vec<JwtError> = Vec::new();
    while rest.len() > 0
        invariant
            errs@.len() + rest@.len() == all.len(),
            all.len() == n,
            all == results@,
            rest@ == all.skip(errs@.len() as int),
            forall|j: int| 0 <= j < errs@.len() ==> all[j] == Err::<VerifiedToken, JwtError>(#[trigger] errs@[j]),
            first_ok_from(all, 0) == first_ok_from(all, errs@.len() as int),
        decreases rest@.len(),
    {
        let x = rest.remove(0);
        assert(x == all[errs@.len() as int]);
        match x {
            Ok(t) => {
                assert(first_ok_from(all, errs@.len() as int) == Some(errs@.len() as int));
                return Ok(t);
            },
            Err(e) => {
                errs.push(e);
            },
        }
    }
    Err(JwtError::AllProvidersFailedToDecode(errs))
}

/// The key sets that were fetched, in order, without the providers that failed.
pub open spec fn present_key_sets(fs: Seq<Option<KeySet>>) -> Seq<KeySet>
    decreases fs.len(),
{
    if fs.len() == 0 {
        Seq::<KeySet>::empty()
    } else {
        let rest = present_key_sets(fs.drop_last());
        match fs.last() {
            Some(s) => rest.push(s),
            None => rest,
        }
    }
}

/// Drops the providers that failed to produce a key set, keeping the order
/// of the others.
pub fn available_key_sets(fetched: Vec<Option<KeySet>>) -> (r: Vec<KeySet>)
    ensures
        r@ == present_key_sets(fetched@),
{
    let ghost all = fetched@;
    let n: usize = fetched.len();
    let mut rest = fetched;
    let mut out: Vec<KeySet> = Vec::new();
    let mut i: usize = 0;
    while rest.len() > 0
        invariant
            i + rest@.len() == all.len(),
            all.len() == n,
            rest@ == all.skip(i as int),
            out@ == present_key_sets(all.take(i as int)),
        decreases rest@.len(),
    {
        let f = rest.remove(0);
        proof {
            assert(all.take(i as int + 1).drop_last() =~= all.take(i as int));
            assert(all.take(i as int + 1).last() == all[i as int]);
        }
        match f {
            Some(s) => out.push(s),
            None => {},
        }
        i = i + 1;
    }
    assert(all.take(i as int) =~= all);
    out
}

impl JwtAuthPlugin {
    pub fn new_from_config(config: JwtAuthPluginConfig) -> (r: Self)
        ensures
            r.config == config,
    {
        JwtAuthPlugin { config }
    }

    /// Finds the raw token in the request with the configured rules.
    pub fn lookup(&self, req: &HttpRequest) -> (r: Result<String, LookupError>)
        ensures
            text_result(r) == lookup_from(self.config.lookup_locations@, *req, 0),
    {
        lookup_token(&self.config.lookup_locations, req)
    }

    /// What decoding with `key` checks besides the signature. The token
    /// library's own audience check stays off: the configured audience policy
    /// is applied by `accept_claims`, which skips it where no list is set.
    pub fn decode_policy(&self, key: &Key) -> (r: Result<DecodePolicy, JwtError>)
        ensures
            r is Ok <==> policy_for(*key) is Ok,
            r matches Ok(p) ==> policy_for(*key) == Ok::<jsonwebtoken::Algorithm, JwtError>(p.algorithm)
                && texts_of(p.issuers) == texts_of(self.config.issuers) && !p.library_checks_audience,
            r matches Err(e) ==> policy_for(*key) == Err::<jsonwebtoken::Algorithm, JwtError>(e),
    {
        let k = match key.key_algorithm {
            Some(k) => k,
            None => {
                return Err(JwtError::JwkMissingAlgorithm);
            },
        };
        let algorithm = match algorithm_of_key(k) {
            Some(a) => a,
            None => {
                return Err(JwtError::JwkAlgorithmNotSupported(k));
            },
        };
        let issuers = match &self.config.issuers {
            Some(list) => Some(copy_texts(list)),
            None => None,
        };
        Ok(DecodePolicy { algorithm, issuers, library_checks_audience: false })
    }

    /// Applies the claim policy to the claims of a token whose signature has
    /// been checked, and builds the verified token.
    pub fn accept_claims(&self, token: &str, claims: serde_json::Value, issuer: ClaimValue, audience: ClaimValue) -> (r: Result<VerifiedToken, JwtError>)
        ensures
            r is Ok <==> issuer_accepted(self.config.issuers, issuer) && audience_accepted(self.config.audiences, audience),
            r matches Ok(t) ==> t.token@ == token@ && t.claims == claims && t.issuer == issuer && t.audience == audience,
            r matches Err(e) ==> e == JwtError::FailedToDecodeToken(DecodeFailure::InvalidIssuer)
                && !issuer_accepted(self.config.issuers, issuer)
                || e == JwtError::FailedToDecodeToken(DecodeFailure::InvalidAudience)
                && issuer_accepted(self.config.issuers, issuer) && !audience_accepted(self.config.audiences, audience),
    {
        match validate_claims(&self.config.issuers, &self.config.audiences, &issuer, &audience) {
            Err(f) => Err(JwtError::FailedToDecodeToken(f)),
            Ok(()) => Ok(VerifiedToken { claims, token: token.to_owned(), issuer, audience }),
        }
    }

    /// Checks the token against one key: its signature through the token
    /// library, then the issuer and audience policy.
    pub fn try_decode_from_jwk(&self, token: &str, key: &Key) -> (r: Result<VerifiedToken, JwtError>)
        ensures
            attempt(self.config, token@, *key, r),
    {
        let decoding_key = match decoding_key_from_jwk(&key.jwk) {
            Ok(k) => k,
            Err(e) => {
                return Err(JwtError::InvalidDecodingKey(e));
            },
        };
        let policy = self.decode_policy(key)?;
        let validation = validation_for(&policy);
        let claims = match decode_claims(token, &decoding_key, &validation) {
            Ok(c) => c,
            Err(e) => {
                return Err(JwtError::FailedToDecodeToken(DecodeFailure::Token(e)));
            },
        };
        let issuer = claim_of(&claims, "iss");
        let audience = claim_of(&claims, "aud");
        self.accept_claims(token, claims, issuer, audience)
    }

    /// Tries the keys in order until one accepts the token; the result is
    /// the selection over those results.
    pub fn decode_and_validate_token(&self, token: &str, keys: &Vec<Key>) -> (r: Result<VerifiedToken, JwtError>)
        ensures
            tried_keys(self.config, token@, keys@, r),
            r matches Ok(t) ==> verified_for(self.config, token@, t),
    {
        let mut results: Vec<Result<VerifiedToken, JwtError>> = Vec::new();
        let mut i: usize = 0;
        while i < keys.len()
            invariant
                i <= keys@.len(),
                results@.len() == i,
                forall|j: int| 0 <= j < i ==> attempt(self.config, token@, keys@[j], #[trigger] results@[j]),
                forall|j: int| 0 <= j < i ==> (#[trigger] results@[j]) is Err,
            decreases keys@.len() - i,
        {
            let a = self.try_decode_from_jwk(token, &keys[i]);
            let done = a.is_ok();
            results.push(a);
            if done {
                assert(attempts(self.config, token@, keys@, results@));
                let r = select_result(results);
                proof { lemma_first_success_wins(results@, r, i as int); }
                return r;
            }
            i = i + 1;
        }
        assert(attempts(self.config, token@, keys@, results@));
        let r = select_result(results);
        proof { lemma_all_keys_fail(self.config, token@, keys@, results@, r); }
        r
    }

    /// Finds the token, selects its key set from the header, and verifies it
    /// against that set's keys.
    pub fn authenticate(&self, sets: &Vec<KeySet>, req: &HttpRequest) -> (r: Result<VerifiedToken, JwtError>)
        ensures
            authenticated(self.config, sets@, *req, r),
    {
        match self.lookup(req) {
            Ok(token) => {
                let header = match decode_header(token.as_str()) {
                    Ok(h) => h,
                    Err(e) => {
                        return Err(JwtError::InvalidJwtHeader(e));
                    },
                };
                let i = find_matching_key_set(&header, sets)?;
                self.decode_and_validate_token(token.as_str(), &sets[i].keys)
            },
            Err(e) => Err(JwtError::LookupFailed(e)),
        }
    }
}

/// A byte that `http` accepts in a header value.
pub open spec fn header_value_byte(b: u8) -> bool {
    (b >= 32 && b != 127) || b == 9
}

pub open spec fn header_value_bytes(bs: Seq<u8>) -> bool {
    forall|i: int| 0 <= i < bs.len() ==> header_value_byte(#[trigger] bs[i])
}

/// The canonical form of a header name that `http::HeaderName` accepts, or
/// `None` where it refuses the text.
pub uninterp spec fn parsed_header_name(s: Seq<char>) -> Option<Seq<char>>;

/// Relies on `http::HeaderValue::from_str`, which accepts the text exactly
/// when every byte of it is a tab or at least 32 and not 127.
#[verifier::external_body]
fn header_value_of(s: &str) -> (r: Option<Vec<u8>>)
    ensures
        r is Some <==> header_value_bytes(encode_utf8(s@)),
        r matches Some(v) ==> v@ == encode_utf8(s@),
{
    http::HeaderValue::from_str(s).ok().map(|v| v.as_bytes().to_vec())
}

/// Relies on `http::HeaderName`'s `FromStr`: a valid header name, in its
/// canonical (lower-case) form.
#[verifier::external_body]
fn header_name_of(s: &str) -> (r: Option<String>)
    ensures
        r is None <==> parsed_header_name(s@) is None,
        r matches Some(n) ==> parsed_header_name(s@) == Some(n@),
{
    s.parse::<http::HeaderName>().ok().map(|n| n.as_str().to_string())
}

/// Relies on `serde_json::Value`'s `Display`: the claims as compact JSON text.
#[verifier::external_body]
fn json_text(v: &serde_json::Value) -> String {
    v.to_string()
}

/// The status and message of the answer to an unauthenticated request.
pub open spec fn rejection_for(e: JwtError, sc: ShortCircuit) -> bool {
    sc.status == status_of(e) && sc.message@ == "unauthenticated request"@
}

pub open spec fn rejects(config: JwtAuthPluginConfig) -> bool {
    config.reject_unauthenticated_requests == Some(true)
}

/// The context after an authentication outcome has been recorded.
pub open spec fn recorded(config: JwtAuthPluginConfig, outcome: Result<VerifiedToken, JwtError>, before: RequestContext, after: RequestContext) -> bool {
    match outcome {
        Ok(t) => {
            &&& after.claims == (if config.forward_claims_to_upstream_header is Some {
                Some(t.claims)
            } else {
                before.claims
            })
            &&& after.token == (if config.forward_token_to_upstream_header is Some {
                Some(t.token)
            } else {
                before.token
            })
            &&& after.short_circuit == before.short_circuit
        },
        Err(e) => if rejects(config) {
            &&& after.claims == before.claims
            &&& after.token == before.token
            &&& after.short_circuit matches Some(sc) && rejection_for(e, sc)
        } else {
            after == before
        },
    }
}

/// One header appended by the forwarding hook.
pub open spec fn appended(before: HttpRequest, after: HttpRequest, name: Seq<char>, value: Seq<u8>) -> bool {
    &&& after.query_params == before.query_params
    &&& after.headers@.len() == before.headers@.len() + 1
    &&& after.headers@.take(before.headers@.len() as int) == before.headers@
    &&& after.headers@.last().name@ == name
    &&& after.headers@.last().value@ == value
}

/// A header that the upstream request cannot carry: a name that
/// `http::HeaderName` refuses, or a value with a byte that a header value
/// may not hold.
pub open spec fn header_refused(name: Seq<char>, text: Seq<char>) -> bool {
    parsed_header_name(name) is None || !header_value_bytes(encode_utf8(text))
}

/// Forwarding `text` under the header `name`: appended under the name's
/// canonical form where the header is valid; otherwise the request is left
/// as it was and ends with status 400.
pub open spec fn header_step(
    name: Seq<char>,
    text: Seq<char>,
    before: HttpRequest,
    after: HttpRequest,
    sc_before: Option<ShortCircuit>,
    sc_after: Option<ShortCircuit>,
) -> bool {
    match parsed_header_name(name) {
        Some(hn) => if header_value_bytes(encode_utf8(text)) {
            appended(before, after, hn, encode_utf8(text)) && sc_after == sc_before
        } else {
            after == before && (sc_after matches Some(sc) && sc.status == 400)
        },
        None => after == before && (sc_after matches Some(sc) && sc.status == 400),
    }
}

/// What forwarding the stored token does: with a header name and a token,
/// the header step for the token's text; otherwise nothing.
pub open spec fn token_forwarded(
    header_name: Option<String>,
    token: Option<String>,
    before: HttpRequest,
    after: HttpRequest,
    sc_before: Option<ShortCircuit>,
    sc_after: Option<ShortCircuit>,
) -> bool {
    match (header_name, token) {
        (Some(n), Some(t)) => header_step(n@, t@, before, after, sc_before, sc_after),
        _ => after == before && sc_after == sc_before,
    }
}

/// What forwarding the stored claims does: with a header name and claims,
/// the header step for the claims' JSON text (which only the JSON library
/// gives), and `stopped` says whether the header was refused. Without a name
/// or claims, nothing happens.
pub open spec fn claims_forwarded(
    header_name: Option<String>,
    claims: Option<serde_json::Value>,
    before: HttpRequest,
    after: HttpRequest,
    sc_before: Option<ShortCircuit>,
    sc_after: Option<ShortCircuit>,
    stopped: bool,
) -> bool {
    match (header_name, claims) {
        (Some(n), Some(_)) => exists|text: Seq<char>| #[trigger] header_step(n@, text, before, after, sc_before, sc_after)
            && stopped == header_refused(n@, text),
        _ => !stopped && after == before && sc_after == sc_before,
    }
}

/// The whole upstream hook: the claims step takes the request from `before`
/// to `mid`; where it stopped, that is the end, and otherwise the token step
/// takes it on to `after`.
pub open spec fn upstream_effect(
    config: JwtAuthPluginConfig,
    ctx: RequestContext,
    before: HttpRequest,
    after: HttpRequest,
    sc_after: Option<ShortCircuit>,
    mid: HttpRequest,
    sc_mid: Option<ShortCircuit>,
    stopped: bool,
) -> bool {
    &&& claims_forwarded(config.forward_claims_to_upstream_header, ctx.claims, before, mid, ctx.short_circuit, sc_mid, stopped)
    &&& if stopped {
        after == mid && sc_after == sc_mid
    } else {
        token_forwarded(config.forward_token_to_upstream_header, ctx.token, mid, after, sc_mid, sc_after)
    }
}

impl JwtAuthPlugin {
    /// Appends `text` to the upstream request under the header `name`, or,
    /// where the header is refused, ends the request with status 400 and the
    /// message that says which part was refused. Returns whether it ended it.
    pub fn append_header(
        name: &String,
        text: &String,
        name_error: &str,
        value_error: &str,
        ctx: &mut RequestContext,
        upstream_req: &mut HttpRequest,
    ) -> (stopped: bool)
        ensures
            stopped == header_refused(name@, text@),
            header_step(name@, text@, *old(upstream_req), *final(upstream_req), old(ctx).short_circuit, final(ctx).short_circuit),
            final(ctx).claims == old(ctx).claims,
            final(ctx).token == old(ctx).token,
    {
        match header_value_of(text.as_str()) {
            Some(value) => match header_name_of(name.as_str()) {
                Some(hn) => {
                    let ghost pre = upstream_req.headers@;
                    upstream_req.headers.push(HeaderEntry { name: hn, value });
                    assert(upstream_req.headers@.take(pre.len() as int) =~= pre);
                    false
                },
                None => {
                    ctx.short_circuit = Some(ShortCircuit { status: 400, message: String::from_str(name_error) });
                    true
                },
            },
            None => {
                ctx.short_circuit = Some(ShortCircuit { status: 400, message: String::from_str(value_error) });
                true
            },
        }
    }

    /// The claims step of the upstream hook; returns whether it ended the request.
    fn forward_claims(&self, ctx: &mut RequestContext, upstream_req: &mut HttpRequest) -> (stopped: bool)
        ensures
            final(ctx).claims == old(ctx).claims,
            final(ctx).token == old(ctx).token,
            claims_forwarded(self.config.forward_claims_to_upstream_header, old(ctx).claims, *old(upstream_req),
                *final(upstream_req), old(ctx).short_circuit, final(ctx).short_circuit, stopped),
    {
        match &self.config.forward_claims_to_upstream_header {
            Some(header_name) => match &ctx.claims {
                Some(claims) => {
                    let text = json_text(claims);
                    JwtAuthPlugin::append_header(
                        header_name,
                        &text,
                        "Failed to parse header name for claims",
                        "Failed to parse claims as header value",
                        ctx,
                        upstream_req,
                    )
                },
                None => false,
            },
            None => false,
        }
    }

    /// Records the outcome of authentication in the request context: on
    /// success the claims and token that are to be forwarded; on failure,
    /// where unauthenticated requests are rejected, the answer to give.
    pub fn record_outcome(&self, outcome: Result<VerifiedToken, JwtError>, ctx: &mut RequestContext)
        ensures
            recorded(self.config, outcome, *old(ctx), *final(ctx)),
    {
        match outcome {
            Ok(t) => {
                if self.config.forward_claims_to_upstream_header.is_some() {
                    ctx.claims = Some(t.claims);
                }
                if self.config.forward_token_to_upstream_header.is_some() {
                    ctx.token = Some(t.token);
                }
            },
            Err(e) => {
                let reject = match self.config.reject_unauthenticated_requests {
                    Some(v) => v,
                    None => false,
                };
                if reject {
                    let status = e.status_code();
                    ctx.short_circuit = Some(ShortCircuit {
                        status,
                        message: String::from_str("unauthenticated request"),
                    });
                }
            },
        }
    }

    /// The hook run before the request is processed: authenticates it with
    /// the key sets that the providers produced (`None` for a provider that
    /// failed) and records the outcome.
    pub fn on_downstream_http_request(&self, fetched: Vec<Option<KeySet>>, req: &HttpRequest, ctx: &mut RequestContext)
        ensures
            exists|outcome: Result<VerifiedToken, JwtError>| #[trigger] recorded(self.config, outcome, *old(ctx), *final(ctx))
                && authenticated(self.config, present_key_sets(fetched@), *req, outcome),
            !rejects(self.config) ==> final(ctx).short_circuit == old(ctx).short_circuit,
            lookup_from(self.config.lookup_locations@, *req, 0) is Err && !rejects(self.config) ==> *final(ctx) == *old(ctx),
    {
        let ghost fs = fetched@;
        let sets = available_key_sets(fetched);
        let outcome = self.authenticate(&sets, req);
        assert(authenticated(self.config, present_key_sets(fs), *req, outcome));
        let ghost g = outcome;
        self.record_outcome(outcome, ctx);
        assert(recorded(self.config, g, *old(ctx), *ctx));
    }

    /// The hook run before the request is sent upstream: appends the stored
    /// claims (as JSON) and token under the configured header names. A name
    /// or value that is no valid header ends the request with status 400.
    pub fn on_upstream_http_request(&self, ctx: &mut RequestContext, upstream_req: &mut HttpRequest)
        ensures
            final(ctx).claims == old(ctx).claims,
            final(ctx).token == old(ctx).token,
            final(upstream_req).query_params == old(upstream_req).query_params,
            final(ctx).short_circuit != old(ctx).short_circuit ==> (final(ctx).short_circuit matches Some(sc) && sc.status == 400),
            old(ctx).claims is None && old(ctx).token is None ==> *final(ctx) == *old(ctx) && *final(upstream_req) == *old(upstream_req),
            self.config.forward_claims_to_upstream_header is None && self.config.forward_token_to_upstream_header is None
                ==> *final(ctx) == *old(ctx) && *final(upstream_req) == *old(upstream_req),
            exists|mid: HttpRequest, sc_mid: Option<ShortCircuit>, stopped: bool| #[trigger] upstream_effect(
                self.config, *old(ctx), *old(upstream_req), *final(upstream_req), final(ctx).short_circuit, mid, sc_mid, stopped),
            self.config.forward_claims_to_upstream_header is None || old(ctx).claims is None ==> token_forwarded(
                self.config.forward_token_to_upstream_header, old(ctx).token, *old(upstream_req), *final(upstream_req),
                old(ctx).short_circuit, final(ctx).short_circuit),
    {
        let ghost ctx0 = *ctx;
        let ghost req0 = *upstream_req;
        let stopped = self.forward_claims(ctx, upstream_req);
        let ghost mid = *upstream_req;
        let ghost sc_mid = ctx.short_circuit;
        if stopped {
            assert(upstream_effect(self.config, ctx0, req0, *upstream_req, ctx.short_circuit, mid, sc_mid, stopped));
            return;
        }
        let token = match &ctx.token {
            Some(t) => Some(t.clone()),
            None => None,
        };
        match &self.config.forward_token_to_upstream_header {
            Some(header_name) => match token {
                Some(t) => {
                    JwtAuthPlugin::append_header(
                        header_name,
                        &t,
                        "Failed to parse header name for token",
                        "Failed to convert token to header value",
                        ctx,
                        upstream_req,
                    );
                },
                None => {},
            },
            None => {},
        }
        assert(upstream_effect(self.config, ctx0, req0, *upstream_req, ctx.short_circuit, mid, sc_mid, stopped));
    }
}

} // verus!
