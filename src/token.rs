//! Signature verification through the token library, and the issuer and
//! audience policy applied to the verified claims.
use vstd::prelude::*;
use crate::error::DecodeFailure;

verus! {

/// Declares `jsonwebtoken::DecodingKey`, the key that checks a signature.
#[verifier::external_type_specification]
#[verifier::external_body]
pub struct ExDecodingKey(jsonwebtoken::DecodingKey);

/// Declares `jsonwebtoken::Validation`, the checks that decoding applies.
#[verifier::external_type_specification]
#[verifier::external_body]
pub struct ExValidation(jsonwebtoken::Validation);

/// Declares `serde_json::Value`, the untyped claim set of a token.
#[verifier::external_type_specification]
#[verifier::external_body]
pub struct ExJsonValue(serde_json::Value);

/// A claim as the policy reads it.
pub enum ClaimValue {
    /// The token does not carry the claim.
    Missing,
    /// A string.
    Text(String),
    /// An array; each entry is its string, or `None` where it is no string.
    List(Vec<Option<String>>),
    /// Any other JSON value.
    Other,
}

/// Relies on `jsonwebtoken::DecodingKey::from_jwk`: the verification key for
/// a key's material, or the error that says why there is none.
#[verifier::external_body]
pub(crate) fn decoding_key_from_jwk(jwk: &jsonwebtoken::jwk::Jwk) -> Result<jsonwebtoken::DecodingKey, jsonwebtoken::errors::Error> {
    jsonwebtoken::DecodingKey::from_jwk(jwk)
}

/// What decoding checks besides the signature: the algorithm, the accepted
/// issuers where a list is configured, and whether the token library checks
/// the audience itself.
pub struct DecodePolicy {
    pub algorithm: jsonwebtoken::Algorithm,
    pub issuers: Option<Vec<String>>,
    pub library_checks_audience: bool,
}

/// Relies on `jsonwebtoken::Validation::new`: the checks for one algorithm,
/// with the expiry claim required.
#[verifier::external_body]
pub(crate) fn new_validation(alg: jsonwebtoken::Algorithm) -> jsonwebtoken::Validation {
    jsonwebtoken::Validation::new(alg)
}

/// Relies on `jsonwebtoken::Validation::set_issuer`: an `iss` claim from the list is required.
#[verifier::external_body]
pub(crate) fn set_issuer(v: &mut jsonwebtoken::Validation, issuers: &Vec<String>) {
    v.set_issuer(issuers)
}

/// Relies on the `validate_aud` field of `jsonwebtoken::Validation`: whether
/// decoding checks the `aud` claim.
#[verifier::external_body]
pub(crate) fn set_validate_aud(v: &mut jsonwebtoken::Validation, on: bool) {
    v.validate_aud = on;
}

/// The token library's checks for a decode policy.
pub fn validation_for(policy: &DecodePolicy) -> jsonwebtoken::Validation {
    let mut v = new_validation(policy.algorithm);
    match &policy.issuers {
        Some(issuers) => set_issuer(&mut v, issuers),
        None => {},
    }
    set_validate_aud(&mut v, policy.library_checks_audience);
    v
}

/// Relies on `jsonwebtoken::decode`: checks the signature and the standard
/// claims (which depend on the time now) and gives the claim set.
#[verifier::external_body]
pub(crate) fn decode_claims(
    token: &str,
    key: &jsonwebtoken::DecodingKey,
    validation: &jsonwebtoken::Validation,
) -> Result<serde_json::Value, jsonwebtoken::errors::Error> {
    jsonwebtoken::decode::<serde_json::Value>(token, key, validation).map(|d| d.claims)
}

/// Relies on `serde_json::Value::get` to read one claim of a claim set.
#[verifier::external_body]
pub(crate) fn claim_of(claims: &serde_json::Value, name: &str) -> ClaimValue {
    match claims.get(name) {
        None => ClaimValue::Missing,
        Some(serde_json::Value::String(s)) => ClaimValue::Text(s.clone()),
        Some(serde_json::Value::Array(a)) => ClaimValue::List(a.iter().map(|v| v.as_str().map(String::from)).collect()),
        Some(serde_json::Value::Null) => ClaimValue::Other,
        Some(serde_json::Value::Bool(_)) => ClaimValue::Other,
        Some(serde_json::Value::Number(_)) => ClaimValue::Other,
        Some(serde_json::Value::Object(_)) => ClaimValue::Other,
    }
}

/// `t` is one of the texts of `list`.
pub open spec fn in_list(list: Seq<String>, t: Seq<char>) -> bool {
    exists|k: int| 0 <= k < list.len() && (#[trigger] list[k])@ == t
}

/// With an issuer allow-list, the `iss` claim must be a string of the list;
/// without one, any `iss`, or none, is accepted.
pub open spec fn issuer_accepted(issuers: Option<Vec<String>>, iss: ClaimValue) -> bool {
    match issuers {
        None => true,
        Some(list) => match iss {
            ClaimValue::Text(t) => in_list(list@, t@),
            _ => false,
        },
    }
}

/// With an audience allow-list, the `aud` claim must be an array whose every
/// entry is a string of the list; without one, any `aud` is accepted.
pub open spec fn audience_accepted(audiences: Option<Vec<String>>, aud: ClaimValue) -> bool {
    match audiences {
        None => true,
        Some(list) => match aud {
            ClaimValue::List(entries) => forall|e: int| 0 <= e < entries@.len() ==>
                (#[trigger] entries@[e] matches Some(t) && in_list(list@, t@)),
            _ => false,
        },
    }
}

/// A copy of a list of texts.
pub fn copy_texts(list: &Vec<String>) -> (r: Vec<String>)
    ensures
        r@ == list@,
{
    let mut out: Vec<String> = Vec::new();
    let mut k: usize = 0;
    while k < list.len()
        invariant
            k <= list@.len(),
            out@ == list@.take(k as int),
        decreases list@.len() - k,
    {
        out.push(list[k].clone());
        assert(list@.take(k as int + 1) =~= list@.take(k as int).push(list@[k as int]));
        k = k + 1;
    }
    assert(list@.take(k as int) =~= list@);
    out
}

pub fn contains_text(list: &Vec<String>, t: &String) -> (r: bool)
    ensures
        r == in_list(list@, t@),
{
    let mut k: usize = 0;
    while k < list.len()
        invariant
            k <= list@.len(),
            forall|m: int| 0 <= m < k ==> (#[trigger] list@[m])@ != t@,
        decreases list@.len() - k,
    {
        if list[k] == *t {
            return true;
        }
        k = k + 1;
    }
    false
}

pub fn check_issuer(issuers: &Option<Vec<String>>, iss: &ClaimValue) -> (r: bool)
    ensures
        r == issuer_accepted(*issuers, *iss),
{
    match issuers {
        None => true,
        Some(list) => match iss {
            ClaimValue::Text(t) => contains_text(list, t),
            _ => false,
        },
    }
}

pub fn check_audience(audiences: &Option<Vec<String>>, aud: &ClaimValue) -> (r: bool)
    ensures
        r == audience_accepted(*audiences, *aud),
{
    match audiences {
        None => true,
        Some(list) => match aud {
            ClaimValue::List(entries) => {
                let mut e: usize = 0;
                while e < entries.len()
                    invariant
                        e <= entries@.len(),
                        *audiences == Some::<Vec<String>>(*list),
                        *aud == ClaimValue::List(*entries),
                        forall|m: int| 0 <= m < e ==> (#[trigger] entries@[m] matches Some(t) && in_list(list@, t@)),
                    decreases entries@.len() - e,
                {
                    match &entries[e] {
                        Some(t) => {
                            if !contains_text(list, t) {
                                assert(!(entries@[e as int] matches Some(t) && in_list(list@, t@)));
                                return false;
                            }
                        },
                        None => {
                            assert(!(entries@[e as int] matches Some(t) && in_list(list@, t@)));
                            return false;
                        },
                    }
                    e = e + 1;
                }
                true
            },
            _ => false,
        },
    }
}

/// Applies the issuer policy, then the audience policy, to the claims of a
/// token whose signature has been checked.
pub fn validate_claims(
    issuers: &Option<Vec<String>>,
    audiences: &Option<Vec<String>>,
    iss: &ClaimValue,
    aud: &ClaimValue,
) -> (r: Result<(), DecodeFailure>)
    ensures
        r is Ok <==> issuer_accepted(*issuers, *iss) && audience_accepted(*audiences, *aud),
        r matches Err(f) ==> (f is InvalidIssuer <==> !issuer_accepted(*issuers, *iss)),
        r matches Err(f) ==> (f is InvalidIssuer || f is InvalidAudience),
{
    if !check_issuer(issuers, iss) {
        return Err(DecodeFailure::InvalidIssuer);
    }
    if !check_audience(audiences, aud) {
        return Err(DecodeFailure::InvalidAudience);
    }
    Ok(())
}

/// With an issuer allow-list, a token without an `iss` claim, or with an
/// `iss` that is not one of the listed strings, is refused, and a listed
/// `iss` is accepted; with no allow-list every `iss`, or none, is accepted.
pub proof fn lemma_issuer_policy(list: Vec<String>, iss: ClaimValue)
    ensures
        issuer_accepted(None, iss),
        !issuer_accepted(Some(list), ClaimValue::Missing),
        issuer_accepted(Some(list), iss) <==> (iss matches ClaimValue::Text(t) && in_list(list@, t@)),
{
}

/// With an audience allow-list, a token whose `aud` claim is missing or not
/// an array is refused, and an array is accepted exactly when every entry is
/// one of the listed strings; with no allow-list every `aud` is accepted.
pub proof fn lemma_audience_policy(list: Vec<String>, aud: ClaimValue)
    ensures
        audience_accepted(None, aud),
        !audience_accepted(Some(list), ClaimValue::Missing),
        !(aud is List) ==> !audience_accepted(Some(list), aud),
        aud matches ClaimValue::List(entries) ==> (audience_accepted(Some(list), aud) <==> forall|e: int|
            0 <= e < entries@.len() ==> (#[trigger] entries@[e] matches Some(t) && in_list(list@, t@))),
{
}

} // verus!
