//! Key sets, the unverified token header, and the choice of the key set
//! that applies to a token.
use vstd::prelude::*;
use crate::error::JwtError;
use jsonwebtoken::Algorithm as A;
use jsonwebtoken::jwk::KeyAlgorithm;

verus! {

/// Declares `jsonwebtoken::Algorithm`; its variants are visible to proofs.
#[verifier::external_type_specification]
pub struct ExAlgorithm(jsonwebtoken::Algorithm);

/// Declares `jsonwebtoken::jwk::Jwk`, the key material handed to verification.
#[verifier::external_type_specification]
#[verifier::external_body]
pub struct ExJwk(jsonwebtoken::jwk::Jwk);

/// Declares `jsonwebtoken::jwk::JwkSet`.
#[verifier::external_type_specification]
#[verifier::external_body]
pub struct ExJwkSet(jsonwebtoken::jwk::JwkSet);

/// Declares `jsonwebtoken::jwk::KeyAlgorithm`, the algorithm a key declares
/// for itself; its variants are visible to proofs.
#[verifier::external_type_specification]
pub struct ExKeyAlgorithm(KeyAlgorithm);

/// The signing algorithm of the same name, if there is one: the encryption
/// algorithms have none.
pub open spec fn signing_algorithm(k: KeyAlgorithm) -> Option<jsonwebtoken::Algorithm> {
    match k {
        KeyAlgorithm::HS256 => Some(jsonwebtoken::Algorithm::HS256),
        KeyAlgorithm::HS384 => Some(jsonwebtoken::Algorithm::HS384),
        KeyAlgorithm::HS512 => Some(jsonwebtoken::Algorithm::HS512),
        KeyAlgorithm::ES256 => Some(jsonwebtoken::Algorithm::ES256),
        KeyAlgorithm::ES384 => Some(jsonwebtoken::Algorithm::ES384),
        KeyAlgorithm::RS256 => Some(jsonwebtoken::Algorithm::RS256),
        KeyAlgorithm::RS384 => Some(jsonwebtoken::Algorithm::RS384),
        KeyAlgorithm::RS512 => Some(jsonwebtoken::Algorithm::RS512),
        KeyAlgorithm::PS256 => Some(jsonwebtoken::Algorithm::PS256),
        KeyAlgorithm::PS384 => Some(jsonwebtoken::Algorithm::PS384),
        KeyAlgorithm::PS512 => Some(jsonwebtoken::Algorithm::PS512),
        KeyAlgorithm::EdDSA => Some(jsonwebtoken::Algorithm::EdDSA),
        _ => None,
    }
}

/// Relies on `jsonwebtoken::Algorithm::from_str` applied to the name that
/// `KeyAlgorithm`'s `Display` gives (its variant name): the twelve signing
/// algorithms parse, the three encryption algorithms do not.
#[verifier::external_body]
pub(crate) fn algorithm_of_key(k: KeyAlgorithm) -> (r: Option<jsonwebtoken::Algorithm>)
    ensures
        r == signing_algorithm(k),
{
    <jsonwebtoken::Algorithm as std::str::FromStr>::from_str(&k.to_string()).ok()
}

/// Compares two signing algorithms.
pub fn same_algorithm(a: jsonwebtoken::Algorithm, b: jsonwebtoken::Algorithm) -> (r: bool)
    ensures
        r == (a == b),
{
    match (a, b) {
        (A::HS256, A::HS256) | (A::HS384, A::HS384) | (A::HS512, A::HS512)
        | (A::ES256, A::ES256) | (A::ES384, A::ES384)
        | (A::RS256, A::RS256) | (A::RS384, A::RS384) | (A::RS512, A::RS512)
        | (A::PS256, A::PS256) | (A::PS384, A::PS384) | (A::PS512, A::PS512)
        | (A::EdDSA, A::EdDSA) => true,
        _ => false,
    }
}

pub open spec fn opt_text(o: Option<String>) -> Option<Seq<char>> {
    match o {
        Some(s) => Some(s@),
        None => None,
    }
}

/// One verification key: its identifier and declared algorithm, as read
/// from its material, and the material itself.
pub struct Key {
    pub key_id: Option<String>,
    pub key_algorithm: Option<KeyAlgorithm>,
    pub jwk: jsonwebtoken::jwk::Jwk,
}

/// A named set of verification keys, in the order the source lists them.
pub struct KeySet {
    pub keys: Vec<Key>,
}

/// The unprotected header of a token: its algorithm and key identifier.
/// It selects a key and is never trusted otherwise.
pub struct TokenHeader {
    pub alg: jsonwebtoken::Algorithm,
    pub kid: Option<String>,
}

/// The algorithm and key identifier that `jsonwebtoken::decode_header` reads
/// from a token, or `None` where the header is malformed.
pub uninterp spec fn decoded_header(token: Seq<char>) -> Option<(jsonwebtoken::Algorithm, Option<Seq<char>>)>;

/// Relies on `jsonwebtoken::decode_header`: parses the first segment of a
/// token without checking its signature.
#[verifier::external_body]
pub(crate) fn decode_header(token: &str) -> (r: Result<TokenHeader, jsonwebtoken::errors::Error>)
    ensures
        r is Ok <==> decoded_header(token@) is Some,
        r matches Ok(h) ==> decoded_header(token@) == Some((h.alg, opt_text(h.kid))),
{
    match jsonwebtoken::decode_header(token) {
        Ok(h) => Ok(TokenHeader { alg: h.alg, kid: h.kid }),
        Err(e) => Err(e),
    }
}

/// Relies on the `kid` field of a key's common parameters.
#[verifier::external_body]
fn jwk_key_id(jwk: &jsonwebtoken::jwk::Jwk) -> Option<String> {
    jwk.common.key_id.clone()
}

/// Relies on the `alg` field of a key's common parameters.
#[verifier::external_body]
fn jwk_key_algorithm(jwk: &jsonwebtoken::jwk::Jwk) -> Option<KeyAlgorithm> {
    jwk.common.key_algorithm
}

/// Relies on the `keys` field of a key set.
#[verifier::external_body]
fn jwk_set_keys(set: jsonwebtoken::jwk::JwkSet) -> Vec<jsonwebtoken::jwk::Jwk> {
    set.keys
}

impl Key {
    pub fn from_jwk(jwk: jsonwebtoken::jwk::Jwk) -> (r: Key)
        ensures
            r.jwk == jwk,
    {
        let key_id = jwk_key_id(&jwk);
        let key_algorithm = jwk_key_algorithm(&jwk);
        Key { key_id, key_algorithm, jwk }
    }
}

impl KeySet {
    /// The keys of a fetched key set, in their order.
    pub fn from_jwks(jwks: Vec<jsonwebtoken::jwk::Jwk>) -> (r: KeySet)
        ensures
            r.keys@.len() == jwks@.len(),
            forall|i: int| 0 <= i < jwks@.len() ==> #[trigger] r.keys@[i].jwk == jwks@[i],
    {
        let ghost all = jwks@;
        let mut rest = jwks;
        let mut keys: Vec<Key> = Vec::new();
        while rest.len() > 0
            invariant
                keys@.len() + rest@.len() == all.len(),
                rest@ == all.skip(keys@.len() as int),
                forall|i: int| 0 <= i < keys@.len() ==> #[trigger] keys@[i].jwk == all[i],
            decreases rest@.len(),
        {
            let jwk = rest.remove(0);
            keys.push(Key::from_jwk(jwk));
        }
        KeySet { keys }
    }

    pub fn from_jwk_set(set: jsonwebtoken::jwk::JwkSet) -> KeySet {
        KeySet::from_jwks(jwk_set_keys(set))
    }
}

/// Some key of the list carries this key identifier.
pub open spec fn has_key_id(keys: Seq<Key>, kid: Seq<char>) -> bool {
    exists|j: int| 0 <= j < keys.len() && opt_text(#[trigger] keys[j].key_id) == Some(kid)
}

/// The first set at or after `i` holding a key with this identifier.
pub open spec fn key_id_match_from(sets: Seq<KeySet>, kid: Seq<char>, i: int) -> Option<int>
    decreases sets.len() - i,
{
    if i < 0 || i >= sets.len() {
        None
    } else if has_key_id(sets[i].keys@, kid) {
        Some(i)
    } else {
        key_id_match_from(sets, kid, i + 1)
    }
}

/// Scanning keys from the `j`-th for one whose declared algorithm is `alg`:
/// `None` when none is, `Some(Ok(()))` when one is, and `Some(Err(k))` when a
/// key declaring `k`, which names no signing algorithm, is met first.
pub open spec fn algorithm_scan_from(keys: Seq<Key>, alg: jsonwebtoken::Algorithm, j: int) -> Option<Result<(), KeyAlgorithm>>
    decreases keys.len() - j,
{
    if j < 0 || j >= keys.len() {
        None
    } else {
        match keys[j].key_algorithm {
            None => algorithm_scan_from(keys, alg, j + 1),
            Some(k) => match signing_algorithm(k) {
                None => Some(Err(k)),
                Some(a) => if a == alg {
                    Some(Ok(()))
                } else {
                    algorithm_scan_from(keys, alg, j + 1)
                },
            },
        }
    }
}

/// The first set at or after `i` with a key of algorithm `alg`, or the key
/// algorithm that stopped the scan.
pub open spec fn algorithm_match_from(sets: Seq<KeySet>, alg: jsonwebtoken::Algorithm, i: int) -> Result<Option<int>, KeyAlgorithm>
    decreases sets.len() - i,
{
    if i < 0 || i >= sets.len() {
        Ok(None)
    } else {
        match algorithm_scan_from(sets[i].keys@, alg, 0) {
            Some(Ok(())) => Ok(Some(i)),
            Some(Err(k)) => Err(k),
            None => algorithm_match_from(sets, alg, i + 1),
        }
    }
}

/// The index of the key set that applies to a token with this algorithm and
/// key identifier: by key identifier first, then by algorithm.
pub open spec fn matching_key_set(alg: jsonwebtoken::Algorithm, kid: Option<Seq<char>>, sets: Seq<KeySet>) -> Result<int, JwtError> {
    match key_id_match(sets, kid) {
        Some(i) => Ok(i),
        None => match algorithm_match_from(sets, alg, 0) {
            Ok(Some(i)) => Ok(i),
            Ok(None) => Err(JwtError::FailedToLocateProvider),
            Err(k) => Err(JwtError::JwkAlgorithmNotSupported(k)),
        },
    }
}

fn keys_have_id(keys: &Vec<Key>, kid: &String) -> (r: bool)
    ensures
        r == has_key_id(keys@, kid@),
{
    let mut j: usize = 0;
    while j < keys.len()
        invariant
            j <= keys@.len(),
            forall|m: int| 0 <= m < j ==> opt_text(#[trigger] keys@[m].key_id) != Some(kid@),
        decreases keys@.len() - j,
    {
        match &keys[j].key_id {
            Some(id) => {
                if *id == *kid {
                    assert(opt_text(keys@[j as int].key_id) == Some(kid@));
                    return true;
                }
            },
            None => {},
        }
        j = j + 1;
    }
    false
}

fn scan_algorithms(keys: &Vec<Key>, alg: jsonwebtoken::Algorithm) -> (r: Option<Result<(), KeyAlgorithm>>)
    ensures
        r == algorithm_scan_from(keys@, alg, 0),
{
    let mut j: usize = 0;
    while j < keys.len()
        invariant
            j <= keys@.len(),
            algorithm_scan_from(keys@, alg, 0) == algorithm_scan_from(keys@, alg, j as int),
        decreases keys@.len() - j,
    {
        match keys[j].key_algorithm {
            None => {},
            Some(k) => match algorithm_of_key(k) {
                None => {
                    return Some(Err(k));
                },
                Some(a) => {
                    if same_algorithm(a, alg) {
                        return Some(Ok(()));
                    }
                },
            },
        }
        j = j + 1;
    }
    None
}

fn key_set_with_id(sets: &Vec<KeySet>, kid: &String) -> (r: Option<usize>)
    ensures
        r matches Some(i) ==> i < sets@.len() && key_id_match_from(sets@, kid@, 0) == Some(i as int),
        r is None ==> key_id_match_from(sets@, kid@, 0) is None,
{
    let mut i: usize = 0;
    while i < sets.len()
        invariant
            i <= sets@.len(),
            key_id_match_from(sets@, kid@, 0) == key_id_match_from(sets@, kid@, i as int),
        decreases sets@.len() - i,
    {
        if keys_have_id(&sets[i].keys, kid) {
            return Some(i);
        }
        i = i + 1;
    }
    None
}

pub open spec fn key_id_match(sets: Seq<KeySet>, kid: Option<Seq<char>>) -> Option<int> {
    match kid {
        Some(k) => key_id_match_from(sets, k, 0),
        None => None,
    }
}

fn key_set_with_token_id(sets: &Vec<KeySet>, kid: &Option<String>) -> (r: Option<usize>)
    ensures
        r matches Some(i) ==> i < sets@.len() && key_id_match(sets@, opt_text(*kid)) == Some(i as int),
        r is None ==> key_id_match(sets@, opt_text(*kid)) is None,
{
    match kid {
        Some(k) => key_set_with_id(sets, k),
        None => None,
    }
}

/// Selects the key set that applies to a token: the first set holding a key
/// with the token's key identifier, else the first set holding a key whose
/// declared algorithm is the token's.
pub fn find_matching_key_set(header: &TokenHeader, sets: &Vec<KeySet>) -> (r: Result<usize, JwtError>)
    ensures
        r matches Ok(i) ==> i < sets@.len() && matching_key_set(header.alg, opt_text(header.kid), sets@) == Ok::<int, JwtError>(i as int),
        r matches Err(e) ==> matching_key_set(header.alg, opt_text(header.kid), sets@) == Err::<int, JwtError>(e),
{
    let by_kid = key_set_with_token_id(sets, &header.kid);
    match by_kid {
        Some(i) => {
            return Ok(i);
        },
        None => {},
    }
    let mut i: usize = 0;
    while i < sets.len()
        invariant
            i <= sets@.len(),
            algorithm_match_from(sets@, header.alg, 0) == algorithm_match_from(sets@, header.alg, i as int),
            key_id_match(sets@, opt_text(header.kid)) is None,
        decreases sets@.len() - i,
    {
        match scan_algorithms(&sets[i].keys, header.alg) {
            Some(Ok(())) => {
                return Ok(i);
            },
            Some(Err(k)) => {
                return Err(JwtError::JwkAlgorithmNotSupported(k));
            },
            None => {},
        }
        i = i + 1;
    }
    Err(JwtError::FailedToLocateProvider)
}

/// Where some set holds a key with the token's key identifier, that set is
/// chosen, whatever keys of the token's algorithm come before it.
pub proof fn lemma_key_id_takes_precedence(alg: jsonwebtoken::Algorithm, kid: Seq<char>, sets: Seq<KeySet>, i: int)
    requires
        key_id_match_from(sets, kid, 0) == Some(i),
    ensures
        matching_key_set(alg, Some(kid), sets) == Ok::<int, JwtError>(i),
{
}

} // verus!
