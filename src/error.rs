//! The closed set of authentication errors and the HTTP status of each.
use vstd::prelude::*;
use jsonwebtoken::jwk::KeyAlgorithm;
use crate::lookup::LookupError;

verus! {

/// Declares `jsonwebtoken::errors::Error`, carried for diagnostics.
#[verifier::external_type_specification]
#[verifier::external_body]
pub struct ExJwtLibError(jsonwebtoken::errors::Error);

/// Why one key did not accept a token.
pub enum DecodeFailure {
    /// The signature or a standard claim did not pass the token library's checks.
    Token(jsonwebtoken::errors::Error),
    /// An issuer allow-list is configured and the `iss` claim is missing or not in it.
    InvalidIssuer,
    /// An audience allow-list is configured and the `aud` claim is missing,
    /// not a list, or holds an entry outside it.
    InvalidAudience,
}

pub enum JwtError {
    /// No configured rule produced a token.
    LookupFailed(LookupError),
    /// The token's unprotected header is malformed.
    InvalidJwtHeader(jsonwebtoken::errors::Error),
    /// A key's material gives no verification key.
    InvalidDecodingKey(jsonwebtoken::errors::Error),
    /// No key set holds a key for the token.
    FailedToLocateProvider,
    /// The key has no declared algorithm.
    JwkMissingAlgorithm,
    /// A key declares an algorithm that is no signing algorithm.
    JwkAlgorithmNotSupported(KeyAlgorithm),
    /// One key did not accept the token.
    FailedToDecodeToken(DecodeFailure),
    /// No key accepted the token; one failure per key, in the keys' order.
    AllProvidersFailedToDecode(Vec<JwtError>),
    /// The request body could not be parsed while looking for the token.
    HTTPRequestParsingError(String),
}

pub open spec fn status_of(e: JwtError) -> u16 {
    match e {
        JwtError::InvalidJwtHeader(_)
        | JwtError::LookupFailed(_)
        | JwtError::JwkAlgorithmNotSupported(_)
        | JwtError::HTTPRequestParsingError(_) => 400,
        JwtError::JwkMissingAlgorithm
        | JwtError::FailedToLocateProvider
        | JwtError::InvalidDecodingKey(_) => 500,
        JwtError::AllProvidersFailedToDecode(_) | JwtError::FailedToDecodeToken(_) => 401,
    }
}

impl JwtError {
    /// The HTTP status that a request failing with this error is answered with.
    pub fn status_code(&self) -> (r: u16)
        ensures
            r == status_of(*self),
    {
        match self {
            JwtError::InvalidJwtHeader(_)
            | JwtError::LookupFailed(_)
            | JwtError::JwkAlgorithmNotSupported(_)
            | JwtError::HTTPRequestParsingError(_) => 400,
            JwtError::JwkMissingAlgorithm
            | JwtError::FailedToLocateProvider
            | JwtError::InvalidDecodingKey(_) => 500,
            JwtError::AllProvidersFailedToDecode(_) | JwtError::FailedToDecodeToken(_) => 401,
        }
    }
}

} // verus!
