//! What a failed verification is reported as.
use vstd::prelude::*;
use jsonwebtoken::errors::ErrorKind as K;
use crate::keys::KeyError;
use crate::token::DecodeError;

verus! {

/// The kinds of failure that get a message of their own.
#[derive(Debug, Clone, Copy, PartialEq, Eq, Structural)]
pub enum FailureKind {
    InvalidToken,
    InvalidSignature,
    InvalidRsaKey,
    InvalidEcdsaKey,
    ExpiredSignature,
    InvalidIssuer,
    InvalidAudience,
    InvalidSubject,
    ImmatureSignature,
    InvalidAlgorithm,
    /// Any other failure; it is reported with its details.
    Other,
}

/// The kind of an error of the signing library.
pub uninterp spec fn error_kind_of(e: jsonwebtoken::errors::Error) -> FailureKind;

/// Relies on jsonwebtoken::errors::Error::kind: tells the error's kinds apart.
#[verifier::external_body]
fn error_kind(e: &jsonwebtoken::errors::Error) -> (r: FailureKind)
    ensures
        r == error_kind_of(*e),
{
    match e.kind() {
        K::InvalidToken => FailureKind::InvalidToken,
        K::InvalidSignature => FailureKind::InvalidSignature,
        K::InvalidRsaKey => FailureKind::InvalidRsaKey,
        K::InvalidEcdsaKey => FailureKind::InvalidEcdsaKey,
        K::ExpiredSignature => FailureKind::ExpiredSignature,
        K::InvalidIssuer => FailureKind::InvalidIssuer,
        K::InvalidAudience => FailureKind::InvalidAudience,
        K::InvalidSubject => FailureKind::InvalidSubject,
        K::ImmatureSignature => FailureKind::ImmatureSignature,
        K::InvalidAlgorithm => FailureKind::InvalidAlgorithm,
        _ => FailureKind::Other,
    }
}

/// The kind of a decoding failure: a JWK-Set without the token's key counts as an invalid
/// signature; other key problems are reported with their details.
pub open spec fn decode_failure_kind(e: DecodeError) -> FailureKind {
    match e {
        DecodeError::Key(KeyError::KeyNotFound) => FailureKind::InvalidSignature,
        DecodeError::Key(KeyError::Rejected(x)) => error_kind_of(x),
        DecodeError::Key(_) => FailureKind::Other,
        DecodeError::Token(x) => error_kind_of(x),
    }
}

/// The kind of a decoding failure.
pub fn failure_kind(e: &DecodeError) -> (r: FailureKind)
    ensures
        r == decode_failure_kind(*e),
{
    match e {
        DecodeError::Key(KeyError::KeyNotFound) => FailureKind::InvalidSignature,
        DecodeError::Key(KeyError::Rejected(x)) => error_kind(x),
        DecodeError::Key(_) => FailureKind::Other,
        DecodeError::Token(x) => error_kind(x),
    }
}

/// The message for a kind of failure; the other kinds are reported with their details.
pub open spec fn message_of(k: FailureKind) -> Option<Seq<char>> {
    match k {
        FailureKind::InvalidToken => Some("The JWT provided is invalid"@),
        FailureKind::InvalidSignature => Some("The JWT provided has an invalid signature"@),
        FailureKind::InvalidRsaKey => Some("The secret provided isn't a valid RSA key"@),
        FailureKind::InvalidEcdsaKey => Some("The secret provided isn't a valid ECDSA key"@),
        FailureKind::ExpiredSignature => Some(
            "The token has expired (or the `exp` claim is not set). This error can be ignored via the `--ignore-exp` parameter."@,
        ),
        FailureKind::InvalidIssuer => Some("The token issuer is invalid"@),
        FailureKind::InvalidAudience => Some("The token audience doesn't match the subject"@),
        FailureKind::InvalidSubject => Some("The token subject doesn't match the audience"@),
        FailureKind::ImmatureSignature => Some(
            "The `nbf` claim is in the future which isn't allowed"@,
        ),
        FailureKind::InvalidAlgorithm => Some(
            "The JWT provided has a different signing algorithm than the one you provided"@,
        ),
        FailureKind::Other => None,
    }
}

/// The message for a kind of failure.
pub fn failure_message(k: FailureKind) -> (r: Option<&'static str>)
    ensures
        match r {
            Some(m) => message_of(k) == Some(m@),
            None => message_of(k) is None,
        },
{
    match k {
        FailureKind::InvalidToken => Some("The JWT provided is invalid"),
        FailureKind::InvalidSignature => Some("The JWT provided has an invalid signature"),
        FailureKind::InvalidRsaKey => Some("The secret provided isn't a valid RSA key"),
        FailureKind::InvalidEcdsaKey => Some("The secret provided isn't a valid ECDSA key"),
        FailureKind::ExpiredSignature => Some(
            "The token has expired (or the `exp` claim is not set). This error can be ignored via the `--ignore-exp` parameter.",
        ),
        FailureKind::InvalidIssuer => Some("The token issuer is invalid"),
        FailureKind::InvalidAudience => Some("The token audience doesn't match the subject"),
        FailureKind::InvalidSubject => Some("The token subject doesn't match the audience"),
        FailureKind::ImmatureSignature => Some(
            "The `nbf` claim is in the future which isn't allowed",
        ),
        FailureKind::InvalidAlgorithm => Some(
            "The JWT provided has a different signing algorithm than the one you provided",
        ),
        FailureKind::Other => None,
    }
}

} // verus!
