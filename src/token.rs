//! The encode and decode pipelines around the signing library.
use vstd::prelude::*;
use crate::algorithms::{
    AlgorithmFamily, SupportedAlgorithms, family_of, hmac_algorithm, library_algorithm,
    translate_algorithm,
};
use crate::builder::{
    ClaimError, ClaimOptions, build_claims, claim_sequence, lacks_name, later_claims, lemma_issued_at,
};
use crate::keys::{
    KeyError, KeyFormat, decoding_key_from_secret, encoding_key_from_secret, hmac_signing_key,
    signing_key_for,
    verifying_key_for,
};
use std::collections::BTreeMap;
use crate::claims::PayloadItem;
use crate::payload::{Payload, item_views, merged, rendered};
use crate::report::{FailureKind, decode_failure_kind, error_kind_of};

verus! {

/// A token header; its fields are plain, so Verus may read them.
#[verifier::external_type_specification]
pub struct ExHeader(jsonwebtoken::Header);

/// Relies on jsonwebtoken::Header::new: type `JWT`, the given algorithm, no other field.
pub assume_specification[ jsonwebtoken::Header::new ](algorithm: jsonwebtoken::Algorithm) -> (r: jsonwebtoken::Header)
    ensures
        r.alg == algorithm,
        r.typ is Some,
        r.typ->0@ == "JWT"@,
        r.kid is None,
        r.cty is None,
        r.jku is None,
        r.x5u is None,
        r.x5t is None,
;

/// A token's header and claims.
#[derive(Debug)]
pub struct TokenParts {
    pub header: jsonwebtoken::Header,
    pub claims: Payload,
}

/// The header and the claims (in the order the signing library gives them) that a token
/// holds, when both can be read; the signature is not looked at.
pub uninterp spec fn token_contents(token: Seq<char>) -> Option<
    (jsonwebtoken::Header, Seq<(Seq<char>, serde_json::Value)>),
>;

/// Relies on jsonwebtoken::dangerous_insecure_decode: reads the header and claims without
/// checking the signature or any claim; claims are read into a map, so names are unique.
#[verifier::external_body]
fn insecure_decode(token: &str) -> (r: Result<TokenParts, jsonwebtoken::errors::Error>)
    ensures
        r is Ok <==> token_contents(token@) is Some,
        r matches Ok(t) ==> token_contents(token@) == Some((t.header, item_views(t.claims.0@)))
            && t.claims.wf(),
{
    let r = jsonwebtoken::dangerous_insecure_decode::<BTreeMap<String, serde_json::Value>>(token);
    r.map(|t| TokenParts { header: t.header, claims: Payload(t.claims.into_iter().map(|(k, v)| PayloadItem(k, v)).collect()) })
}

/// Relies on jsonwebtoken::decode with a Validation of one algorithm: it fails unless the
/// token's header names that algorithm and the signature checks out, and then gives the
/// header and claims as they are read without checking. A readable token whose header
/// names another algorithm fails with an algorithm error, before the signature is checked.
#[verifier::external_body]
fn verify(
    token: &str,
    key: &jsonwebtoken::DecodingKey<'static>,
    alg: jsonwebtoken::Algorithm,
    validate_exp: bool,
    leeway: u64,
) -> (r: Result<TokenParts, jsonwebtoken::errors::Error>)
    ensures
        r matches Ok(t) ==> token_contents(token@) == Some((t.header, item_views(t.claims.0@)))
            && t.header.alg == alg && t.claims.wf(),
        (token_contents(token@) matches Some((h, _)) && h.alg != alg) ==> r is Err,
        (token_contents(token@) matches Some((h, _)) && h.alg != alg) ==> error_kind_of(r->Err_0)
            == FailureKind::InvalidAlgorithm,
{
    let validation = jsonwebtoken::Validation { leeway, algorithms: vec![alg], validate_exp, ..Default::default() };
    let r = jsonwebtoken::decode::<BTreeMap<String, serde_json::Value>>(token, key, &validation);
    r.map(|t| TokenParts { header: t.header, claims: Payload(t.claims.into_iter().map(|(k, v)| PayloadItem(k, v)).collect()) })
}

/// A token that can be read holds this header and claims of these names.
pub open spec fn reads_back(token: Seq<char>, header: jsonwebtoken::Header, names: Set<Seq<char>>) -> bool {
    match token_contents(token) {
        Some((h, cs)) => h == header && merged(cs).dom() == names,
        None => true,
    }
}

/// Relies on jsonwebtoken::encode: the header and the claims, written as one JSON object,
/// signed with the key. It fails only when the key's family differs from the header
/// algorithm's, so an HMAC key under an HMAC header always signs. Reading the token back
/// gives this header and these claim names (values may not survive JSON exactly). Signatures
/// of some algorithms are randomised, so the token itself is not named.
#[verifier::external_body]
fn sign(header: &jsonwebtoken::Header, claims: &Payload, key: &jsonwebtoken::EncodingKey) -> (r: Result<
    String,
    jsonwebtoken::errors::Error,
>)
    ensures
        ((exists|s: Seq<u8>| *key == hmac_signing_key(s)) && hmac_algorithm(header.alg)) ==> r is Ok,
        r matches Ok(t) ==> reads_back(t@, *header, claims@.dom()),
{
    let map: serde_json::Map<String, serde_json::Value> = claims.0.iter().map(
        |i| (i.0.clone(), i.1.clone()),
    ).collect();
    jsonwebtoken::encode(header, &map, key)
}

/// Seconds of clock skew allowed when time claims are checked.
pub const VALIDATION_LEEWAY: u64 = 1000;

/// A token header for an algorithm and an optional key identifier.
pub fn create_header(alg: SupportedAlgorithms, kid: Option<&str>) -> (r: jsonwebtoken::Header)
    ensures
        r.alg == library_algorithm(alg),
        r.typ matches Some(t) && t@ == "JWT"@,
        r.cty is None,
        r.jku is None,
        r.x5u is None,
        r.x5t is None,
        match kid {
            Some(k) => r.kid matches Some(rk) && rk@ == k@,
            None => r.kid is None,
        },
{
    let mut header = jsonwebtoken::Header::new(translate_algorithm(alg));
    header.kid = match kid {
        Some(k) => Some(k.to_owned()),
        None => None,
    };
    header
}

/// Why no token was made.
#[derive(Debug)]
pub enum EncodeError {
    Claims(ClaimError),
    Key(KeyError),
    Signing(jsonwebtoken::errors::Error),
}

/// Makes a signed token: the header names the algorithm and key identifier, the claims are
/// built at time `now`, and the key comes from the secret's bytes in the given format.
pub fn encode_token(
    alg: SupportedAlgorithms,
    kid: Option<&str>,
    options: &ClaimOptions,
    now: u64,
    secret: &[u8],
    format: KeyFormat,
) -> (r: Result<String, EncodeError>)
    ensures
        claim_sequence(*options, now) is None ==> r matches Err(EncodeError::Claims(ClaimError::InvalidJson)),
        claim_sequence(*options, now) is Some && signing_key_for(alg, secret@, format) is Err ==> r matches Err(EncodeError::Key(_)),
        r matches Err(EncodeError::Key(e)) ==> signing_key_for(alg, secret@, format) == Err::<jsonwebtoken::EncodingKey, KeyError>(e),
        claim_sequence(*options, now) is Some && family_of(alg) == AlgorithmFamily::Hmac ==> r is Ok,
        r matches Ok(t) ==> match token_contents(t@) {
            Some((h, cs)) => h.alg == library_algorithm(alg) && (match kid {
                Some(k) => h.kid matches Some(x) && x@ == k@,
                None => h.kid is None,
            }) && merged(cs).dom() == merged(claim_sequence(*options, now)->0).dom(),
            None => true,
        },
        r matches Ok(t) ==> (lacks_name(later_claims(*options), "iat"@) ==> match token_contents(t@) {
            Some((h, cs)) => merged(cs).contains_key("iat"@) == !options.no_iat,
            None => true,
        }),
        r is Ok ==> claim_sequence(*options, now) is Some && signing_key_for(alg, secret@, format) is Ok,
        claim_sequence(*options, now) is Some && signing_key_for(alg, secret@, format) is Ok ==> (r is Ok
            || r matches Err(EncodeError::Signing(_))),
{
    let header = create_header(alg, kid);
    let claims = match build_claims(options, now) {
        Ok(c) => c,
        Err(e) => return Err(EncodeError::Claims(e)),
    };
    let key = match encoding_key_from_secret(alg, secret, format) {
        Ok(k) => k,
        Err(e) => return Err(EncodeError::Key(e)),
    };
    proof {
        if lacks_name(later_claims(*options), "iat"@) {
            lemma_issued_at(*options, now);
        }
        if family_of(alg) == AlgorithmFamily::Hmac {
            assert(key == hmac_signing_key(secret@));
            assert(hmac_algorithm(header.alg));
        }
    }
    match sign(&header, &claims, &key) {
        Ok(t) => Ok(t),
        Err(e) => Err(EncodeError::Signing(e)),
    }
}

/// Why a token was not accepted.
#[derive(Debug)]
pub enum DecodeError {
    /// No verification key could be made.
    Key(KeyError),
    /// The signing library refused the token.
    Token(jsonwebtoken::errors::Error),
}

/// The two outcomes of decoding: verification, and reading without checking (for display).
#[derive(Debug)]
pub struct DecodeOutcome {
    pub verified: Result<TokenParts, DecodeError>,
    pub unverified: Result<TokenParts, jsonwebtoken::errors::Error>,
}

/// The key identifier in a readable token's header.
pub open spec fn token_kid(token: Seq<char>) -> Option<Seq<char>> {
    match token_contents(token) {
        Some((h, _)) => match h.kid {
            Some(k) => Some(k@),
            None => None,
        },
        None => None,
    }
}

/// The key identifier in the header of a token that was read.
fn kid_of(t: &Result<TokenParts, jsonwebtoken::errors::Error>) -> (r: Option<&str>)
    ensures
        match t {
            Ok(p) => match p.header.kid {
                Some(k) => r matches Some(s) && s@ == k@,
                None => r is None,
            },
            Err(_) => r is None,
        },
{
    match t {
        Ok(p) => match &p.header.kid {
            Some(k) => Some(k.as_str()),
            None => None,
        },
        Err(_) => None,
    }
}

/// Decodes a token two ways. Reading without checking gives what is displayed, with time
/// claims written as dates when `iso_dates` is set. Verification, when a secret is given,
/// uses a key made for the declared algorithm (never the token's own) from the secret's
/// bytes, picking from a JWK-Set by the token's key identifier. Without a secret (an empty
/// one on the command line) nothing is verified: the token is only read, so a bad signature
/// passes and a malformed token fails.
pub fn decode_token(
    jwt: &str,
    alg: SupportedAlgorithms,
    secret: Option<&[u8]>,
    format: KeyFormat,
    ignore_exp: bool,
    iso_dates: bool,
) -> (r: DecodeOutcome)
    ensures
        r.unverified is Ok <==> token_contents(jwt@) is Some,
        r.unverified matches Ok(t) ==> (match token_contents(jwt@) {
            Some((h, cs)) => t.header == h && item_views(t.claims.0@) == if iso_dates {
                cs.map_values(|e: (Seq<char>, serde_json::Value)| rendered(e))
            } else {
                cs
            },
            None => false,
        }),
        r.verified matches Ok(t) ==> token_contents(jwt@) == Some(
            (t.header, item_views(t.claims.0@)),
        ),
        secret is None ==> (r.verified is Ok <==> token_contents(jwt@) is Some),
        secret is None ==> !(r.verified matches Err(DecodeError::Key(_))),
        secret matches Some(b) ==> (verifying_key_for(alg, b@, format, token_kid(jwt@)) is Err
            <==> r.verified matches Err(DecodeError::Key(_))),
        secret matches Some(b) ==> (r.verified matches Err(DecodeError::Key(e)) ==> verifying_key_for(
            alg,
            b@,
            format,
            token_kid(jwt@),
        ) == Err::<jsonwebtoken::DecodingKey<'static>, KeyError>(e)),
        secret is Some ==> (r.verified matches Ok(t) ==> t.header.alg == library_algorithm(alg)),
        secret is Some ==> (token_contents(jwt@) matches Some((h, _)) && h.alg != library_algorithm(alg)
            ==> (r.verified matches Err(e) && (e is Token ==> decode_failure_kind(e)
            == FailureKind::InvalidAlgorithm))),
{
    let mut unverified = insecure_decode(jwt);
    let kid = kid_of(&unverified);
    let verified = match secret {
        None => match insecure_decode(jwt) {
            Ok(t) => Ok(t),
            Err(e) => Err(DecodeError::Token(e)),
        },
        Some(bytes) => match decoding_key_from_secret(alg, bytes, format, kid) {
            Err(e) => Err(DecodeError::Key(e)),
            Ok(key) => match verify(jwt, &key, translate_algorithm(alg), !ignore_exp, VALIDATION_LEEWAY) {
                Ok(t) => Ok(t),
                Err(e) => Err(DecodeError::Token(e)),
            },
        },
    };
    if iso_dates {
        match unverified {
            Ok(mut t) => {
                t.claims.convert_timestamps();
                unverified = Ok(t);
            },
            Err(e) => {
                unverified = Err(e);
            },
        }
    }
    DecodeOutcome { verified, unverified }
}

} // verus!
