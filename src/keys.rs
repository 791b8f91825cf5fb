//! Key material: where a secret comes from, how its bytes are encoded, and the signing or
//! verification key it gives for an algorithm.
use vstd::prelude::*;
use vstd::utf8::{valid_utf8, decode_utf8, encode_utf8};
use crate::algorithms::{AlgorithmFamily, SupportedAlgorithms, family_of, str_equal};
use crate::json::{
    field_of, json_as_array, json_as_str, json_field, json_parse, json_text, parse_json,
    value_as_array, value_as_str, value_to_text,
};

verus! {

/// The signing library's error.
#[verifier::external_type_specification]
#[verifier::external_body]
pub struct ExJwtError(jsonwebtoken::errors::Error);

/// A key to sign tokens with.
#[verifier::external_type_specification]
#[verifier::external_body]
pub struct ExEncodingKey(jsonwebtoken::EncodingKey);

/// A key to verify tokens with.
#[verifier::external_type_specification]
#[verifier::external_body]
pub struct ExDecodingKey<'a>(jsonwebtoken::DecodingKey<'a>);

/// A parsed JSON Web Key.
#[verifier::external_type_specification]
#[verifier::external_body]
pub struct ExJsonWebKey(jsonwebkey::JsonWebKey);

/// How the bytes of a key are encoded.
#[derive(Debug, Clone, Copy, PartialEq, Eq, Structural)]
pub enum KeyFormat {
    PEM,
    DER,
    JWK,
}

/// Where the bytes of a secret come from.
#[derive(Debug, Clone, PartialEq, Eq)]
pub enum KeySource {
    /// The secret's own bytes.
    Literal(Vec<u8>),
    /// The whole content of the file at this path.
    File(String),
}

/// Why no key could be made.
#[derive(Debug)]
pub enum KeyError {
    /// The key document is not JSON text.
    InvalidJson,
    /// A JWK-Set holds no entry for the token's key identifier, or none was given.
    KeyNotFound,
    /// The JWK cannot be read as a key, or written as PEM.
    MalformedJwk,
    /// The signing library refused the key material.
    Rejected(jsonwebtoken::errors::Error),
}

/// Whether a secret refers to a file: it starts with `@`.
pub open spec fn is_file_reference(secret: Seq<char>) -> bool {
    secret.len() > 0 && secret[0] == '@'
}

/// The key format that an explicit choice names; an unknown name gives PEM.
pub open spec fn format_named(f: Seq<char>) -> KeyFormat {
    if f == "der"@ {
        KeyFormat::DER
    } else if f == "jwk"@ {
        KeyFormat::JWK
    } else {
        KeyFormat::PEM
    }
}

/// The key format that a file extension implies; PEM unless it is `der` or `jwk`.
pub open spec fn format_for_extension(e: Option<Seq<char>>) -> KeyFormat {
    match e {
        Some(x) => if x == "der"@ {
            KeyFormat::DER
        } else if x == "jwk"@ {
            KeyFormat::JWK
        } else {
            KeyFormat::PEM
        },
        None => KeyFormat::PEM,
    }
}

/// The key format: an explicit choice wins; else a file's extension; else PEM.
pub open spec fn chosen_format(file: bool, extension: Option<Seq<char>>, explicit: Option<Seq<char>>) -> KeyFormat {
    match explicit {
        Some(f) => format_named(f),
        None => if file {
            format_for_extension(extension)
        } else {
            KeyFormat::PEM
        },
    }
}

/// The extension of a path's file name.
pub uninterp spec fn path_extension(path: Seq<char>) -> Option<Seq<char>>;

/// Relies on std::path::Path::extension: the extension of the path's file name.
#[verifier::external_body]
fn extension_of(path: &str) -> (r: Option<String>)
    ensures
        r matches Some(e) ==> path_extension(path@) == Some(e@),
        r is None ==> path_extension(path@) is None,
{
    std::path::Path::new(path).extension().and_then(|e| e.to_str()).map(|e| e.to_owned())
}

/// Relies on std::str::from_utf8: the text that valid UTF-8 bytes encode.
#[verifier::external_body]
fn utf8_text(bytes: &[u8]) -> (r: Option<String>)
    ensures
        r is Some <==> valid_utf8(bytes@),
        r matches Some(t) ==> t@ == decode_utf8(bytes@),
{
    std::str::from_utf8(bytes).ok().map(|t| t.to_owned())
}

/// Where the bytes of a secret come from: a file for `@path`, else the secret's own bytes.
pub fn key_source(secret: &str) -> (r: KeySource)
    ensures
        is_file_reference(secret@) ==> (r matches KeySource::File(p) && p@ == secret@.drop_first()),
        !is_file_reference(secret@) ==> (r matches KeySource::Literal(b) && b@ == encode_utf8(
            secret@,
        )),
{
    let n = secret.unicode_len();
    if n > 0 && secret.get_char(0) == '@' {
        let path = secret.substring_char(1, n);
        assert(path@ == secret@.drop_first());
        KeySource::File(path.to_owned())
    } else {
        KeySource::Literal(secret.as_bytes_vec())
    }
}

/// The key format for a secret: an explicit choice (`pem`, `der`, `jwk`; others give PEM)
/// wins; a file reference is judged by its extension (`der`, `jwk`; others give PEM); a
/// literal secret is PEM.
pub fn key_format_from(file: bool, extension: Option<&str>, explicit: Option<&str>) -> (r: KeyFormat)
    ensures
        r == chosen_format(
            file,
            match extension {
                Some(e) => Some(e@),
                None => None,
            },
            match explicit {
                Some(f) => Some(f@),
                None => None,
            },
        ),
{
    proof {
        reveal_strlit("der");
        reveal_strlit("jwk");
    }
    match explicit {
        Some(f) => if str_equal(f, "der") {
            KeyFormat::DER
        } else if str_equal(f, "jwk") {
            KeyFormat::JWK
        } else {
            KeyFormat::PEM
        },
        None => if file {
            match extension {
                Some(e) => if str_equal(e, "der") {
                    KeyFormat::DER
                } else if str_equal(e, "jwk") {
                    KeyFormat::JWK
                } else {
                    KeyFormat::PEM
                },
                None => KeyFormat::PEM,
            }
        } else {
            KeyFormat::PEM
        },
    }
}

/// The key format for a secret reference and an optional explicit choice.
pub fn key_format(secret: &str, explicit: Option<&str>) -> (r: KeyFormat)
    ensures
        r == chosen_format(
            is_file_reference(secret@),
            path_extension(secret@),
            match explicit {
                Some(f) => Some(f@),
                None => None,
            },
        ),
{
    let file = secret.unicode_len() > 0 && secret.get_char(0) == '@';
    let ext = extension_of(secret);
    match &ext {
        Some(e) => key_format_from(file, Some(e.as_str()), explicit),
        None => key_format_from(file, None, explicit),
    }
}

/// The characters of a text outcome.
pub open spec fn text_outcome(r: Result<String, KeyError>) -> Result<Seq<char>, KeyError> {
    match r {
        Ok(t) => Ok(t@),
        Err(e) => Err(e),
    }
}

/// The bytes of a byte outcome.
pub open spec fn bytes_outcome(r: Result<Vec<u8>, KeyError>) -> Result<Seq<u8>, KeyError> {
    match r {
        Ok(b) => Ok(b@),
        Err(e) => Err(e),
    }
}

/// The `keys` array of a JWK-Set.
pub open spec fn set_keys(doc: serde_json::Value) -> Option<Seq<serde_json::Value>> {
    match json_field(doc, "keys"@) {
        Some(f) => json_as_array(f),
        None => None,
    }
}

/// The `kid` string of a JWK.
pub open spec fn entry_kid(entry: serde_json::Value) -> Option<Seq<char>> {
    match json_field(entry, "kid"@) {
        Some(f) => json_as_str(f),
        None => None,
    }
}

/// Whether a JWK's `kid` is the given one.
pub open spec fn kid_matches(entry: serde_json::Value, kid: Seq<char>) -> bool {
    entry_kid(entry) == Some(kid)
}

/// `i` is the first entry whose `kid` is the given one.
pub open spec fn is_first_match(keys: Seq<serde_json::Value>, kid: Seq<char>, i: int) -> bool {
    0 <= i < keys.len() && kid_matches(keys[i], kid) && forall|j: int|
        0 <= j < i ==> !kid_matches(#[trigger] keys[j], kid)
}

/// The single JWK that a key document gives: a document without a `keys` array is used as
/// it is; from a JWK-Set, the first entry whose `kid` is the token's, written as JSON.
pub open spec fn selected_jwk(doc: Seq<char>, kid: Option<Seq<char>>) -> Result<Seq<char>, KeyError> {
    match json_parse(doc) {
        None => Err(KeyError::InvalidJson),
        Some(v) => match set_keys(v) {
            None => Ok(doc),
            Some(keys) => match kid {
                None => Err(KeyError::KeyNotFound),
                Some(k) => if exists|i: int| is_first_match(keys, k, i) {
                    match json_text(keys[choose|i: int| is_first_match(keys, k, i)]) {
                        Some(t) => Ok(t),
                        None => Err(KeyError::InvalidJson),
                    }
                } else {
                    Err(KeyError::KeyNotFound)
                },
            },
        },
    }
}

/// The first matching entry is unique.
proof fn lemma_first_match_unique(keys: Seq<serde_json::Value>, kid: Seq<char>, i: int)
    requires
        is_first_match(keys, kid, i),
    ensures
        (choose|j: int| is_first_match(keys, kid, j)) == i,
{
    let j = choose|j: int| is_first_match(keys, kid, j);
    assert(is_first_match(keys, kid, j));
    if j < i {
        assert(!kid_matches(keys[j], kid));
    } else if i < j {
        assert(!kid_matches(keys[i], kid));
    }
}

/// The `keys` array of a JWK-Set.
fn keys_of(doc: &serde_json::Value) -> (r: Option<Vec<serde_json::Value>>)
    ensures
        match r {
            Some(a) => set_keys(*doc) == Some(a@),
            None => set_keys(*doc) is None,
        },
{
    proof {
        reveal_strlit("keys");
    }
    match field_of(doc, "keys") {
        Some(f) => value_as_array(&f),
        None => None,
    }
}

/// The `kid` string of a JWK.
fn kid_of_entry(entry: &serde_json::Value) -> (r: Option<String>)
    ensures
        match r {
            Some(k) => entry_kid(*entry) == Some(k@),
            None => entry_kid(*entry) is None,
        },
{
    proof {
        reveal_strlit("kid");
    }
    match field_of(entry, "kid") {
        Some(f) => value_as_str(&f),
        None => None,
    }
}

/// In a JWK-Set, the entry chosen for a key identifier is the first one that carries it,
/// wherever it stands; when no entry carries it, there is no key.
pub proof fn lemma_jwk_set_selection(doc: Seq<char>, kid: Seq<char>, i: int)
    requires
        json_parse(doc) is Some,
        set_keys(json_parse(doc)->0) is Some,
        0 <= i <= set_keys(json_parse(doc)->0)->0.len(),
        forall|j: int| 0 <= j < i ==> !kid_matches(#[trigger] set_keys(json_parse(doc)->0)->0[j], kid),
    ensures
        i < set_keys(json_parse(doc)->0)->0.len() && kid_matches(set_keys(json_parse(doc)->0)->0[i], kid)
            ==> selected_jwk(doc, Some(kid)) == match json_text(set_keys(json_parse(doc)->0)->0[i]) {
                Some(t) => Ok::<Seq<char>, KeyError>(t),
                None => Err(KeyError::InvalidJson),
            },
        i == set_keys(json_parse(doc)->0)->0.len() ==> selected_jwk(doc, Some(kid)) == Err::<Seq<char>, KeyError>(KeyError::KeyNotFound),
{
    let keys = set_keys(json_parse(doc)->0)->0;
    if i < keys.len() && kid_matches(keys[i], kid) {
        assert(is_first_match(keys, kid, i));
        lemma_first_match_unique(keys, kid, i);
    }
    if i == keys.len() {
        assert(!exists|k: int| is_first_match(keys, kid, k));
    }
}

/// Picks the JWK to use from a key document: a single JWK as it is; from a JWK-Set, the
/// first entry whose `kid` is the token's.
pub fn select_jwk(doc: &str, kid: Option<&str>) -> (r: Result<String, KeyError>)
    ensures
        text_outcome(r) == selected_jwk(
            doc@,
            match kid {
                Some(k) => Some(k@),
                None => None,
            },
        ),
{
    let v = match parse_json(doc) {
        Some(v) => v,
        None => return Err(KeyError::InvalidJson),
    };
    let keys = match keys_of(&v) {
        Some(keys) => keys,
        None => return Ok(doc.to_owned()),
    };
    let k = match kid {
        Some(k) => k,
        None => return Err(KeyError::KeyNotFound),
    };
    let mut i: usize = 0;
    while i < keys.len()
        invariant
            i <= keys@.len(),
            json_parse(doc@) == Some(v),
            set_keys(v) == Some(keys@),
            kid == Some(k),
            forall|j: int| 0 <= j < i ==> !kid_matches(#[trigger] keys@[j], k@),
        decreases keys@.len() - i,
    {
        let field = kid_of_entry(&keys[i]);
        let found = match &field {
            Some(s) => str_equal(s.as_str(), k),
            None => false,
        };
        assert(found == kid_matches(keys@[i as int], k@));
        if found {
            assert(is_first_match(keys@, k@, i as int));
            proof {
                lemma_first_match_unique(keys@, k@, i as int);
            }
            let text = value_to_text(&keys[i]);
            assert(selected_jwk(doc@, Some(k@)) == match json_text(keys@[i as int]) {
                Some(t) => Ok::<Seq<char>, KeyError>(t),
                None => Err(KeyError::InvalidJson),
            });
            return match text {
                Some(t) => Ok(t),
                None => Err(KeyError::InvalidJson),
            };
        }
        i = i + 1;
    }
    Err(KeyError::KeyNotFound)
}

/// The HMAC signing key for a shared secret.
pub uninterp spec fn hmac_signing_key(secret: Seq<u8>) -> jsonwebtoken::EncodingKey;

/// The RSA signing key that PEM bytes give, or the library's refusal.
pub uninterp spec fn rsa_pem_signing_key(pem: Seq<u8>) -> Result<jsonwebtoken::EncodingKey, jsonwebtoken::errors::Error>;

/// The RSA signing key for DER bytes.
pub uninterp spec fn rsa_der_signing_key(der: Seq<u8>) -> jsonwebtoken::EncodingKey;

/// The ECDSA signing key that PEM bytes give, or the library's refusal.
pub uninterp spec fn ec_pem_signing_key(pem: Seq<u8>) -> Result<jsonwebtoken::EncodingKey, jsonwebtoken::errors::Error>;

/// The ECDSA signing key for DER bytes.
pub uninterp spec fn ec_der_signing_key(der: Seq<u8>) -> jsonwebtoken::EncodingKey;

/// The HMAC verification key for a shared secret.
pub uninterp spec fn hmac_verifying_key(secret: Seq<u8>) -> jsonwebtoken::DecodingKey<'static>;

/// The RSA verification key that PEM bytes give, or the library's refusal.
pub uninterp spec fn rsa_pem_verifying_key(pem: Seq<u8>) -> Result<jsonwebtoken::DecodingKey<'static>, jsonwebtoken::errors::Error>;

/// The RSA verification key for DER bytes.
pub uninterp spec fn rsa_der_verifying_key(der: Seq<u8>) -> jsonwebtoken::DecodingKey<'static>;

/// The ECDSA verification key that PEM bytes give, or the library's refusal.
pub uninterp spec fn ec_pem_verifying_key(pem: Seq<u8>) -> Result<jsonwebtoken::DecodingKey<'static>, jsonwebtoken::errors::Error>;

/// The ECDSA verification key for DER bytes.
pub uninterp spec fn ec_der_verifying_key(der: Seq<u8>) -> jsonwebtoken::DecodingKey<'static>;

/// The key that a JWK text describes, if it is one.
pub uninterp spec fn jwk_parsed(text: Seq<char>) -> Option<jsonwebkey::JsonWebKey>;

/// The PEM text of a JWK's key, when it is an asymmetric key with all its parts.
pub uninterp spec fn jwk_pem(k: jsonwebkey::JsonWebKey) -> Option<Seq<char>>;

/// Relies on jsonwebtoken::EncodingKey::from_secret.
#[verifier::external_body]
fn hmac_signing(secret: &[u8]) -> (r: jsonwebtoken::EncodingKey)
    ensures
        r == hmac_signing_key(secret@),
{
    jsonwebtoken::EncodingKey::from_secret(secret)
}

/// Relies on jsonwebtoken::EncodingKey::from_rsa_pem.
#[verifier::external_body]
fn rsa_pem_signing(pem: &[u8]) -> (r: Result<jsonwebtoken::EncodingKey, jsonwebtoken::errors::Error>)
    ensures
        r == rsa_pem_signing_key(pem@),
{
    jsonwebtoken::EncodingKey::from_rsa_pem(pem)
}

/// Relies on jsonwebtoken::EncodingKey::from_rsa_der.
#[verifier::external_body]
fn rsa_der_signing(der: &[u8]) -> (r: jsonwebtoken::EncodingKey)
    ensures
        r == rsa_der_signing_key(der@),
{
    jsonwebtoken::EncodingKey::from_rsa_der(der)
}

/// Relies on jsonwebtoken::EncodingKey::from_ec_pem.
#[verifier::external_body]
fn ec_pem_signing(pem: &[u8]) -> (r: Result<jsonwebtoken::EncodingKey, jsonwebtoken::errors::Error>)
    ensures
        r == ec_pem_signing_key(pem@),
{
    jsonwebtoken::EncodingKey::from_ec_pem(pem)
}

/// Relies on jsonwebtoken::EncodingKey::from_ec_der.
#[verifier::external_body]
fn ec_der_signing(der: &[u8]) -> (r: jsonwebtoken::EncodingKey)
    ensures
        r == ec_der_signing_key(der@),
{
    jsonwebtoken::EncodingKey::from_ec_der(der)
}

/// Relies on jsonwebtoken::DecodingKey::from_secret, made owned by into_static.
#[verifier::external_body]
fn hmac_verifying(secret: &[u8]) -> (r: jsonwebtoken::DecodingKey<'static>)
    ensures
        r == hmac_verifying_key(secret@),
{
    jsonwebtoken::DecodingKey::from_secret(secret).into_static()
}

/// Relies on jsonwebtoken::DecodingKey::from_rsa_pem, made owned by into_static.
#[verifier::external_body]
fn rsa_pem_verifying(pem: &[u8]) -> (r: Result<jsonwebtoken::DecodingKey<'static>, jsonwebtoken::errors::Error>)
    ensures
        r == rsa_pem_verifying_key(pem@),
{
    jsonwebtoken::DecodingKey::from_rsa_pem(pem).map(jsonwebtoken::DecodingKey::into_static)
}

/// Relies on jsonwebtoken::DecodingKey::from_rsa_der, made owned by into_static.
#[verifier::external_body]
fn rsa_der_verifying(der: &[u8]) -> (r: jsonwebtoken::DecodingKey<'static>)
    ensures
        r == rsa_der_verifying_key(der@),
{
    jsonwebtoken::DecodingKey::from_rsa_der(der).into_static()
}

/// Relies on jsonwebtoken::DecodingKey::from_ec_pem, made owned by into_static.
#[verifier::external_body]
fn ec_pem_verifying(pem: &[u8]) -> (r: Result<jsonwebtoken::DecodingKey<'static>, jsonwebtoken::errors::Error>)
    ensures
        r == ec_pem_verifying_key(pem@),
{
    jsonwebtoken::DecodingKey::from_ec_pem(pem).map(jsonwebtoken::DecodingKey::into_static)
}

/// Relies on jsonwebtoken::DecodingKey::from_ec_der, made owned by into_static.
#[verifier::external_body]
fn ec_der_verifying(der: &[u8]) -> (r: jsonwebtoken::DecodingKey<'static>)
    ensures
        r == ec_der_verifying_key(der@),
{
    jsonwebtoken::DecodingKey::from_ec_der(der).into_static()
}

/// Relies on jsonwebkey's FromStr for JsonWebKey: reads one JWK from JSON text.
#[verifier::external_body]
fn parse_jwk(text: &str) -> (r: Option<jsonwebkey::JsonWebKey>)
    ensures
        r == jwk_parsed(text@),
{
    text.parse::<jsonwebkey::JsonWebKey>().ok()
}

/// Relies on jsonwebkey::Key::try_to_pem: the key written as PEM, when it can be.
#[verifier::external_body]
fn jwk_to_pem(k: &jsonwebkey::JsonWebKey) -> (r: Option<String>)
    ensures
        r matches Some(p) ==> jwk_pem(*k) == Some(p@),
        r is None ==> jwk_pem(*k) is None,
{
    k.key.try_to_pem().ok()
}

/// The PEM bytes of the JWK that key material gives for the token's key identifier.
pub open spec fn jwk_pem_bytes(secret: Seq<u8>, kid: Option<Seq<char>>) -> Result<Seq<u8>, KeyError> {
    if !valid_utf8(secret) {
        Err(KeyError::InvalidJson)
    } else {
        match selected_jwk(decode_utf8(secret), kid) {
            Err(e) => Err(e),
            Ok(sel) => match jwk_parsed(sel) {
                None => Err(KeyError::MalformedJwk),
                Some(k) => match jwk_pem(k) {
                    None => Err(KeyError::MalformedJwk),
                    Some(p) => Ok(encode_utf8(p)),
                },
            },
        }
    }
}

/// Reads JWK key material as PEM bytes, picking from a JWK-Set by key identifier.
pub fn jwk_pem_from(secret: &[u8], kid: Option<&str>) -> (r: Result<Vec<u8>, KeyError>)
    ensures
        bytes_outcome(r) == jwk_pem_bytes(
            secret@,
            match kid {
                Some(k) => Some(k@),
                None => None,
            },
        ),
{
    let text = match utf8_text(secret) {
        Some(t) => t,
        None => return Err(KeyError::InvalidJson),
    };
    let sel = match select_jwk(text.as_str(), kid) {
        Ok(s) => s,
        Err(e) => return Err(e),
    };
    let k = match parse_jwk(sel.as_str()) {
        Some(k) => k,
        None => return Err(KeyError::MalformedJwk),
    };
    match jwk_to_pem(&k) {
        Some(p) => Ok(p.as_str().as_bytes_vec()),
        None => Err(KeyError::MalformedJwk),
    }
}

/// A refusal by the signing library, as a key error.
pub open spec fn refused<K>(r: Result<K, jsonwebtoken::errors::Error>) -> Result<K, KeyError> {
    match r {
        Ok(k) => Ok(k),
        Err(e) => Err(KeyError::Rejected(e)),
    }
}

/// The signing key that key material gives for an algorithm: HMAC uses the bytes as they
/// are; RSA and ECDSA read PEM or DER bytes, or a JWK converted to PEM.
pub open spec fn signing_key_for(alg: SupportedAlgorithms, secret: Seq<u8>, format: KeyFormat) -> Result<
    jsonwebtoken::EncodingKey,
    KeyError,
> {
    match family_of(alg) {
        AlgorithmFamily::Hmac => Ok(hmac_signing_key(secret)),
        AlgorithmFamily::Rsa => match format {
            KeyFormat::PEM => refused(rsa_pem_signing_key(secret)),
            KeyFormat::DER => Ok(rsa_der_signing_key(secret)),
            KeyFormat::JWK => match jwk_pem_bytes(secret, None) {
                Ok(p) => refused(rsa_pem_signing_key(p)),
                Err(e) => Err(e),
            },
        },
        AlgorithmFamily::Ecdsa => match format {
            KeyFormat::PEM => refused(ec_pem_signing_key(secret)),
            KeyFormat::DER => Ok(ec_der_signing_key(secret)),
            KeyFormat::JWK => match jwk_pem_bytes(secret, None) {
                Ok(p) => refused(ec_pem_signing_key(p)),
                Err(e) => Err(e),
            },
        },
    }
}

/// The verification key that key material gives for an algorithm; a JWK-Set is resolved
/// with the token's key identifier.
pub open spec fn verifying_key_for(
    alg: SupportedAlgorithms,
    secret: Seq<u8>,
    format: KeyFormat,
    kid: Option<Seq<char>>,
) -> Result<jsonwebtoken::DecodingKey<'static>, KeyError> {
    match family_of(alg) {
        AlgorithmFamily::Hmac => Ok(hmac_verifying_key(secret)),
        AlgorithmFamily::Rsa => match format {
            KeyFormat::PEM => refused(rsa_pem_verifying_key(secret)),
            KeyFormat::DER => Ok(rsa_der_verifying_key(secret)),
            KeyFormat::JWK => match jwk_pem_bytes(secret, kid) {
                Ok(p) => refused(rsa_pem_verifying_key(p)),
                Err(e) => Err(e),
            },
        },
        AlgorithmFamily::Ecdsa => match format {
            KeyFormat::PEM => refused(ec_pem_verifying_key(secret)),
            KeyFormat::DER => Ok(ec_der_verifying_key(secret)),
            KeyFormat::JWK => match jwk_pem_bytes(secret, kid) {
                Ok(p) => refused(ec_pem_verifying_key(p)),
                Err(e) => Err(e),
            },
        },
    }
}

/// A refusal of the signing library as a key error.
fn lift<K>(r: Result<K, jsonwebtoken::errors::Error>) -> (s: Result<K, KeyError>)
    ensures
        s == refused(r),
{
    match r {
        Ok(k) => Ok(k),
        Err(e) => Err(KeyError::Rejected(e)),
    }
}

/// The key to sign with for an algorithm, from the secret's bytes in the given format.
pub fn encoding_key_from_secret(alg: SupportedAlgorithms, secret: &[u8], format: KeyFormat) -> (r: Result<
    jsonwebtoken::EncodingKey,
    KeyError,
>)
    ensures
        r == signing_key_for(alg, secret@, format),
{
    match alg.family() {
        AlgorithmFamily::Hmac => Ok(hmac_signing(secret)),
        AlgorithmFamily::Rsa => match format {
            KeyFormat::PEM => lift(rsa_pem_signing(secret)),
            KeyFormat::DER => Ok(rsa_der_signing(secret)),
            KeyFormat::JWK => match jwk_pem_from(secret, None) {
                Ok(p) => lift(rsa_pem_signing(p.as_slice())),
                Err(e) => Err(e),
            },
        },
        AlgorithmFamily::Ecdsa => match format {
            KeyFormat::PEM => lift(ec_pem_signing(secret)),
            KeyFormat::DER => Ok(ec_der_signing(secret)),
            KeyFormat::JWK => match jwk_pem_from(secret, None) {
                Ok(p) => lift(ec_pem_signing(p.as_slice())),
                Err(e) => Err(e),
            },
        },
    }
}

/// The key to verify with for an algorithm, from the secret's bytes in the given format;
/// a JWK-Set is resolved with the token's key identifier.
pub fn decoding_key_from_secret(
    alg: SupportedAlgorithms,
    secret: &[u8],
    format: KeyFormat,
    kid: Option<&str>,
) -> (r: Result<jsonwebtoken::DecodingKey<'static>, KeyError>)
    ensures
        r == verifying_key_for(
            alg,
            secret@,
            format,
            match kid {
                Some(k) => Some(k@),
                None => None,
            },
        ),
{
    match alg.family() {
        AlgorithmFamily::Hmac => Ok(hmac_verifying(secret)),
        AlgorithmFamily::Rsa => match format {
            KeyFormat::PEM => lift(rsa_pem_verifying(secret)),
            KeyFormat::DER => Ok(rsa_der_verifying(secret)),
            KeyFormat::JWK => match jwk_pem_from(secret, kid) {
                Ok(p) => lift(rsa_pem_verifying(p.as_slice())),
                Err(e) => Err(e),
            },
        },
        AlgorithmFamily::Ecdsa => match format {
            KeyFormat::PEM => lift(ec_pem_verifying(secret)),
            KeyFormat::DER => Ok(ec_der_verifying(secret)),
            KeyFormat::JWK => match jwk_pem_from(secret, kid) {
                Ok(p) => lift(ec_pem_verifying(p.as_slice())),
                Err(e) => Err(e),
            },
        },
    }
}

} // verus!
