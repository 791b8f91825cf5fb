//! The signing algorithms offered to users and their families.
use vstd::prelude::*;

verus! {

/// The signing library's own algorithm identifiers; fieldless, so Verus may read its variants.
#[verifier::external_type_specification]
pub struct ExAlgorithm(jsonwebtoken::Algorithm);

/// An algorithm that a token may be signed or verified with.
#[derive(Debug, Clone, Copy, PartialEq, Eq, Structural)]
pub enum SupportedAlgorithms {
    HS256,
    HS384,
    HS512,
    RS256,
    RS384,
    RS512,
    PS256,
    PS384,
    PS512,
    ES256,
    ES384,
}

/// The kind of key an algorithm needs.
#[derive(Debug, Clone, Copy, PartialEq, Eq, Structural)]
pub enum AlgorithmFamily {
    Hmac,
    Rsa,
    Ecdsa,
}

/// The algorithm a name selects; unknown names select HS256.
pub open spec fn algorithm_named(name: Seq<char>) -> SupportedAlgorithms {
    if name == "HS256"@ {
        SupportedAlgorithms::HS256
    } else if name == "HS384"@ {
        SupportedAlgorithms::HS384
    } else if name == "HS512"@ {
        SupportedAlgorithms::HS512
    } else if name == "RS256"@ {
        SupportedAlgorithms::RS256
    } else if name == "RS384"@ {
        SupportedAlgorithms::RS384
    } else if name == "RS512"@ {
        SupportedAlgorithms::RS512
    } else if name == "PS256"@ {
        SupportedAlgorithms::PS256
    } else if name == "PS384"@ {
        SupportedAlgorithms::PS384
    } else if name == "PS512"@ {
        SupportedAlgorithms::PS512
    } else if name == "ES256"@ {
        SupportedAlgorithms::ES256
    } else if name == "ES384"@ {
        SupportedAlgorithms::ES384
    } else {
        SupportedAlgorithms::HS256
    }
}

/// The family an algorithm belongs to.
pub open spec fn family_of(alg: SupportedAlgorithms) -> AlgorithmFamily {
    match alg {
        SupportedAlgorithms::HS256 | SupportedAlgorithms::HS384 | SupportedAlgorithms::HS512 => {
            AlgorithmFamily::Hmac
        },
        SupportedAlgorithms::ES256 | SupportedAlgorithms::ES384 => AlgorithmFamily::Ecdsa,
        _ => AlgorithmFamily::Rsa,
    }
}

/// The signing library's identifier for an algorithm.
pub open spec fn library_algorithm(alg: SupportedAlgorithms) -> jsonwebtoken::Algorithm {
    match alg {
        SupportedAlgorithms::HS256 => jsonwebtoken::Algorithm::HS256,
        SupportedAlgorithms::HS384 => jsonwebtoken::Algorithm::HS384,
        SupportedAlgorithms::HS512 => jsonwebtoken::Algorithm::HS512,
        SupportedAlgorithms::RS256 => jsonwebtoken::Algorithm::RS256,
        SupportedAlgorithms::RS384 => jsonwebtoken::Algorithm::RS384,
        SupportedAlgorithms::RS512 => jsonwebtoken::Algorithm::RS512,
        SupportedAlgorithms::PS256 => jsonwebtoken::Algorithm::PS256,
        SupportedAlgorithms::PS384 => jsonwebtoken::Algorithm::PS384,
        SupportedAlgorithms::PS512 => jsonwebtoken::Algorithm::PS512,
        SupportedAlgorithms::ES256 => jsonwebtoken::Algorithm::ES256,
        SupportedAlgorithms::ES384 => jsonwebtoken::Algorithm::ES384,
    }
}

/// Whether a library algorithm is one of the HMAC ones.
pub open spec fn hmac_algorithm(a: jsonwebtoken::Algorithm) -> bool {
    a == jsonwebtoken::Algorithm::HS256 || a == jsonwebtoken::Algorithm::HS384 || a
        == jsonwebtoken::Algorithm::HS512
}

/// Whether two strings hold the same characters.
pub fn str_equal(a: &str, b: &str) -> (r: bool)
    ensures
        r == (a@ == b@),
{
    let n = a.unicode_len();
    if n != b.unicode_len() {
        return false;
    }
    let mut i: usize = 0;
    while i < n
        invariant
            n == a@.len(),
            n == b@.len(),
            i <= n,
            a@.subrange(0, i as int) == b@.subrange(0, i as int),
        decreases n - i,
    {
        if a.get_char(i) != b.get_char(i) {
            assert(a@[i as int] != b@[i as int]);
            return false;
        }
        assert(a@.subrange(0, i + 1) == a@.subrange(0, i as int).push(a@[i as int]));
        assert(b@.subrange(0, i + 1) == b@.subrange(0, i as int).push(b@[i as int]));
        i = i + 1;
    }
    assert(a@ == a@.subrange(0, n as int));
    assert(b@ == b@.subrange(0, n as int));
    true
}

impl SupportedAlgorithms {
    /// Reads an algorithm name; a name outside the supported set gives HS256.
    pub fn from_string(alg: &str) -> (r: SupportedAlgorithms)
        ensures
            r == algorithm_named(alg@),
    {
        proof {
            reveal_strlit("HS256");
            reveal_strlit("HS384");
            reveal_strlit("HS512");
            reveal_strlit("RS256");
            reveal_strlit("RS384");
            reveal_strlit("RS512");
            reveal_strlit("PS256");
            reveal_strlit("PS384");
            reveal_strlit("PS512");
            reveal_strlit("ES256");
            reveal_strlit("ES384");
        }
        if str_equal(alg, "HS256") {
            SupportedAlgorithms::HS256
        } else if str_equal(alg, "HS384") {
            SupportedAlgorithms::HS384
        } else if str_equal(alg, "HS512") {
            SupportedAlgorithms::HS512
        } else if str_equal(alg, "RS256") {
            SupportedAlgorithms::RS256
        } else if str_equal(alg, "RS384") {
            SupportedAlgorithms::RS384
        } else if str_equal(alg, "RS512") {
            SupportedAlgorithms::RS512
        } else if str_equal(alg, "PS256") {
            SupportedAlgorithms::PS256
        } else if str_equal(alg, "PS384") {
            SupportedAlgorithms::PS384
        } else if str_equal(alg, "PS512") {
            SupportedAlgorithms::PS512
        } else if str_equal(alg, "ES256") {
            SupportedAlgorithms::ES256
        } else if str_equal(alg, "ES384") {
            SupportedAlgorithms::ES384
        } else {
            SupportedAlgorithms::HS256
        }
    }

    /// The family of keys this algorithm signs and verifies with.
    pub fn family(&self) -> (r: AlgorithmFamily)
        ensures
            r == family_of(*self),
    {
        match self {
            SupportedAlgorithms::HS256 | SupportedAlgorithms::HS384 | SupportedAlgorithms::HS512 => {
                AlgorithmFamily::Hmac
            },
            SupportedAlgorithms::ES256 | SupportedAlgorithms::ES384 => AlgorithmFamily::Ecdsa,
            _ => AlgorithmFamily::Rsa,
        }
    }
}

/// The signing library's identifier for a supported algorithm.
pub fn translate_algorithm(alg: SupportedAlgorithms) -> (r: jsonwebtoken::Algorithm)
    ensures
        r == library_algorithm(alg),
{
    match alg {
        SupportedAlgorithms::HS256 => jsonwebtoken::Algorithm::HS256,
        SupportedAlgorithms::HS384 => jsonwebtoken::Algorithm::HS384,
        SupportedAlgorithms::HS512 => jsonwebtoken::Algorithm::HS512,
        SupportedAlgorithms::RS256 => jsonwebtoken::Algorithm::RS256,
        SupportedAlgorithms::RS384 => jsonwebtoken::Algorithm::RS384,
        SupportedAlgorithms::RS512 => jsonwebtoken::Algorithm::RS512,
        SupportedAlgorithms::PS256 => jsonwebtoken::Algorithm::PS256,
        SupportedAlgorithms::PS384 => jsonwebtoken::Algorithm::PS384,
        SupportedAlgorithms::PS512 => jsonwebtoken::Algorithm::PS512,
        SupportedAlgorithms::ES256 => jsonwebtoken::Algorithm::ES256,
        SupportedAlgorithms::ES384 => jsonwebtoken::Algorithm::ES384,
    }
}

} // verus!
