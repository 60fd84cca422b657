//! The algorithm parameter model: the enumerated options with their
//! defaults, and the validated request that drives key generation.

use vstd::prelude::*;

use crate::text::str_eq;

verus! {

/// The Edwards elliptic curve used when generating EdDSA keys.
#[derive(Clone, Copy, Debug, PartialEq, Eq, Structural)]
pub enum EdCurveType {
    Ed25519,
    Ed448,
}

impl EdCurveType {
    /// Parses the flag value of `--curve`: exactly `ed25519` or `ed448`;
    /// every other string is rejected.
    pub fn from_flag(s: &str) -> (r: Option<EdCurveType>)
        ensures
            r == (if s@ == "ed25519"@ {
                Some(EdCurveType::Ed25519)
            } else if s@ == "ed448"@ {
                Some(EdCurveType::Ed448)
            } else {
                None::<EdCurveType>
            }),
    {
        if str_eq(s, "ed25519") {
            Some(EdCurveType::Ed25519)
        } else if str_eq(s, "ed448") {
            Some(EdCurveType::Ed448)
        } else {
            None
        }
    }
}

impl Default for EdCurveType {
    fn default() -> (r: Self)
        ensures
            r == EdCurveType::Ed25519,
    {
        EdCurveType::Ed25519
    }
}

/// The key algorithm: either RSA or EdDSA.
#[derive(Clone, Copy, Debug, PartialEq, Eq, Structural)]
pub enum JwkAlgorithm {
    RSA,
    EdDSA,
}

impl JwkAlgorithm {
    /// Parses the flag value of `--algorithm`: exactly `eddsa` or `rsa`;
    /// every other string is rejected.
    pub fn from_flag(s: &str) -> (r: Option<JwkAlgorithm>)
        ensures
            r == (if s@ == "eddsa"@ {
                Some(JwkAlgorithm::EdDSA)
            } else if s@ == "rsa"@ {
                Some(JwkAlgorithm::RSA)
            } else {
                None::<JwkAlgorithm>
            }),
    {
        if str_eq(s, "eddsa") {
            Some(JwkAlgorithm::EdDSA)
        } else if str_eq(s, "rsa") {
            Some(JwkAlgorithm::RSA)
        } else {
            None
        }
    }
}

impl Default for JwkAlgorithm {
    fn default() -> (r: Self)
        ensures
            r == JwkAlgorithm::EdDSA,
    {
        JwkAlgorithm::EdDSA
    }
}

/// The output hash digest size for RSA keys; it selects which RSA
/// signature-algorithm variant performs generation and tags the key.
#[derive(Clone, Copy, Debug, PartialEq, Eq, Structural)]
pub enum RsaDigestSize {
    RS256,
    RS384,
    RS512,
}

impl RsaDigestSize {
    /// Parses the flag value of `--rsa-digest-size`: exactly `256`, `384`
    /// or `512`; every other string is rejected.
    pub fn from_flag(s: &str) -> (r: Option<RsaDigestSize>)
        ensures
            r == (if s@ == "256"@ {
                Some(RsaDigestSize::RS256)
            } else if s@ == "384"@ {
                Some(RsaDigestSize::RS384)
            } else if s@ == "512"@ {
                Some(RsaDigestSize::RS512)
            } else {
                None::<RsaDigestSize>
            }),
    {
        if str_eq(s, "256") {
            Some(RsaDigestSize::RS256)
        } else if str_eq(s, "384") {
            Some(RsaDigestSize::RS384)
        } else if str_eq(s, "512") {
            Some(RsaDigestSize::RS512)
        } else {
            None
        }
    }
}

impl Default for RsaDigestSize {
    fn default() -> (r: Self)
        ensures
            r == RsaDigestSize::RS256,
    {
        RsaDigestSize::RS256
    }
}

/// A validated, immutable description of what key to generate. Fields
/// meaningful only for one algorithm are ignored, not rejected, when the
/// other algorithm is selected.
#[derive(Clone, Debug)]
pub struct GenerateJwkCommand {
    /// A key id to assign to the generated key. Key ids can be any string value.
    pub key_id: Option<String>,
    /// The key algorithm to use.
    pub algorithm: JwkAlgorithm,
    /// The Edwards elliptic curve to use when generating EdDSA keys.
    pub curve: EdCurveType,
    /// The key size in bits when generating an RSA key.
    pub rsa_key_size: u16,
    /// The output hash digest size for RSA keys.
    pub rsa_digest_size: RsaDigestSize,
}

impl Default for GenerateJwkCommand {
    fn default() -> (r: Self)
        ensures
            r.key_id is None,
            r.algorithm == JwkAlgorithm::EdDSA,
            r.curve == EdCurveType::Ed25519,
            r.rsa_key_size == 2048,
            r.rsa_digest_size == RsaDigestSize::RS256,
    {
        GenerateJwkCommand {
            key_id: None,
            algorithm: JwkAlgorithm::EdDSA,
            curve: EdCurveType::Ed25519,
            rsa_key_size: 2048,
            rsa_digest_size: RsaDigestSize::RS256,
        }
    }
}

} // verus!
