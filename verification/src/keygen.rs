//! The trusted boundary around the cryptographic library and the JSON
//! encoder: the outside types the documents pass through, the name for
//! what a `Jwk` holds, and the wrappers around the calls the generation
//! and encoding steps make.

use vstd::prelude::*;

use josekit::jwk::KeyPair;

use crate::model::JwkField;
use crate::model::ed_key_fields;
use crate::model::rsa_key_fields;
use crate::params::EdCurveType;
use crate::params::RsaDigestSize;

verus! {

#[verifier::external_type_specification]
#[verifier::external_body]
pub struct ExJwk(josekit::jwk::Jwk);

#[verifier::external_type_specification]
#[verifier::external_body]
pub struct ExJoseError(josekit::JoseError);

#[verifier::external_type_specification]
#[verifier::external_body]
pub struct ExJsonError(serde_json::Error);

/// What a `Jwk` holds: its fields in insertion order, each a name and a
/// string value.
pub uninterp spec fn jwk_fields(j: josekit::jwk::Jwk) -> Seq<JwkField>;

/// What `serde_json::to_string_pretty` returns for a document holding the
/// given fields: the text depends on the fields alone.
pub uninterp spec fn pretty_json_of(fields: Seq<JwkField>) -> Seq<char>;

/// Relies on josekit's `EddsaJwsAlgorithm::generate_key_pair`, which tags
/// the pair `EdDSA`, and on `EdKeyPair::to_jwk_key_pair`, which lays the
/// pair out as `kty`, `use`, `alg`, `crv`, `d`, `x` in that order, with
/// `kty = OKP` and `crv` naming the curve generated on.
#[verifier::external_body]
pub(crate) fn gen_ed_jwk(curve: &EdCurveType) -> (r: Result<
    josekit::jwk::Jwk,
    josekit::JoseError,
>)
    ensures
        r matches Ok(j) ==> ed_key_fields(jwk_fields(j), *curve),
{
    let c = match curve {
        EdCurveType::Ed25519 => josekit::jwk::alg::ed::EdCurve::Ed25519,
        EdCurveType::Ed448 => josekit::jwk::alg::ed::EdCurve::Ed448,
    };
    josekit::jws::EdDSA.generate_key_pair(c).map(|k| k.to_jwk_key_pair())
}

/// Relies on josekit's `RsassaJwsAlgorithm::generate_key_pair`, which
/// refuses bit lengths under 2048 and tags the pair `RS256`, `RS384` or
/// `RS512`, and on `RsaKeyPair::to_jwk_key_pair`, which lays the pair out
/// as `kty`, `alg`, `n`, `e`, `d`, `p`, `q`, `dp`, `dq`, `qi` in that
/// order, with `kty = RSA` and `n` the modulus in minimal big-endian
/// bytes, base64url-encoded without padding; openssl generates a modulus
/// of exactly the requested bit length, its top bit set.
#[verifier::external_body]
pub(crate) fn gen_rsa_jwk(digest: &RsaDigestSize, bits: u16) -> (r: Result<
    josekit::jwk::Jwk,
    josekit::JoseError,
>)
    ensures
        r matches Ok(j) ==> rsa_key_fields(jwk_fields(j), *digest, bits),
        bits < 2048 ==> r is Err,
{
    let alg = match digest {
        RsaDigestSize::RS256 => josekit::jws::RS256,
        RsaDigestSize::RS384 => josekit::jws::RS384,
        RsaDigestSize::RS512 => josekit::jws::RS512,
    };
    alg.generate_key_pair(bits.into()).map(|k| k.to_jwk_key_pair())
}

/// Relies on josekit's `Jwk::set_key_id`, which inserts a `kid` field
/// into the document's order-preserving map; on a document without one it
/// appends the field at the end.
#[verifier::external_body]
pub(crate) fn stamp_key_id(j: &mut josekit::jwk::Jwk, kid: &str)
    ensures
        (forall|i: int|
            0 <= i < jwk_fields(*old(j)).len() ==> (#[trigger] jwk_fields(*old(j))[i]).0
                != "kid"@) ==> jwk_fields(*final(j)) == jwk_fields(*old(j)).push(
            ("kid"@, kid@),
        ),
{
    j.set_key_id(kid);
}

/// Relies on `serde_json::to_string_pretty` over the map the `Jwk`
/// exposes through `AsRef`: josekit builds that map order-preserving, so
/// the text is a function of the fields alone; and serializing a
/// string-keyed `Map<String, Value>` into its in-memory buffer cannot
/// fail, so the call always succeeds.
#[verifier::external_body]
pub(crate) fn render_pretty(j: &josekit::jwk::Jwk) -> (r: Result<String, serde_json::Error>)
    ensures
        r is Ok,
        r matches Ok(s) ==> s@ == pretty_json_of(jwk_fields(*j)),
{
    serde_json::to_string_pretty(j.as_ref())
}

/// Relies on the `Display` impl of josekit's `JoseError` for the text of
/// the underlying failure.
#[verifier::external_body]
pub(crate) fn jose_error_text(e: &josekit::JoseError) -> String {
    format!("{}", e)
}

/// Relies on the `Display` impl of `serde_json::Error` for the text of
/// the underlying failure.
#[verifier::external_body]
pub(crate) fn json_error_text(e: &serde_json::Error) -> String {
    format!("{}", e)
}

} // verus!
