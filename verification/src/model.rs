//! The mathematical model of a JWK document: a sequence of fields in
//! insertion order, each a (name, value) pair of character strings, and
//! the shapes that generation gives it for each algorithm.

use vstd::prelude::*;

use crate::params::EdCurveType;
use crate::params::GenerateJwkCommand;
use crate::params::JwkAlgorithm;
use crate::params::RsaDigestSize;

verus! {

/// One field of a JWK document: its name and its string value.
pub type JwkField = (Seq<char>, Seq<char>);

/// The JWK name of a curve, as it appears in the `crv` field.
pub open spec fn curve_name(c: EdCurveType) -> Seq<char> {
    match c {
        EdCurveType::Ed25519 => "Ed25519"@,
        EdCurveType::Ed448 => "Ed448"@,
    }
}

/// The JWK key type for an algorithm, as it appears in the `kty` field.
pub open spec fn kty_name(a: JwkAlgorithm) -> Seq<char> {
    match a {
        JwkAlgorithm::RSA => "RSA"@,
        JwkAlgorithm::EdDSA => "OKP"@,
    }
}

/// The RSA signature-algorithm tag for a digest size, as it appears in
/// the `alg` field.
pub open spec fn rsa_alg_name(d: RsaDigestSize) -> Seq<char> {
    match d {
        RsaDigestSize::RS256 => "RS256"@,
        RsaDigestSize::RS384 => "RS384"@,
        RsaDigestSize::RS512 => "RS512"@,
    }
}

/// How many bytes the minimal big-endian encoding of a modulus of `bits`
/// bits occupies.
pub open spec fn modulus_bytes(bits: nat) -> nat {
    (bits + 7) / 8
}

/// The length of the unpadded base64url encoding of `bytes` bytes.
pub open spec fn b64url_len(bytes: nat) -> nat {
    4 * (bytes / 3) + (if bytes % 3 == 0 {
        0nat
    } else if bytes % 3 == 1 {
        2nat
    } else {
        3nat
    })
}

/// The names of a document's fields, in order.
pub open spec fn field_names(fields: Seq<JwkField>) -> Seq<Seq<char>> {
    fields.map(|i: int, f: JwkField| f.0)
}

/// The fields of a freshly generated EdDSA key pair on curve `c`: key
/// type, use, algorithm tag, curve, then the private and public
/// coordinates, in exactly this order.
pub open spec fn ed_key_fields(fields: Seq<JwkField>, c: EdCurveType) -> bool {
    &&& fields.len() == 6
    &&& fields[0] == ("kty"@, "OKP"@)
    &&& fields[1] == ("use"@, "sig"@)
    &&& fields[2] == ("alg"@, "EdDSA"@)
    &&& fields[3] == ("crv"@, curve_name(c))
    &&& fields[4].0 == "d"@
    &&& fields[5].0 == "x"@
}

/// The fields of a freshly generated RSA key pair of `bits` bits tagged
/// for digest size `d`: key type, algorithm tag, then modulus, public
/// exponent and the private-exponent family, in exactly this order, the
/// modulus encoded from exactly `bits` bits.
pub open spec fn rsa_key_fields(fields: Seq<JwkField>, d: RsaDigestSize, bits: u16) -> bool {
    &&& fields.len() == 10
    &&& fields[0] == ("kty"@, "RSA"@)
    &&& fields[1] == ("alg"@, rsa_alg_name(d))
    &&& fields[2].0 == "n"@
    &&& fields[2].1.len() == b64url_len(modulus_bytes(bits as nat))
    &&& fields[3].0 == "e"@
    &&& fields[4].0 == "d"@
    &&& fields[5].0 == "p"@
    &&& fields[6].0 == "q"@
    &&& fields[7].0 == "dp"@
    &&& fields[8].0 == "dq"@
    &&& fields[9].0 == "qi"@
}

/// The fields a generated key pair has for the request, before any key id
/// is stamped: the shape is decided by the algorithm alone.
pub open spec fn generated_fields(fields: Seq<JwkField>, req: GenerateJwkCommand) -> bool {
    match req.algorithm {
        JwkAlgorithm::EdDSA => ed_key_fields(fields, req.curve),
        JwkAlgorithm::RSA => rsa_key_fields(fields, req.rsa_digest_size, req.rsa_key_size),
    }
}

/// The fields of the finished document for the request: the generated
/// fields, with a `kid` field appended at the end exactly when a key id
/// was supplied.
pub open spec fn document_fields(fields: Seq<JwkField>, req: GenerateJwkCommand) -> bool {
    match req.key_id {
        None => generated_fields(fields, req),
        Some(k) => {
            &&& fields.len() > 0
            &&& generated_fields(fields.drop_last(), req)
            &&& fields.last() == ("kid"@, k@)
        },
    }
}

/// No freshly generated key pair carries a `kid` field: generation only
/// ever lays down the fixed names of its algorithm's shape.
pub proof fn lemma_generated_has_no_kid(fields: Seq<JwkField>, req: GenerateJwkCommand)
    requires
        generated_fields(fields, req),
    ensures
        forall|i: int| 0 <= i < fields.len() ==> (#[trigger] fields[i]).0 != "kid"@,
{
    reveal_strlit("kid");
    reveal_strlit("kty");
    reveal_strlit("use");
    reveal_strlit("alg");
    reveal_strlit("crv");
    reveal_strlit("d");
    reveal_strlit("x");
    reveal_strlit("n");
    reveal_strlit("e");
    reveal_strlit("p");
    reveal_strlit("q");
    reveal_strlit("dp");
    reveal_strlit("dq");
    reveal_strlit("qi");
    assert forall|i: int| 0 <= i < fields.len() implies (#[trigger] fields[i]).0 != "kid"@ by {
        assert("kid"@.len() == 3);
        assert("kid"@[1] == 'i');
    }
}

} // verus!
