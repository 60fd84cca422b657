//! Laws of the emitted documents, proved over the model every contract
//! speaks in: which fields a document may carry, how the key id appears,
//! and what two invocations with identical flags share.

use vstd::prelude::*;

use crate::model::JwkField;
use crate::model::b64url_len;
use crate::model::document_fields;
use crate::model::field_names;
use crate::model::kty_name;
use crate::model::modulus_bytes;
use crate::model::lemma_generated_has_no_kid;
use crate::params::GenerateJwkCommand;

verus! {

/// A field name that appears only in RSA documents.
pub open spec fn rsa_only_name(n: Seq<char>) -> bool {
    ||| n == "n"@
    ||| n == "e"@
    ||| n == "p"@
    ||| n == "q"@
    ||| n == "dp"@
    ||| n == "dq"@
    ||| n == "qi"@
}

/// A field name that appears only in EdDSA documents.
pub open spec fn ed_only_name(n: Seq<char>) -> bool {
    ||| n == "crv"@
    ||| n == "x"@
    ||| n == "use"@
}

/// The document's `kty` field always stands first and names the
/// requested algorithm: `OKP` for EdDSA, `RSA` for RSA.
pub proof fn lemma_kty_matches_algorithm(fields: Seq<JwkField>, req: GenerateJwkCommand)
    requires
        document_fields(fields, req),
    ensures
        fields.len() > 0,
        fields[0] == ("kty"@, kty_name(req.algorithm)),
{
    if req.key_id is Some {
        assert(fields[0] == fields.drop_last()[0]);
    }
}

/// The key id is stamped exactly when one was supplied: a supplied key
/// id always stands as the last field, `kid`, with its value taken
/// verbatim from the request; without one no `kid` field is emitted.
pub proof fn lemma_key_id_stamping(fields: Seq<JwkField>, req: GenerateJwkCommand)
    requires
        document_fields(fields, req),
    ensures
        req.key_id matches Some(k) ==> fields.last() == ("kid"@, k@),
        req.key_id is None ==> forall|i: int|
            0 <= i < fields.len() ==> (#[trigger] fields[i]).0 != "kid"@,
{
    if req.key_id is None {
        lemma_generated_has_no_kid(fields, req);
    }
}

/// No cross-algorithm field leakage: an EdDSA document never carries an
/// RSA-only field, and an RSA document never carries an EdDSA-only one.
pub proof fn lemma_no_cross_algorithm_fields(fields: Seq<JwkField>, req: GenerateJwkCommand)
    requires
        document_fields(fields, req),
    ensures
        req.algorithm is EdDSA ==> forall|i: int|
            0 <= i < fields.len() ==> !rsa_only_name((#[trigger] fields[i]).0),
        req.algorithm is RSA ==> forall|i: int|
            0 <= i < fields.len() ==> !ed_only_name((#[trigger] fields[i]).0),
{
    reveal_strlit("kid");
    reveal_strlit("kty");
    reveal_strlit("use");
    reveal_strlit("alg");
    reveal_strlit("crv");
    reveal_strlit("d");
    reveal_strlit("x");
    reveal_strlit("n");
    reveal_strlit("e");
    reveal_strlit("p");
    reveal_strlit("q");
    reveal_strlit("dp");
    reveal_strlit("dq");
    reveal_strlit("qi");
    let base = if req.key_id is Some {
        fields.drop_last()
    } else {
        fields
    };
    assert(forall|i: int| 0 <= i < base.len() ==> base[i] == fields[i]);
    if req.algorithm is EdDSA {
        assert forall|i: int| 0 <= i < fields.len() implies !rsa_only_name(
            (#[trigger] fields[i]).0,
        ) by {
            assert("n"@.len() == 1 && "e"@.len() == 1 && "p"@.len() == 1 && "q"@.len() == 1);
            assert("dp"@.len() == 2 && "dq"@.len() == 2 && "qi"@.len() == 2);
            assert("d"@[0] == 'd' && "x"@[0] == 'x');
        }
    } else {
        assert forall|i: int| 0 <= i < fields.len() implies !ed_only_name(
            (#[trigger] fields[i]).0,
        ) by {
            assert("crv"@[0] == 'c' && "x"@[0] == 'x' && "use"@[0] == 'u');
            assert("kty"@[0] == 'k' && "alg"@[0] == 'a' && "kid"@[0] == 'k');
            assert("kty"@[1] == 't' && "kid"@[1] == 'i' && "use"@[1] == 's');
        }
    }
}

/// An RSA document's modulus is sized by the requested bit length: its
/// `n` field holds the base64url text of a modulus of exactly that many
/// bits; for the default 2048-bit request that is 342 characters.
pub proof fn lemma_rsa_modulus_length(fields: Seq<JwkField>, req: GenerateJwkCommand)
    requires
        document_fields(fields, req),
        req.algorithm is RSA,
    ensures
        fields[2].0 == "n"@,
        fields[2].1.len() == b64url_len(modulus_bytes(req.rsa_key_size as nat)),
        req.rsa_key_size == 2048 ==> fields[2].1.len() == 342,
{
    if req.key_id is Some {
        assert(fields[2] == fields.drop_last()[2]);
    }
}

/// Two invocations with identical flags produce structurally identical
/// documents: the same field names in the same order, and, when a key id
/// was supplied, the same `kid` value, determined by the input alone.
pub proof fn lemma_identical_requests_same_layout(
    f1: Seq<JwkField>,
    f2: Seq<JwkField>,
    req: GenerateJwkCommand,
)
    requires
        document_fields(f1, req),
        document_fields(f2, req),
    ensures
        field_names(f1) == field_names(f2),
        req.key_id matches Some(k) ==> f1.last() == ("kid"@, k@) && f2.last() == ("kid"@, k@),
{
    if req.key_id is Some {
        assert(forall|i: int| 0 <= i < f1.len() - 1 ==> f1[i] == #[trigger] f1.drop_last()[i]);
        assert(forall|i: int| 0 <= i < f2.len() - 1 ==> f2[i] == #[trigger] f2.drop_last()[i]);
    }
    assert(field_names(f1) =~= field_names(f2));
}

} // verus!
