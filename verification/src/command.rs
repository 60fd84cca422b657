//! The generation command: dispatch on the algorithm, stamping of the
//! optional key id, and rendering of the finished document, with the
//! error type every failure surfaces as.

use vstd::prelude::*;
use vstd::string::StringExecFns;

use crate::keygen::gen_ed_jwk;
use crate::keygen::gen_rsa_jwk;
use crate::keygen::jose_error_text;
use crate::keygen::json_error_text;
use crate::keygen::jwk_fields;
use crate::keygen::pretty_json_of;
use crate::keygen::render_pretty;
use crate::keygen::stamp_key_id;
use crate::model::JwkField;
use crate::model::curve_name;
use crate::model::document_fields;
use crate::model::ed_key_fields;
use crate::model::lemma_generated_has_no_kid;
use crate::model::rsa_key_fields;
use crate::params::EdCurveType;
use crate::params::GenerateJwkCommand;
use crate::params::JwkAlgorithm;

verus! {

/// A fatal failure of one invocation: generation failed, or the finished
/// document could not be rendered as JSON. Each variant carries the text
/// of the underlying cause.
#[derive(Debug)]
pub enum CliError {
    EddsaGeneration { curve: EdCurveType, cause: String },
    RsaGeneration { cause: String },
    Encoding { cause: String },
}

impl CliError {
    /// The message of this error, naming what failed and the underlying
    /// cause, exactly as printed at the process boundary.
    pub fn message(&self) -> (r: String)
        ensures
            r@ == match self {
                CliError::EddsaGeneration { curve, cause } => "unable to generate eddsa keypair with curve "@
                    + curve_name(*curve) + ": "@ + cause@,
                CliError::RsaGeneration { cause } => "unable to generate rsa keypair: "@ + cause@,
                CliError::Encoding { cause } => "unable to serialize jwk to json: "@ + cause@,
            },
    {
        match self {
            CliError::EddsaGeneration { curve, cause } => {
                let mut s = "unable to generate eddsa keypair with curve ".to_owned();
                let cn = match curve {
                    EdCurveType::Ed25519 => "Ed25519",
                    EdCurveType::Ed448 => "Ed448",
                };
                s.append(cn);
                s.append(": ");
                s.append(cause.as_str());
                s
            },
            CliError::RsaGeneration { cause } => {
                let mut s = "unable to generate rsa keypair: ".to_owned();
                s.append(cause.as_str());
                s
            },
            CliError::Encoding { cause } => {
                let mut s = "unable to serialize jwk to json: ".to_owned();
                s.append(cause.as_str());
                s
            },
        }
    }
}

/// What one invocation of the generation command returns: a rendered
/// document whose fields fit the request, or an error naming the
/// generation branch that failed; rendering a well-formed key pair never
/// fails, so no invocation ends in an encoding error, and an RSA request
/// under 2048 bits always fails.
pub open spec fn execute_post(req: GenerateJwkCommand, r: Result<String, CliError>) -> bool {
    &&& (r matches Ok(s) ==> exists|fields: Seq<JwkField>|
        document_fields(fields, req) && s@ == #[trigger] pretty_json_of(fields))
    &&& (r matches Err(e) ==> match e {
        CliError::EddsaGeneration { curve, .. } => req.algorithm is EdDSA && curve == req.curve,
        CliError::RsaGeneration { .. } => req.algorithm is RSA,
        CliError::Encoding { .. } => false,
    })
    &&& (req.algorithm is RSA && req.rsa_key_size < 2048 ==> r is Err)
}

impl GenerateJwkCommand {
    /// Generates an EdDSA key pair on the request's curve; a failure of
    /// the underlying generator is reported with the curve attempted.
    fn gen_eddsa_key(&self) -> (r: Result<josekit::jwk::Jwk, CliError>)
        ensures
            r matches Ok(j) ==> ed_key_fields(jwk_fields(j), self.curve),
            r matches Err(e) ==> e matches CliError::EddsaGeneration { curve, .. }
                && curve == self.curve,
    {
        match gen_ed_jwk(&self.curve) {
            Ok(j) => Ok(j),
            Err(e) => Err(
                CliError::EddsaGeneration { curve: self.curve, cause: jose_error_text(&e) },
            ),
        }
    }

    /// Generates an RSA key pair of the request's bit length, through the
    /// signature-algorithm variant the digest size selects; bit lengths
    /// under 2048 are always refused.
    fn gen_rsa_key(&self) -> (r: Result<josekit::jwk::Jwk, CliError>)
        ensures
            r matches Ok(j) ==> rsa_key_fields(
                jwk_fields(j),
                self.rsa_digest_size,
                self.rsa_key_size,
            ),
            r matches Err(e) ==> e is RsaGeneration,
            self.rsa_key_size < 2048 ==> r is Err,
    {
        match gen_rsa_jwk(&self.rsa_digest_size, self.rsa_key_size) {
            Ok(j) => Ok(j),
            Err(e) => Err(CliError::RsaGeneration { cause: jose_error_text(&e) }),
        }
    }

    /// One invocation: generate a key pair for the request, stamp the key
    /// id if one was supplied, and render the document as pretty-printed
    /// JSON.
    pub fn execute(&self) -> (r: Result<String, CliError>)
        ensures
            execute_post(*self, r),
    {
        let keypair_r = match self.algorithm {
            JwkAlgorithm::EdDSA => self.gen_eddsa_key(),
            JwkAlgorithm::RSA => self.gen_rsa_key(),
        };
        let mut keypair = match keypair_r {
            Ok(j) => j,
            Err(e) => {
                return Err(e);
            },
        };
        if let Some(key_id) = &self.key_id {
            proof {
                lemma_generated_has_no_kid(jwk_fields(keypair), *self);
            }
            let ghost base = jwk_fields(keypair);
            stamp_key_id(&mut keypair, key_id.as_str());
            proof {
                assert(jwk_fields(keypair).drop_last() =~= base);
            }
        }
        match render_pretty(&keypair) {
            Ok(s) => {
                proof {
                    assert(document_fields(jwk_fields(keypair), *self) && s@ == pretty_json_of(
                        jwk_fields(keypair),
                    ));
                }
                Ok(s)
            },
            Err(e) => Err(CliError::Encoding { cause: json_error_text(&e) }),
        }
    }
}

} // verus!
