//! End-to-end tests of the generation command: every emitted document is
//! parsed back as JSON and its fields are checked against the request.

use rswa_cli::cli::CLI;
use rswa_cli::cli::CLISubcommand;
use rswa_cli::cli::GenerateCommand;
use rswa_cli::cli::GenerateSubcommand;
use rswa_cli::command::CliError;
use rswa_cli::params::EdCurveType;
use rswa_cli::params::GenerateJwkCommand;
use rswa_cli::params::JwkAlgorithm;
use rswa_cli::params::RsaDigestSize;

fn parse_doc(text: &str) -> serde_json::Map<String, serde_json::Value> {
    let value: serde_json::Value = serde_json::from_str(text).expect("emitted document must be valid JSON");
    value.as_object().expect("emitted document must be a JSON object").clone()
}

fn field_names(doc: &serde_json::Map<String, serde_json::Value>) -> Vec<String> {
    doc.keys().cloned().collect()
}

fn str_field<'a>(doc: &'a serde_json::Map<String, serde_json::Value>, name: &str) -> &'a str {
    doc.get(name)
        .unwrap_or_else(|| panic!("field {} missing", name))
        .as_str()
        .unwrap_or_else(|| panic!("field {} is not a string", name))
}

#[test]
fn default_request_yields_okp_ed25519() {
    let req = GenerateJwkCommand::default();
    let text = req.execute().expect("default generation must succeed");
    let doc = parse_doc(&text);
    assert_eq!(str_field(&doc, "kty"), "OKP");
    assert_eq!(str_field(&doc, "crv"), "Ed25519");
    assert_eq!(str_field(&doc, "use"), "sig");
    assert_eq!(str_field(&doc, "alg"), "EdDSA");
    assert!(!doc.contains_key("kid"));
    assert_eq!(field_names(&doc), vec!["kty", "use", "alg", "crv", "d", "x"]);
}

#[test]
fn ed448_request_yields_ed448_curve() {
    let req = GenerateJwkCommand { curve: EdCurveType::Ed448, ..GenerateJwkCommand::default() };
    let text = req.execute().expect("ed448 generation must succeed");
    let doc = parse_doc(&text);
    assert_eq!(str_field(&doc, "kty"), "OKP");
    assert_eq!(str_field(&doc, "crv"), "Ed448");
}

#[test]
fn rsa_request_yields_rsa_2048() {
    let req = GenerateJwkCommand { algorithm: JwkAlgorithm::RSA, ..GenerateJwkCommand::default() };
    let text = req.execute().expect("rsa generation must succeed");
    let doc = parse_doc(&text);
    assert_eq!(str_field(&doc, "kty"), "RSA");
    assert_eq!(str_field(&doc, "alg"), "RS256");
    // A 2048-bit modulus is 256 bytes, which base64url encodes without
    // padding into 342 characters.
    assert_eq!(str_field(&doc, "n").len(), 342);
    assert_eq!(str_field(&doc, "e"), "AQAB");
    assert_eq!(
        field_names(&doc),
        vec!["kty", "alg", "n", "e", "d", "p", "q", "dp", "dq", "qi"]
    );
}

#[test]
fn rsa_modulus_length_follows_requested_bit_size() {
    let req = GenerateJwkCommand {
        algorithm: JwkAlgorithm::RSA,
        rsa_key_size: 3072,
        ..GenerateJwkCommand::default()
    };
    let doc = parse_doc(&req.execute().expect("rsa generation must succeed"));
    // A 3072-bit modulus is 384 bytes, which base64url encodes without
    // padding into 512 characters.
    assert_eq!(str_field(&doc, "n").len(), 512);
}

#[test]
fn every_supported_combination_succeeds_with_matching_kty() {
    for curve in [EdCurveType::Ed25519, EdCurveType::Ed448] {
        let req = GenerateJwkCommand {
            algorithm: JwkAlgorithm::EdDSA,
            curve,
            ..GenerateJwkCommand::default()
        };
        let doc = parse_doc(&req.execute().expect("eddsa generation must succeed"));
        assert_eq!(str_field(&doc, "kty"), "OKP");
    }
    for digest in [RsaDigestSize::RS256, RsaDigestSize::RS384, RsaDigestSize::RS512] {
        let req = GenerateJwkCommand {
            algorithm: JwkAlgorithm::RSA,
            rsa_digest_size: digest,
            ..GenerateJwkCommand::default()
        };
        let doc = parse_doc(&req.execute().expect("rsa generation must succeed"));
        assert_eq!(str_field(&doc, "kty"), "RSA");
        let expected = match digest {
            RsaDigestSize::RS256 => "RS256",
            RsaDigestSize::RS384 => "RS384",
            RsaDigestSize::RS512 => "RS512",
        };
        assert_eq!(str_field(&doc, "alg"), expected);
    }
}

#[test]
fn key_id_is_stamped_verbatim_for_both_algorithms() {
    for algorithm in [JwkAlgorithm::EdDSA, JwkAlgorithm::RSA] {
        let req = GenerateJwkCommand {
            key_id: Some(String::from("foo")),
            algorithm,
            ..GenerateJwkCommand::default()
        };
        let doc = parse_doc(&req.execute().expect("generation must succeed"));
        assert_eq!(str_field(&doc, "kid"), "foo");
        assert_eq!(field_names(&doc).last().map(String::as_str), Some("kid"));
    }
}

#[test]
fn omitted_key_id_emits_no_kid_field() {
    for algorithm in [JwkAlgorithm::EdDSA, JwkAlgorithm::RSA] {
        let req = GenerateJwkCommand { algorithm, ..GenerateJwkCommand::default() };
        let doc = parse_doc(&req.execute().expect("generation must succeed"));
        assert!(!doc.contains_key("kid"));
    }
}

#[test]
fn no_cross_algorithm_field_leakage() {
    let ed_doc = parse_doc(
        &GenerateJwkCommand::default().execute().expect("eddsa generation must succeed"),
    );
    for name in ["n", "e", "p", "q", "dp", "dq", "qi"] {
        assert!(!ed_doc.contains_key(name), "eddsa document leaked rsa field {}", name);
    }
    let rsa_req =
        GenerateJwkCommand { algorithm: JwkAlgorithm::RSA, ..GenerateJwkCommand::default() };
    let rsa_doc = parse_doc(&rsa_req.execute().expect("rsa generation must succeed"));
    for name in ["crv", "x", "use"] {
        assert!(!rsa_doc.contains_key(name), "rsa document leaked eddsa field {}", name);
    }
}

#[test]
fn repeated_invocations_share_layout_but_not_key_material() {
    let req = GenerateJwkCommand {
        key_id: Some(String::from("stable")),
        ..GenerateJwkCommand::default()
    };
    let doc1 = parse_doc(&req.execute().expect("generation must succeed"));
    let doc2 = parse_doc(&req.execute().expect("generation must succeed"));
    assert_eq!(field_names(&doc1), field_names(&doc2));
    assert_eq!(str_field(&doc1, "kid"), str_field(&doc2, "kid"));
    assert_ne!(str_field(&doc1, "d"), str_field(&doc2, "d"));
    assert_ne!(str_field(&doc1, "x"), str_field(&doc2, "x"));
}

#[test]
fn rendered_text_is_pretty_printed_with_two_space_indent() {
    let text = GenerateJwkCommand::default().execute().expect("generation must succeed");
    assert!(text.starts_with("{\n  \"kty\": \"OKP\""));
    assert!(text.ends_with("}"));
}

#[test]
fn rsa_key_size_below_2048_fails_before_any_generation() {
    let req = GenerateJwkCommand {
        algorithm: JwkAlgorithm::RSA,
        rsa_key_size: 1024,
        ..GenerateJwkCommand::default()
    };
    match req.execute() {
        Err(CliError::RsaGeneration { .. }) => {},
        other => panic!("expected an rsa generation error, got {:?}", other),
    }
}

#[test]
fn error_messages_name_the_failing_step() {
    let rsa = CliError::RsaGeneration { cause: String::from("boom") };
    assert_eq!(rsa.message(), "unable to generate rsa keypair: boom");
    let ed = CliError::EddsaGeneration {
        curve: EdCurveType::Ed448,
        cause: String::from("boom"),
    };
    assert_eq!(
        ed.message(),
        "unable to generate eddsa keypair with curve Ed448: boom"
    );
    let enc = CliError::Encoding { cause: String::from("boom") };
    assert_eq!(enc.message(), "unable to serialize jwk to json: boom");
}

#[test]
fn cli_dispatch_reaches_the_jwk_command() {
    let cli = CLI {
        command: CLISubcommand::Generate(GenerateCommand {
            command: GenerateSubcommand::Jwk(GenerateJwkCommand::default()),
        }),
    };
    let doc = parse_doc(&cli.execute().expect("dispatch must reach generation"));
    assert_eq!(str_field(&doc, "kty"), "OKP");
}
