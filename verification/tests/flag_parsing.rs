//! Tests of the flag-parsing layer: enumerated values outside their sets
//! and malformed key sizes are rejected before any key material is made.

use rswa_cli::params::EdCurveType;
use rswa_cli::params::JwkAlgorithm;
use rswa_cli::params::RsaDigestSize;
use rswa_cli::text::parse_u16;
use rswa_cli::text::str_eq;

#[test]
fn algorithm_flag_accepts_only_its_two_values() {
    assert_eq!(JwkAlgorithm::from_flag("eddsa"), Some(JwkAlgorithm::EdDSA));
    assert_eq!(JwkAlgorithm::from_flag("rsa"), Some(JwkAlgorithm::RSA));
    assert_eq!(JwkAlgorithm::from_flag("blah"), None);
    assert_eq!(JwkAlgorithm::from_flag("RSA"), None);
    assert_eq!(JwkAlgorithm::from_flag(""), None);
}

#[test]
fn curve_flag_accepts_only_its_two_values() {
    assert_eq!(EdCurveType::from_flag("ed25519"), Some(EdCurveType::Ed25519));
    assert_eq!(EdCurveType::from_flag("ed448"), Some(EdCurveType::Ed448));
    assert_eq!(EdCurveType::from_flag("p256"), None);
    assert_eq!(EdCurveType::from_flag("Ed25519"), None);
}

#[test]
fn digest_size_flag_accepts_only_its_three_values() {
    assert_eq!(RsaDigestSize::from_flag("256"), Some(RsaDigestSize::RS256));
    assert_eq!(RsaDigestSize::from_flag("384"), Some(RsaDigestSize::RS384));
    assert_eq!(RsaDigestSize::from_flag("512"), Some(RsaDigestSize::RS512));
    assert_eq!(RsaDigestSize::from_flag("128"), None);
    assert_eq!(RsaDigestSize::from_flag(""), None);
}

#[test]
fn defaults_match_the_documented_flag_table() {
    assert_eq!(JwkAlgorithm::default(), JwkAlgorithm::EdDSA);
    assert_eq!(EdCurveType::default(), EdCurveType::Ed25519);
    assert_eq!(RsaDigestSize::default(), RsaDigestSize::RS256);
}

#[test]
fn key_size_parsing_covers_the_u16_range_exactly() {
    assert_eq!(parse_u16("2048"), Some(2048));
    assert_eq!(parse_u16("0"), Some(0));
    assert_eq!(parse_u16("65535"), Some(65535));
    assert_eq!(parse_u16("65536"), None);
    assert_eq!(parse_u16("99999999999999999999"), None);
    assert_eq!(parse_u16(""), None);
    assert_eq!(parse_u16("20x8"), None);
    assert_eq!(parse_u16("-1"), None);
}

#[test]
fn string_equality_follows_characters() {
    assert!(str_eq("eddsa", "eddsa"));
    assert!(!str_eq("eddsa", "eddsb"));
    assert!(!str_eq("eddsa", "edds"));
    assert!(str_eq("", ""));
}
