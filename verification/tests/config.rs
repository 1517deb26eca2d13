//! Configuration assembly: port parsing, listen address, URL validation.

use msr_api_rs::config::Config;
use msr_api_rs::error::AppError;
use msr_api_rs::text::parse_u16;

#[test]
fn server_addr_formats_the_port() {
    let cfg = Config { server_port: 8080, remote_base: "https://example.com".to_string() };
    assert_eq!(cfg.server_addr(), "0.0.0.0:8080");
    let cfg = Config { server_port: 7, remote_base: "https://example.com".to_string() };
    assert_eq!(cfg.server_addr(), "0.0.0.0:7");
    let cfg = Config { server_port: 65535, remote_base: "https://example.com".to_string() };
    assert_eq!(cfg.server_addr(), "0.0.0.0:65535");
}

#[test]
fn parse_u16_accepts_ports_and_rejects_the_rest() {
    assert_eq!(parse_u16("8080"), Some(8080));
    assert_eq!(parse_u16("0"), Some(0));
    assert_eq!(parse_u16("070"), Some(70));
    assert_eq!(parse_u16("65535"), Some(65535));
    assert_eq!(parse_u16("65536"), None);
    assert_eq!(parse_u16("99999999"), None);
    assert_eq!(parse_u16(""), None);
    assert_eq!(parse_u16("80a"), None);
    assert_eq!(parse_u16("-1"), None);
    assert_eq!(parse_u16(" 80"), None);
}

#[test]
fn parse_u16_takes_one_optional_leading_plus() {
    assert_eq!(parse_u16("+80"), Some(80));
    assert_eq!(parse_u16("+0"), Some(0));
    assert_eq!(parse_u16("+65535"), Some(65535));
    assert_eq!(parse_u16("+65536"), None);
    assert_eq!(parse_u16("+"), None);
    assert_eq!(parse_u16("++80"), None);
    assert_eq!(parse_u16("80+"), None);
}

#[test]
fn from_parts_applies_defaults() {
    let cfg = Config::from_parts(None, None).unwrap();
    assert_eq!(cfg.server_port, 8080);
    assert_eq!(cfg.remote_base, "https://monster-siren.hypergryph.com/api");
}

#[test]
fn from_parts_takes_given_values() {
    let cfg =
        Config::from_parts(Some("9000".to_string()), Some("https://example.com/api".to_string()))
            .unwrap();
    assert_eq!(cfg.server_port, 9000);
    assert_eq!(cfg.remote_base, "https://example.com/api");
}

#[test]
fn from_parts_takes_a_plus_signed_port() {
    let cfg = Config::from_parts(Some("+80".to_string()), None).unwrap();
    assert_eq!(cfg.server_port, 80);
}

#[test]
fn from_parts_rejects_a_bad_port() {
    let r = Config::from_parts(Some("not-a-number".to_string()), None);
    match r {
        Err(AppError::Config(m)) => assert_eq!(m, "SERVER_PORT must be a valid port number"),
        _ => panic!("an unparsable port must be a configuration error"),
    }
    let r = Config::from_parts(Some("65536".to_string()), None);
    assert!(matches!(r, Err(AppError::Config(_))));
}

#[test]
fn from_parts_rejects_a_malformed_base_url() {
    let r = Config::from_parts(None, Some("not a url".to_string()));
    match r {
        Err(AppError::Config(m)) => assert_eq!(m, "REMOTE_BASE must be a well-formed URL"),
        _ => panic!("a malformed base URL must be a configuration error"),
    }
}
