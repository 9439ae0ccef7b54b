use ccp_example_alg::config::make_args;
use ccp_example_alg::config::parse_u32_decimal;
use ccp_example_alg::CcpExampleConfigEnum;
use ccp_example_alg::ConfigError;

#[test]
fn rate_target_parses() {
    let cfg = make_args(Some("125000"), None, true).unwrap();
    assert_eq!(cfg.set, CcpExampleConfigEnum::Rate(125000));
    assert!(cfg.perack);
}

#[test]
fn cwnd_target_parses() {
    let cfg = make_args(None, Some("20000"), false).unwrap();
    assert_eq!(cfg.set, CcpExampleConfigEnum::Cwnd(20000));
    assert!(!cfg.perack);
}

#[test]
fn leading_plus_sign_accepted() {
    let cfg = make_args(Some("+42"), None, false).unwrap();
    assert_eq!(cfg.set, CcpExampleConfigEnum::Rate(42));
}

#[test]
fn neither_target_rejected() {
    assert_eq!(make_args(None, None, false), Err(ConfigError::MissingTarget));
}

#[test]
fn both_targets_rejected() {
    assert_eq!(
        make_args(Some("1"), Some("2"), false),
        Err(ConfigError::ConflictingTargets)
    );
}

#[test]
fn malformed_number_rejected() {
    assert_eq!(
        make_args(Some("12x3"), None, false),
        Err(ConfigError::InvalidNumber)
    );
    assert_eq!(
        make_args(None, Some(""), false),
        Err(ConfigError::InvalidNumber)
    );
    assert_eq!(
        make_args(Some("-5"), None, false),
        Err(ConfigError::InvalidNumber)
    );
}

#[test]
fn number_range_boundary() {
    let cfg = make_args(Some("4294967295"), None, false).unwrap();
    assert_eq!(cfg.set, CcpExampleConfigEnum::Rate(u32::MAX));
    assert_eq!(
        make_args(Some("4294967296"), None, false),
        Err(ConfigError::InvalidNumber)
    );
}

#[test]
fn decimal_parser_basics() {
    assert_eq!(parse_u32_decimal(b"0"), Some(0));
    assert_eq!(parse_u32_decimal(b"007"), Some(7));
    assert_eq!(parse_u32_decimal(b"+7"), Some(7));
    assert_eq!(parse_u32_decimal(b""), None);
    assert_eq!(parse_u32_decimal(b"+"), None);
    assert_eq!(parse_u32_decimal(b" 7"), None);
    assert_eq!(parse_u32_decimal(b"99999999999"), None);
}
