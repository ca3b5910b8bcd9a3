use debug_proxy::{parse_upstream_target, TargetError};
use debug_proxy::target::parse_port;

#[test]
fn test_parse_upstream_target() {
    assert_eq!(
        parse_upstream_target("localhost:3000").unwrap(),
        "localhost:3000"
    );
    assert_eq!(
        parse_upstream_target("192.168.1.1:8080").unwrap(),
        "192.168.1.1:8080"
    );

    assert!(parse_upstream_target("localhost").is_err());
    assert!(parse_upstream_target("localhost:3000:9000").is_err());
    assert!(parse_upstream_target(":3000").is_err());
    assert!(parse_upstream_target("localhost:invalid").is_err());
}

#[test]
fn target_errors_name_the_fault() {
    assert_eq!(parse_upstream_target("localhost"), Err(TargetError::Format));
    assert_eq!(parse_upstream_target("a:1:2"), Err(TargetError::Format));
    assert_eq!(parse_upstream_target(":3000"), Err(TargetError::EmptyHost));
    assert_eq!(parse_upstream_target("host:"), Err(TargetError::InvalidPort));
    assert_eq!(parse_upstream_target("host:65536"), Err(TargetError::InvalidPort));
    assert_eq!(parse_upstream_target("host:-1"), Err(TargetError::InvalidPort));
    assert_eq!(parse_upstream_target("host:65535").unwrap(), "host:65535");
    assert_eq!(TargetError::EmptyHost.message(), "Host part cannot be empty");
}

#[test]
fn port_text_as_std_reads_it() {
    assert_eq!(parse_port("0"), Some(0));
    assert_eq!(parse_port("+80"), Some(80));
    assert_eq!(parse_port("00080"), Some(80));
    assert_eq!(parse_port("65535"), Some(65535));
    assert_eq!(parse_port("99999999999"), None);
    assert_eq!(parse_port("+"), None);
    assert_eq!(parse_port(""), None);
    assert_eq!(parse_port("8 0"), None);
    for p in ["1", "443", "+8080", "0065535", "65536", "x1"] {
        assert_eq!(parse_port(p), p.parse::<u16>().ok());
    }
}
