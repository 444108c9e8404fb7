use ryu_research::guard::{constant_time_eq, listen_port, require_ext_token, serves_mcp};

#[test]
fn ct_eq_matches_only_identical_bytes() {
    assert!(constant_time_eq(b"secret-token", b"secret-token"));
    assert!(!constant_time_eq(b"secret-token", b"secret-toke"));
    assert!(!constant_time_eq(b"secret-token", b"wrong-token!"));
    assert!(!constant_time_eq(b"", b"x"));
    assert!(constant_time_eq(b"", b""));
}

#[test]
fn no_token_configured_rejects_all_fail_closed() {
    assert!(!require_ext_token(None, Some("Bearer anything")));
    assert!(!require_ext_token(None, None));
}

#[test]
fn correct_bearer_passes_wrong_and_missing_rejected() {
    let guard = |header: Option<&str>| require_ext_token(Some("s3cr3t"), header);
    assert!(guard(Some("Bearer s3cr3t")));
    assert!(!guard(Some("Bearer nope")));
    assert!(!guard(None));
    assert!(!guard(Some("Basic s3cr3t")));
    assert!(!guard(Some("bearer s3cr3t")));
}

#[test]
fn bearer_value_is_trimmed_before_compare() {
    assert!(require_ext_token(Some("tok"), Some("Bearer   tok  ")));
}

#[test]
fn the_port_falls_back_to_the_default() {
    assert_eq!(listen_port(Some(" 8123 ")), 8123);
    assert_eq!(listen_port(Some("99999")), 7995);
    assert_eq!(listen_port(Some("")), 7995);
    assert_eq!(listen_port(None), 7995);
}

#[test]
fn only_the_subcommand_serves_over_stdio() {
    assert!(serves_mcp(Some("mcp")));
    assert!(!serves_mcp(Some("MCP")));
    assert!(!serves_mcp(None));
}
