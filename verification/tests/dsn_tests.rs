use peregrine::dsn::{read_env_value, validate_dsn};

#[test]
fn standard_dsn_is_accepted() {
    assert_eq!(validate_dsn("https://abc123@glitchtip.example.com/7"), Ok(()));
    assert_eq!(validate_dsn("  http://k@h/1\n"), Ok(()));
}

#[test]
fn malformed_dsns_are_rejected_with_reasons() {
    assert_eq!(validate_dsn("   "), Err("empty".to_string()));
    assert_eq!(
        validate_dsn("https://glitchtip.example.com/api/7/security/"),
        Err("expected exactly 1 '@' separator, found 0 (标准格式为 https://<key>@<host>/<id>)".to_string())
    );
    assert_eq!(
        validate_dsn("https://a@b@c/1"),
        Err("expected exactly 1 '@' separator, found 2 (标准格式为 https://<key>@<host>/<id>)".to_string())
    );
    assert_eq!(validate_dsn("ftp://k@h/1"), Err("must start with http:// or https://".to_string()));
    assert_eq!(
        validate_dsn("https://k@h/api/1/security/?glitchtip_key=x"),
        Err("contains '?' query string (疑似 GlitchTip Key URL 而非标准 Sentry DSN)".to_string())
    );
}

#[test]
fn env_values_are_read_from_key_lines() {
    let content = "# comment\n\nOTHER=1\nGLITCHTIP_DSN_TEST =  \nGLITCHTIP_DSN_TEST = https://k@h/2 \r\nGLITCHTIP_DSN_TEST=late\n";
    assert_eq!(read_env_value(content, "GLITCHTIP_DSN_TEST"), Some("https://k@h/2".to_string()));
    assert_eq!(read_env_value(content, "OTHER"), Some("1".to_string()));
    assert_eq!(read_env_value(content, "MISSING"), None);
    assert_eq!(read_env_value("", "OTHER"), None);
    assert_eq!(read_env_value("#OTHER=1\nnoequals\n", "OTHER"), None);
}
