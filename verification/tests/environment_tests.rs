use rinha_de_backend::environment::{lookup, parse_u64};

#[test]
fn test_parse_u64_plain_number() {
    assert_eq!(parse_u64("120"), Some(120));
    assert_eq!(parse_u64("0"), Some(0));
    assert_eq!(parse_u64("007"), Some(7));
}

#[test]
fn test_parse_u64_rejects_non_digits() {
    assert_eq!(parse_u64(""), None);
    assert_eq!(parse_u64("12a"), None);
    assert_eq!(parse_u64("-5"), None);
    assert_eq!(parse_u64(" 12"), None);
    assert_eq!(parse_u64("1.5"), None);
    assert_eq!(parse_u64("１２"), None);
}

#[test]
fn test_parse_u64_bounds() {
    assert_eq!(parse_u64("18446744073709551615"), Some(u64::MAX));
    assert_eq!(parse_u64("18446744073709551616"), None);
    assert_eq!(parse_u64("99999999999999999999999"), None);
}

#[test]
fn test_lookup_finds_either_spelling_first_match() {
    let pairs = vec![
        ("other".to_string(), "x".to_string()),
        ("app_server_keepalive".to_string(), "60".to_string()),
        ("APP_SERVER_KEEPALIVE".to_string(), "99".to_string()),
    ];
    assert_eq!(
        lookup(&pairs, "APP_SERVER_KEEPALIVE", "app_server_keepalive"),
        Some("60".to_string())
    );
    assert_eq!(lookup(&pairs, "APP_REDIS_URL", "app_redis_url"), None);
}
