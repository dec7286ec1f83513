use tcpproxy::{bind_address, parse_i32, Config, ConfigError};

fn strings(v: &[&str]) -> Vec<String> {
    v.iter().map(|s| s.to_string()).collect()
}

#[test]
fn ipv4_host_is_joined_with_colon() {
    assert_eq!(bind_address("127.0.0.1", 8080), "127.0.0.1:8080");
    assert_eq!(bind_address("127.0.0.1", 0), "127.0.0.1:0");
}

#[test]
fn ipv6_host_is_bracketed() {
    assert_eq!(bind_address("::1", 9001), "[::1]:9001");
    assert_eq!(bind_address("fe80::1:2", 65535), "[fe80::1:2]:65535");
}

#[test]
fn bracketed_host_is_left_alone() {
    assert_eq!(bind_address("[::1]", 7), "[::1]:7");
}

#[test]
fn host_name_and_negative_port() {
    assert_eq!(bind_address("localhost", -1), "localhost:-1");
    assert_eq!(bind_address("", 10), ":10");
    assert_eq!(bind_address("h", i32::MIN), "h:-2147483648");
    assert_eq!(bind_address("h", i32::MAX), "h:2147483647");
}

#[test]
fn parses_decimal_integers() {
    assert_eq!(parse_i32("0"), Some(0));
    assert_eq!(parse_i32("8080"), Some(8080));
    assert_eq!(parse_i32("+5"), Some(5));
    assert_eq!(parse_i32("-17"), Some(-17));
    assert_eq!(parse_i32("-0"), Some(0));
    assert_eq!(parse_i32("007"), Some(7));
    assert_eq!(parse_i32("2147483647"), Some(i32::MAX));
    assert_eq!(parse_i32("-2147483648"), Some(i32::MIN));
    assert_eq!(parse_i32("00000000000000000000042"), Some(42));
}

#[test]
fn rejects_what_is_not_an_i32() {
    assert_eq!(parse_i32(""), None);
    assert_eq!(parse_i32("+"), None);
    assert_eq!(parse_i32("-"), None);
    assert_eq!(parse_i32("12a"), None);
    assert_eq!(parse_i32(" 12"), None);
    assert_eq!(parse_i32("1-2"), None);
    assert_eq!(parse_i32("2147483648"), None);
    assert_eq!(parse_i32("-2147483649"), None);
    assert_eq!(parse_i32("99999999999999999999"), None);
    assert_eq!(parse_i32("99999999999x"), None);
}

#[test]
fn parse_agrees_with_std() {
    for s in ["1", "-1", "+0", "65535", "2147483647", "2147483648", "-", "x", "4294967296", "-2147483648"] {
        assert_eq!(parse_i32(s), s.parse::<i32>().ok(), "{}", s);
    }
}

#[test]
fn config_defaults() {
    let c = Config::from_args(strings(&["example.com:80"]), None, None, false).unwrap();
    assert_eq!(c.bind_ip, "127.0.0.1");
    assert_eq!(c.local_port, 0);
    assert_eq!(c.remote, "example.com:80");
    assert!(!c.verbose);
}

#[test]
fn config_with_options() {
    let c = Config::from_args(
        strings(&["10.0.0.1:9001"]),
        Some("::".to_string()),
        Some("4000".to_string()),
        true,
    )
    .unwrap();
    assert_eq!(c.bind_ip, "::");
    assert_eq!(c.local_port, 4000);
    assert!(c.verbose);
}

#[test]
fn config_needs_exactly_one_remote() {
    assert!(matches!(Config::from_args(vec![], None, None, false), Err(ConfigError::Usage)));
    assert!(matches!(
        Config::from_args(strings(&["a:1", "b:2"]), None, None, false),
        Err(ConfigError::Usage)
    ));
}

#[test]
fn config_needs_remote_port() {
    assert!(matches!(
        Config::from_args(strings(&["example.com"]), None, None, false),
        Err(ConfigError::MissingRemotePort)
    ));
}

#[test]
fn config_rejects_bad_local_port() {
    assert!(matches!(
        Config::from_args(strings(&["a:1"]), None, Some("http".to_string()), false),
        Err(ConfigError::InvalidLocalPort)
    ));
}
