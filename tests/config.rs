use ark_scanner::command::{is_whitespace, NetworkCommand, NetworkCommandLimiter, SharedCommand};
use ark_scanner::config::{
    load_scanner_opts, parse_bool, parse_u64, ConfigErr, OptionKey, RawOptions,
};

fn raw() -> RawOptions {
    RawOptions {
        mac_addr_timeout: Some("300".to_string()),
        arp_scan_period: Some("10".to_string()),
        mac_cache_log_period: Some("3600".to_string()),
        trace: Some("false".to_string()),
        reconnect_cmd: Some("nmcli con up wifi".to_string()),
        log_api_url: None,
        api_retry_limit: None,
        api_key: None,
        location: None,
    }
}

#[test]
fn parse_numbers() {
    assert_eq!(parse_u64("42"), Some(42));
    assert_eq!(parse_u64("+7"), Some(7));
    assert_eq!(parse_u64("007"), Some(7));
    assert_eq!(parse_u64("18446744073709551615"), Some(u64::MAX));
    assert_eq!(parse_u64("18446744073709551616"), None);
    assert_eq!(parse_u64("99999999999999999999x"), None);
    assert_eq!(parse_u64(""), None);
    assert_eq!(parse_u64("+"), None);
    assert_eq!(parse_u64("-1"), None);
    assert_eq!(parse_u64("1a"), None);
    assert_eq!(parse_u64(" 1"), None);
}

#[test]
fn parse_numbers_agree_with_std() {
    for s in ["0", "12", "+3", "", "+", "-0", "4294967296", "18446744073709551616", "١٢"] {
        assert_eq!(parse_u64(s), s.parse::<u64>().ok(), "{}", s);
    }
}

#[test]
fn parse_flags() {
    assert_eq!(parse_bool("true"), Some(true));
    assert_eq!(parse_bool("false"), Some(false));
    assert_eq!(parse_bool("True"), None);
    assert_eq!(parse_bool("1"), None);
    assert_eq!(parse_bool(""), None);
}

#[test]
fn options_load() {
    let o = load_scanner_opts(raw()).unwrap();
    assert_eq!(o.mac_addr_timeout, 300);
    assert_eq!(o.arp_scan_period, 10);
    assert_eq!(o.mac_cache_log_period, 3600);
    assert!(!o.trace);
    assert_eq!(o.reconnect_cmd.cmd, "nmcli");
    assert_eq!(o.reconnect_cmd.args, vec!["con", "up", "wifi"]);
    assert_eq!(o.location, "dev-location");
    assert_eq!(o.log_api_url, None);
    assert_eq!(o.api_retry_limit, None);
}

#[test]
fn options_optional_values() {
    let mut r = raw();
    r.log_api_url = Some("http://logs.test".to_string());
    r.api_retry_limit = Some("3".to_string());
    r.api_key = Some("key".to_string());
    r.location = Some("building-1".to_string());
    r.trace = Some("true".to_string());
    let o = load_scanner_opts(r).unwrap();
    assert_eq!(o.log_api_url, Some("http://logs.test".to_string()));
    assert_eq!(o.api_retry_limit, Some(3));
    assert_eq!(o.api_key, Some("key".to_string()));
    assert_eq!(o.location, "building-1");
    assert!(o.trace);

    let mut r = raw();
    r.api_retry_limit = Some("three".to_string());
    assert_eq!(load_scanner_opts(r).unwrap().api_retry_limit, None);
}

#[test]
fn options_errors() {
    let mut r = raw();
    r.mac_addr_timeout = None;
    assert_eq!(load_scanner_opts(r).unwrap_err(), ConfigErr::Missing(OptionKey::MacAddrTimeout));

    let mut r = raw();
    r.arp_scan_period = Some("ten".to_string());
    assert_eq!(load_scanner_opts(r).unwrap_err(), ConfigErr::Invalid(OptionKey::ArpScanPeriod));

    let mut r = raw();
    r.mac_cache_log_period = None;
    assert_eq!(load_scanner_opts(r).unwrap_err(), ConfigErr::Missing(OptionKey::MacCacheLogPeriod));

    let mut r = raw();
    r.trace = Some("yes".to_string());
    assert_eq!(load_scanner_opts(r).unwrap_err(), ConfigErr::Invalid(OptionKey::Trace));

    let mut r = raw();
    r.reconnect_cmd = None;
    assert_eq!(load_scanner_opts(r).unwrap_err(), ConfigErr::Missing(OptionKey::ReconnectCmd));

    let mut r = raw();
    r.mac_addr_timeout = Some("x".to_string());
    r.trace = None;
    assert_eq!(load_scanner_opts(r).unwrap_err(), ConfigErr::Invalid(OptionKey::MacAddrTimeout));
}

#[test]
fn option_names() {
    assert_eq!(OptionKey::MacAddrTimeout.env_name(), "MAC_ADDR_TIMEOUT_SECS");
    assert_eq!(OptionKey::ArpScanPeriod.env_name(), "ARP_SCAN_PERIOD_SECS");
    assert_eq!(OptionKey::MacCacheLogPeriod.env_name(), "MAC_CACHE_LOG_PERIOD_SECS");
    assert_eq!(OptionKey::Trace.env_name(), "TRACE");
    assert_eq!(OptionKey::ReconnectCmd.env_name(), "RECONNECT_CMD");
}

#[test]
fn command_split() {
    let c = NetworkCommand::new(&"sudo systemctl restart networking".to_string());
    assert_eq!(c.cmd, "sudo");
    assert_eq!(c.args, vec!["systemctl", "restart", "networking"]);

    let c = SharedCommand::new(&"reboot".to_string());
    assert_eq!(c.cmd, "reboot");
    assert!(c.args.is_empty());

    let c = NetworkCommand::new(&"a  b ".to_string());
    assert_eq!(c.cmd, "a");
    assert_eq!(c.args, vec!["b"]);

    let c = NetworkCommand::new(&"  nmcli\tcon\n up\u{3000}wifi  ".to_string());
    assert_eq!(c.cmd, "nmcli");
    assert_eq!(c.args, vec!["con", "up", "wifi"]);

    assert!(NetworkCommand::parse("").is_none());
    assert!(NetworkCommand::parse(" \t\n ").is_none());
    let c = NetworkCommand::parse(" reboot now").unwrap();
    assert_eq!(c.cmd, "reboot");
    assert_eq!(c.args, vec!["now"]);

    let c = NetworkCommand::new(&"écho ünï".to_string());
    assert_eq!(c.cmd, "écho");
    assert_eq!(c.args, vec!["ünï"]);
}

#[test]
fn command_split_agrees_with_std() {
    for text in ["a b", "  a   b  ", "\u{85}x\u{a0}y\u{2028}z", "one", "\u{200b}a b", "x\u{1680}\u{205f}y"] {
        let c = NetworkCommand::parse(text).unwrap();
        let w: Vec<&str> = text.split_whitespace().collect();
        assert_eq!(c.cmd, w[0], "{:?}", text);
        assert_eq!(c.args, w[1..].to_vec(), "{:?}", text);
    }
}

#[test]
fn whitespace_agrees_with_std() {
    for c in (0u32..=0x10FFFF).filter_map(char::from_u32) {
        assert_eq!(is_whitespace(c), c.is_whitespace(), "{:?}", c);
    }
}

#[test]
fn blank_command_is_rejected() {
    let mut r = raw();
    r.reconnect_cmd = Some("   ".to_string());
    assert_eq!(load_scanner_opts(r).unwrap_err(), ConfigErr::Invalid(OptionKey::ReconnectCmd));
}

#[test]
fn retry_limit_required_with_url() {
    let mut r = raw();
    r.log_api_url = Some("http://logs.test".to_string());
    assert_eq!(load_scanner_opts(r).unwrap_err(), ConfigErr::Missing(OptionKey::ApiRetryLimit));

    let mut r = raw();
    r.log_api_url = Some("http://logs.test".to_string());
    r.api_retry_limit = Some("three".to_string());
    assert_eq!(load_scanner_opts(r).unwrap_err(), ConfigErr::Invalid(OptionKey::ApiRetryLimit));

    let mut r = raw();
    r.api_retry_limit = Some("5".to_string());
    assert_eq!(load_scanner_opts(r).unwrap().api_retry_limit, Some(5));
    assert_eq!(OptionKey::ApiRetryLimit.env_name(), "API_RETRY_LIMIT");
}

#[test]
fn reconnect_is_single_flight() {
    let mut limiter = NetworkCommandLimiter::new(&"nmcli con up wifi".to_string());
    assert!(!limiter.is_running());
    assert_eq!(limiter.command().cmd, "nmcli");
    assert!(limiter.run());
    assert!(limiter.is_running());
    assert!(!limiter.run());
    limiter.finish();
    assert!(!limiter.is_running());
    assert!(limiter.run());
}
