use p99::config::{parse_rate, parse_u64, Cfg};

fn sample_cfg() -> Cfg {
    Cfg {
        port: 9999,
        upstream_a: "http://a.internal:8080".to_string(),
        upstream_b: "http://b.internal:8080".to_string(),
        pay_path: "/api/pay".to_string(),
        auth_header_name: Some("Authorization".to_string()),
        auth_header_value: Some("Bearer SECRET-REDACTED".to_string()),
        request_timeout_ms: 120,
        hedge_delay_ms: 40,
        concurrency_limit: 1024,
        cb_fail_rate_num: 1,
        cb_fail_rate_den: 4,
        cb_min_samples: 50,
        cb_open_secs: 2,
    }
}

#[test]
fn config_redacted_masks_the_auth_value() {
    let cfg = sample_cfg();
    let r = cfg.redacted();
    assert_eq!(r.auth_header_value.as_deref(), Some("***"));
    assert_eq!(r.auth_header_name.as_deref(), Some("Authorization"));
    assert_eq!(r.port, cfg.port);
    assert_eq!(r.upstream_a, cfg.upstream_a);
    assert_eq!(r.upstream_b, cfg.upstream_b);
    assert_eq!(r.pay_path, cfg.pay_path);
    assert_eq!(r.request_timeout_ms, cfg.request_timeout_ms);
    assert_eq!(r.hedge_delay_ms, cfg.hedge_delay_ms);
    assert_eq!(r.concurrency_limit, cfg.concurrency_limit);
    assert_eq!(r.cb_fail_rate_num, cfg.cb_fail_rate_num);
    assert_eq!(r.cb_fail_rate_den, cfg.cb_fail_rate_den);
    assert_eq!(r.cb_min_samples, cfg.cb_min_samples);
    assert_eq!(r.cb_open_secs, cfg.cb_open_secs);
}

#[test]
fn config_parse_u64_reads_plain_numbers() {
    assert_eq!(parse_u64("0"), Some(0));
    assert_eq!(parse_u64("9999"), Some(9999));
    assert_eq!(parse_u64("18446744073709551615"), Some(u64::MAX));
    assert_eq!(parse_u64("007"), Some(7));
}

#[test]
fn config_parse_u64_rejects_malformed_or_huge_input() {
    assert_eq!(parse_u64(""), None);
    assert_eq!(parse_u64("12a"), None);
    assert_eq!(parse_u64("-4"), None);
    assert_eq!(parse_u64(" 4"), None);
    // One past u64::MAX.
    assert_eq!(parse_u64("18446744073709551616"), None);
}

#[test]
fn config_parse_rate_reads_exact_rationals() {
    assert_eq!(parse_rate("0.25"), Some((25, 100)));
    assert_eq!(parse_rate("0.5"), Some((5, 10)));
    assert_eq!(parse_rate("1"), Some((1, 1)));
    assert_eq!(parse_rate("0"), Some((0, 1)));
    assert_eq!(parse_rate(".5"), Some((5, 10)));
    assert_eq!(parse_rate("2."), Some((2, 1)));
    assert_eq!(parse_rate("0.125"), Some((125, 1000)));
}

#[test]
fn config_parse_rate_rejects_malformed_input() {
    assert_eq!(parse_rate(""), None);
    assert_eq!(parse_rate("."), None);
    assert_eq!(parse_rate("0..5"), None);
    assert_eq!(parse_rate("1.2.3"), None);
    assert_eq!(parse_rate("0.2x"), None);
    assert_eq!(parse_rate("-0.5"), None);
    // Twenty fractional digits push the denominator past u64.
    assert_eq!(parse_rate("0.00000000000000000001"), None);
}

#[test]
fn config_redacted_keeps_absent_auth_absent() {
    let mut cfg = sample_cfg();
    cfg.auth_header_name = None;
    cfg.auth_header_value = None;
    let r = cfg.redacted();
    assert_eq!(r.auth_header_name, None);
    assert_eq!(r.auth_header_value, None);
}
