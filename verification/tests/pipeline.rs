use softnix_agent::clock::UtcInstant;
use softnix_agent::event::{IocKind, LogEvent};
use softnix_agent::pipeline::{extract_indicators, is_valid_ipv4, normalize, parse_metadata};

#[test]
fn extracts_valid_ipv4s() {
    let mut event = LogEvent::new("test".to_string(), "deny 10.1.1.1 connecting to 10.2.2.2".to_string());
    normalize(&mut event);
    assert_eq!(event.indicators.len(), 2);
    assert_eq!(event.indicators[0].kind, IocKind::Ip);
    assert_eq!(event.indicators[0].value, "10.1.1.1");
    assert_eq!(event.indicators[1].value, "10.2.2.2");
}

#[test]
fn ignores_invalid_octets() {
    let mut event = LogEvent::new("test".to_string(), "blocked 999.1.1.1".to_string());
    normalize(&mut event);
    assert!(event.indicators.is_empty());
}

#[test]
fn parses_level_and_app_name() {
    let mut event = LogEvent::new("test".to_string(), "WARN routerd[1234]: drop src=1.1.1.1".to_string());
    normalize(&mut event);
    assert_eq!(event.metadata.level.as_deref(), Some("WARN"));
    assert_eq!(event.metadata.app_name.as_deref(), Some("routerd"));
}

#[test]
fn parses_rfc3339_timestamp() {
    let mut event = LogEvent::new(
        "test".to_string(),
        "2024-02-01T01:02:03Z firewall allow src=10.0.0.1".to_string(),
    );
    normalize(&mut event);
    let ts = event.metadata.observed_ts.expect("timestamp");
    assert_eq!(ts, UtcInstant::from_parts(2024, 2, 1, 1, 2, 3, 0).unwrap());
}

#[test]
fn offset_timestamp_converts_to_utc() {
    let meta = parse_metadata("at 2024-02-01T01:02:03+01:30 something happened");
    let ts = meta.observed_ts.expect("timestamp");
    assert_eq!(ts, UtcInstant::from_parts(2024, 1, 31, 23, 32, 3, 0).unwrap());
}

#[test]
fn unparseable_candidate_leaves_timestamp_unset() {
    let meta = parse_metadata("seen 2024-13-40T99:99:99Z in stream");
    assert!(meta.observed_ts.is_none());
}

#[test]
fn level_prefix_and_case_fold() {
    let meta = parse_metadata("level=warn something");
    assert_eq!(meta.level.as_deref(), Some("WARN"));
    let meta = parse_metadata("no such token here");
    assert_eq!(meta.level, None);
    let meta = parse_metadata("WARNING is not a bare token");
    assert_eq!(meta.level, None);
}

#[test]
fn normalization_is_idempotent() {
    let mut once = LogEvent::new(
        "test".to_string(),
        "2024-02-01T01:02:03Z WARN routerd[7]: drop src=10.0.0.1".to_string(),
    );
    normalize(&mut once);
    let mut twice = once.clone();
    normalize(&mut twice);
    assert_eq!(once.indicators, twice.indicators);
    assert_eq!(once.metadata.level, twice.metadata.level);
    assert_eq!(once.metadata.app_name, twice.metadata.app_name);
    assert_eq!(once.metadata.observed_ts, twice.metadata.observed_ts);
}

#[test]
fn consumed_candidate_suppresses_overlap() {
    // The scan consumes a whole out-of-range candidate, so the valid
    // quad hidden inside it is not reported.
    let inds = extract_indicators("blocked 999.1.1.1 here");
    assert!(inds.is_empty());
    // A leading extra digit shifts the match one to the right.
    let inds = extract_indicators("id1234.5.6.7 end");
    assert_eq!(inds.len(), 1);
    assert_eq!(inds[0].value, "234.5.6.7");
}

#[test]
fn long_final_component_is_truncated_then_rejected() {
    let inds = extract_indicators("x 1.2.3.4567 y");
    assert!(inds.is_empty());
    let inds = extract_indicators("x 1.2.3.45 y");
    assert_eq!(inds.len(), 1);
    assert_eq!(inds[0].value, "1.2.3.45");
}

#[test]
fn octet_validity_matches_u8_parse() {
    assert!(is_valid_ipv4("1.2.3.4"));
    assert!(is_valid_ipv4("255.255.255.255"));
    assert!(!is_valid_ipv4("999.1.1.1"));
    assert!(!is_valid_ipv4("256.1.1.1"));
    assert!(is_valid_ipv4("10"));
    assert!(is_valid_ipv4("+5"));
    assert!(!is_valid_ipv4(""));
    assert!(!is_valid_ipv4("1..2"));
    assert!(!is_valid_ipv4("1.2.3."));
    assert!(is_valid_ipv4("007.8.9.10"));
}
