use softnix_agent::clock::{render_rfc3339_millis, render_rfc3339_secs, UtcInstant};
use softnix_agent::event::{IocKind, IocMatch, LogEvent};
use softnix_agent::outputs::StdoutSink;
use softnix_agent::pipeline::normalize;

#[test]
fn renders_timestamps() {
    let t = UtcInstant::from_parts(2024, 2, 1, 1, 2, 3, 45).unwrap();
    assert_eq!(render_rfc3339_secs(&t), "2024-02-01T01:02:03Z");
    assert_eq!(render_rfc3339_millis(&t), "2024-02-01T01:02:03.045Z");
}

#[test]
fn rejects_imaginary_dates() {
    assert!(UtcInstant::from_parts(2023, 2, 29, 0, 0, 0, 0).is_none());
    assert!(UtcInstant::from_parts(2024, 2, 29, 0, 0, 0, 0).is_some());
    assert!(UtcInstant::from_parts(2024, 13, 1, 0, 0, 0, 0).is_none());
    assert!(UtcInstant::from_parts(2024, 4, 31, 0, 0, 0, 0).is_none());
    assert!(UtcInstant::from_parts(10000, 1, 1, 0, 0, 0, 0).is_none());
}

#[test]
fn raw_clock_readings_are_fitted_into_the_model() {
    // A leap-second reading is clamped below one second.
    let t = UtcInstant::from_raw(2024, 6, 30, 23, 59, 59, 1500);
    assert_eq!(t, UtcInstant::from_parts(2024, 6, 30, 23, 59, 59, 999).unwrap());
    // A reading outside the calendar falls back to the epoch.
    let t = UtcInstant::from_raw(2024, 2, 30, 0, 0, 0, 0);
    assert_eq!(t, UtcInstant::from_parts(1970, 1, 1, 0, 0, 0, 0).unwrap());
}

#[test]
fn stdout_line_without_indicators() {
    let mut event = LogEvent::new("stdin".to_string(), "quiet line".to_string());
    event.ingested_at = UtcInstant::from_parts(2024, 1, 1, 0, 0, 0, 0).unwrap();
    let line = StdoutSink::default().render_line(&event);
    assert_eq!(line, "2024-01-01T00:00:00Z [stdin] quiet line");
}

#[test]
fn stdout_line_with_indicator_summary() {
    let mut event = LogEvent::new(
        "udp:9.9.9.9:1".to_string(),
        "deny 10.1.1.1 connecting to 10.2.2.2".to_string(),
    );
    normalize(&mut event);
    event.ingested_at = UtcInstant::from_parts(2024, 6, 30, 23, 59, 59, 999).unwrap();
    let line = StdoutSink::default().render_line(&event);
    assert_eq!(
        line,
        "2024-06-30T23:59:59Z [udp:9.9.9.9:1] deny 10.1.1.1 connecting to 10.2.2.2 [ioc:ip=10.1.1.1,ip=10.2.2.2]"
    );
}

#[test]
fn indicator_kind_wire_name() {
    let m = IocMatch { kind: IocKind::Ip, value: "1.2.3.4".to_string() };
    assert_eq!(m.kind.as_str(), "ip");
}
