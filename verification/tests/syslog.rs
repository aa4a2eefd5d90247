use softnix_agent::clock::UtcInstant;
use softnix_agent::config::{SyslogFormat, SyslogOutputConfig, SyslogProtocol};
use softnix_agent::event::LogEvent;
use softnix_agent::syslog::{SyslogSink, TcpIoEvent, TcpSinkAction, TcpSinkState};

fn test_config(format: SyslogFormat) -> SyslogOutputConfig {
    SyslogOutputConfig {
        protocol: SyslogProtocol::Udp,
        address: "127.0.0.1:5514".into(),
        format,
        hostname: Some("host".into()),
        app_name: Some("app".into()),
        facility: 1,
    }
}

fn event_at(ts: UtcInstant, line: &str) -> LogEvent {
    let mut event = LogEvent::new("src".to_string(), line.to_string());
    event.ingested_at = ts;
    event
}

#[test]
fn formats_rfc5424_payload() {
    let sink = SyslogSink::new(test_config(SyslogFormat::Rfc5424));
    let event = event_at(UtcInstant::from_parts(2024, 1, 1, 0, 0, 0, 0).unwrap(), "payload");
    let msg = sink.format_rfc5424(&event);
    assert!(msg.contains("host app"));
    assert!(msg.contains("payload"));
}

#[test]
fn formats_rfc3164_payload() {
    let sink = SyslogSink::new(test_config(SyslogFormat::Rfc3164));
    let event = event_at(UtcInstant::from_parts(2024, 1, 1, 12, 0, 0, 0).unwrap(), "payload");
    let msg = sink.format_rfc3164(&event);
    assert!(msg.contains("host"));
    assert!(msg.contains("payload"));
}

#[test]
fn rfc5424_message_is_exact() {
    let sink = SyslogSink::new(test_config(SyslogFormat::Rfc5424));
    let event = event_at(UtcInstant::from_parts(2024, 1, 1, 0, 0, 0, 0).unwrap(), "a line");
    let msg = sink.format_rfc5424(&event);
    assert_eq!(msg, "<14>1 2024-01-01T00:00:00.000Z host app - - a line");
}

#[test]
fn rfc3164_message_is_exact_at_a_known_clock() {
    let sink = SyslogSink::new(test_config(SyslogFormat::Rfc3164));
    let event = event_at(UtcInstant::from_parts(2024, 1, 1, 12, 0, 0, 0).unwrap(), "payload");
    let msg = sink.format_rfc3164_at(&event, 1, 1, 12, 0, 0);
    assert_eq!(msg, "<14>Jan  1 12:00:00 host app: payload");
    let msg = sink.format_rfc3164_at(&event, 12, 31, 23, 59, 59);
    assert_eq!(msg, "<14>Dec 31 23:59:59 host app: payload");
}

#[test]
fn pri_clamps_facility() {
    let mut cfg = test_config(SyslogFormat::Rfc3164);
    cfg.facility = 23;
    assert_eq!(SyslogSink::new(cfg).pri(), 190);
    let mut cfg = test_config(SyslogFormat::Rfc3164);
    cfg.facility = 0;
    assert_eq!(SyslogSink::new(cfg).pri(), 6);
    let mut cfg = test_config(SyslogFormat::Rfc3164);
    cfg.facility = 99;
    assert_eq!(SyslogSink::new(cfg).pri(), 190);
}

#[test]
fn app_name_defaults_to_agent_name() {
    let mut cfg = test_config(SyslogFormat::Rfc3164);
    cfg.app_name = None;
    let sink = SyslogSink::new(cfg);
    assert_eq!(sink.app_name, "softnix-agent");
}

#[test]
fn tcp_sink_retries_same_message_after_failed_write() {
    let mut state = TcpSinkState::start();
    assert_eq!(state.next_action(), TcpSinkAction::AwaitNextEvent);
    state.accept("one message".to_string());
    assert_eq!(state.next_action(), TcpSinkAction::Connect);
    state.on_io(TcpIoEvent::ConnectOk);
    assert_eq!(state.next_action(), TcpSinkAction::WritePending);
    state.on_io(TcpIoEvent::WriteFailed);
    assert_eq!(state.pending.as_deref(), Some("one message"));
    assert_eq!(state.next_action(), TcpSinkAction::Connect);
    state.on_io(TcpIoEvent::ConnectOk);
    assert_eq!(state.next_action(), TcpSinkAction::WritePending);
    assert_eq!(state.pending.as_deref(), Some("one message"));
    state.on_io(TcpIoEvent::WriteOk);
    assert_eq!(state.pending, None);
    assert_eq!(state.next_action(), TcpSinkAction::AwaitNextEvent);
}

#[test]
fn tcp_sink_keeps_message_through_connect_failures() {
    let mut state = TcpSinkState::start();
    state.accept("m".to_string());
    state.on_io(TcpIoEvent::ConnectFailed);
    assert_eq!(state.pending.as_deref(), Some("m"));
    assert_eq!(state.next_action(), TcpSinkAction::Connect);
}
