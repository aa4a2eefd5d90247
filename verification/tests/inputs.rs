use softnix_agent::config::InputConfig;
use softnix_agent::inputs::{
    clean_line, escape_single_quotes, eventlog_script, input_source_name, journald_args,
    line_read_step, peer_source, stream_source, tail_read_step, udp_payload, FileTailInput,
    ReadStep, StdinInput, TailStep,
};

#[test]
fn clean_line_strips_trailing_crlf() {
    assert_eq!(clean_line("hello\r\n").as_deref(), Some("hello"));
    assert_eq!(clean_line("hello\n\n\r").as_deref(), Some("hello"));
    assert_eq!(clean_line("hello").as_deref(), Some("hello"));
    assert_eq!(clean_line("\r\n"), None);
    assert_eq!(clean_line(""), None);
    // Interior whitespace is kept; only trailing CR/LF goes.
    assert_eq!(clean_line("  spaced  \n").as_deref(), Some("  spaced  "));
}

#[test]
fn read_step_decisions() {
    assert_eq!(line_read_step(0, ""), ReadStep::Stop);
    assert_eq!(line_read_step(1, "\n"), ReadStep::Skip);
    assert_eq!(line_read_step(6, "line\r\n"), ReadStep::Emit("line".to_string()));
    assert_eq!(tail_read_step(0, ""), TailStep::PollWait);
    assert_eq!(tail_read_step(1, "\n"), TailStep::Skip);
    assert_eq!(tail_read_step(2, "x\n"), TailStep::Emit("x".to_string()));
}

#[test]
fn udp_payload_trims_and_drops_empty() {
    let buf: Vec<u8> = b"  hello world \n".to_vec();
    let len = buf.len();
    assert_eq!(udp_payload(&buf, len).as_deref(), Some("hello world"));
    let blank: Vec<u8> = b"   \t\r\n".to_vec();
    let len = blank.len();
    assert_eq!(udp_payload(&blank, len), None);
    // Only the first `len` bytes count.
    let buf: Vec<u8> = b"abcdef".to_vec();
    assert_eq!(udp_payload(&buf, 3).as_deref(), Some("abc"));
}

#[test]
fn udp_payload_decodes_lossily() {
    let buf: Vec<u8> = vec![0xFF, b'o', b'k'];
    let len = buf.len();
    assert_eq!(udp_payload(&buf, len).as_deref(), Some("\u{FFFD}ok"));
}

#[test]
fn source_tags() {
    assert_eq!(peer_source("tcp", "1.2.3.4:5555"), "tcp:1.2.3.4:5555");
    assert_eq!(stream_source("proc", false), "proc:stdout");
    assert_eq!(stream_source("proc", true), "proc:stderr");
}

#[test]
fn default_source_names() {
    assert_eq!(input_source_name(&InputConfig::Stdin { name: None }), "stdin");
    assert_eq!(
        input_source_name(&InputConfig::Stdin { name: Some("custom".into()) }),
        "custom"
    );
    assert_eq!(
        input_source_name(&InputConfig::FileTail {
            path: "/var/log/syslog".into(),
            name: None,
            read_from_beginning: false,
            poll_interval_ms: 500,
        }),
        "/var/log/syslog"
    );
    assert_eq!(
        input_source_name(&InputConfig::WindowsEventLog { log: "System".into(), name: None }),
        "windows-System"
    );
    assert_eq!(
        input_source_name(&InputConfig::Journald { units: None, name: None }),
        "journald"
    );
}

#[test]
fn poll_interval_floors_at_100ms() {
    let tail = FileTailInput::new("/tmp/x".into(), "t".into(), true, 50);
    assert_eq!(tail.poll_interval_ms, 100);
    let tail = FileTailInput::new("/tmp/x".into(), "t".into(), true, 250);
    assert_eq!(tail.poll_interval_ms, 250);
    let stdin = StdinInput::new("s".into());
    assert_eq!(stdin.source, "s");
}

#[test]
fn journald_argument_list() {
    let args = journald_args(&None);
    assert_eq!(args, vec!["-f".to_string(), "-o".to_string(), "cat".to_string()]);
    let args = journald_args(&Some(vec!["sshd.service".to_string(), "nginx.service".to_string()]));
    assert_eq!(
        args,
        vec![
            "-f".to_string(),
            "-o".to_string(),
            "cat".to_string(),
            "-u".to_string(),
            "sshd.service".to_string(),
            "-u".to_string(),
            "nginx.service".to_string(),
        ]
    );
}

#[test]
fn eventlog_script_escapes_quotes() {
    assert_eq!(escape_single_quotes("plain"), "plain");
    assert_eq!(escape_single_quotes("a'b"), "a''b");
    let script = eventlog_script("App'lication");
    assert!(script.starts_with("$Log = 'App''lication';"));
    assert!(script.contains("Get-WinEvent -LogName $Log -Wait"));
    assert!(script.contains("ConvertTo-Json -Compress"));
}
