use softnix_agent::config::{
    default_poll_ms, default_syslog_facility, AgentConfig, ConfigError, InputConfig, OutputConfig,
    RuntimeConfig, SyslogFormat, SyslogOutputConfig, SyslogProtocol,
};
use softnix_agent::runtime::{effective_capacity, failure_is_fatal, TaskKind};

fn syslog_cfg(facility: u8) -> SyslogOutputConfig {
    SyslogOutputConfig {
        protocol: SyslogProtocol::Udp,
        address: "127.0.0.1:514".into(),
        format: SyslogFormat::Rfc3164,
        hostname: None,
        app_name: None,
        facility,
    }
}

#[test]
fn rejects_invalid_facility() {
    let cfg = syslog_cfg(99);
    assert!(cfg.validate().is_err());
}

#[test]
fn accepts_facility_in_range() {
    assert!(syslog_cfg(0).validate().is_ok());
    assert!(syslog_cfg(23).validate().is_ok());
    assert_eq!(syslog_cfg(24).validate(), Err(ConfigError::FacilityOutOfRange));
}

#[test]
fn rejects_empty_input_list() {
    let cfg = AgentConfig::default();
    assert_eq!(cfg.validate(), Err(ConfigError::NoInputs));
}

#[test]
fn rejects_empty_process_program() {
    let cfg = AgentConfig {
        runtime: RuntimeConfig::default(),
        inputs: vec![InputConfig::Process { program: String::new(), args: vec![], name: None }],
        output: OutputConfig::Stdout {},
    };
    assert_eq!(cfg.validate(), Err(ConfigError::EmptyProcessProgram));
}

#[test]
fn reports_facility_error_after_input_checks() {
    let cfg = AgentConfig {
        runtime: RuntimeConfig::default(),
        inputs: vec![InputConfig::Stdin { name: None }],
        output: OutputConfig::Syslog(syslog_cfg(42)),
    };
    assert_eq!(cfg.validate(), Err(ConfigError::FacilityOutOfRange));
}

#[test]
fn accepts_minimal_config() {
    let cfg = AgentConfig {
        runtime: RuntimeConfig::default(),
        inputs: vec![InputConfig::Stdin { name: None }],
        output: OutputConfig::Stdout {},
    };
    assert!(cfg.validate().is_ok());
    assert_eq!(cfg.runtime.channel_size, 1024);
}

#[test]
fn defaults_match_documentation() {
    assert_eq!(default_poll_ms(), 500);
    assert_eq!(default_syslog_facility(), 1);
    assert!(matches!(InputConfig::default(), InputConfig::Stdin { name: None }));
}

#[test]
fn error_messages_name_the_rule() {
    assert_eq!(ConfigError::NoInputs.message(), "at least one input must be configured");
    assert_eq!(ConfigError::EmptyProcessProgram.message(), "process program must not be empty");
    assert_eq!(
        ConfigError::FacilityOutOfRange.message(),
        "syslog facility must be between 0 and 23"
    );
}

#[test]
fn capacity_floors_at_one() {
    assert_eq!(effective_capacity(0), 1);
    assert_eq!(effective_capacity(1), 1);
    assert_eq!(effective_capacity(1024), 1024);
}

#[test]
fn only_output_failures_are_fatal() {
    assert!(failure_is_fatal(TaskKind::Output));
    assert!(!failure_is_fatal(TaskKind::Input));
    assert!(!failure_is_fatal(TaskKind::Normalize));
    assert!(!failure_is_fatal(TaskKind::Health));
}
