//! The validated configuration the agent runs from.
//!
//! File reading, TOML decoding, address/path/platform checks and other
//! environment-dependent validation live with the embedding program; what
//! stands here is the configuration data itself and the pure rules:
//! at least one input, no empty process program, facility in range.
use vstd::prelude::*;

verus! {

/// Runtime tuning knobs.
#[derive(Clone, Debug)]
pub struct RuntimeConfig {
    pub channel_size: usize,
}

impl Default for RuntimeConfig {
    /// A bounded-queue capacity of 1024.
    fn default() -> (r: RuntimeConfig)
        ensures
            r.channel_size == 1024,
    {
        RuntimeConfig { channel_size: 1024 }
    }
}

/// One configured input source.
#[derive(Clone, Debug)]
pub enum InputConfig {
    Stdin { name: Option<String> },
    FileTail { path: String, name: Option<String>, read_from_beginning: bool, poll_interval_ms: u64 },
    TcpListener { bind: String, name: Option<String> },
    UdpListener { bind: String, name: Option<String> },
    Process { program: String, args: Vec<String>, name: Option<String> },
    Journald { units: Option<Vec<String>>, name: Option<String> },
    WindowsEventLog { log: String, name: Option<String> },
}

impl Default for InputConfig {
    /// Standard input with no explicit name.
    fn default() -> (r: InputConfig)
        ensures
            r == (InputConfig::Stdin { name: None }),
    {
        InputConfig::Stdin { name: None }
    }
}

/// The configured output destination.
#[derive(Clone, Debug)]
pub enum OutputConfig {
    Stdout {},
    Syslog(SyslogOutputConfig),
}

impl Default for OutputConfig {
    /// The console.
    fn default() -> (r: OutputConfig)
        ensures
            r == (OutputConfig::Stdout {}),
    {
        OutputConfig::Stdout {}
    }
}

#[derive(Clone, Copy, Debug, PartialEq, Eq, Structural)]
pub enum SyslogProtocol {
    Udp,
    Tcp,
}

#[derive(Clone, Copy, Debug, PartialEq, Eq, Structural)]
pub enum SyslogFormat {
    Rfc3164,
    Rfc5424,
}

/// The syslog output destination and its wire options.
#[derive(Clone, Debug)]
pub struct SyslogOutputConfig {
    pub protocol: SyslogProtocol,
    pub address: String,
    pub format: SyslogFormat,
    pub hostname: Option<String>,
    pub app_name: Option<String>,
    pub facility: u8,
}

pub fn default_syslog_protocol() -> (r: SyslogProtocol)
    ensures
        r == SyslogProtocol::Udp,
{
    SyslogProtocol::Udp
}

pub fn default_syslog_format() -> (r: SyslogFormat)
    ensures
        r == SyslogFormat::Rfc3164,
{
    SyslogFormat::Rfc3164
}

pub fn default_syslog_facility() -> (r: u8)
    ensures
        r == 1,
{
    1
}

/// The default file-tail poll interval, in milliseconds.
pub fn default_poll_ms() -> (r: u64)
    ensures
        r == 500,
{
    500
}

/// The configuration rules that are checkable without touching the
/// environment.
#[derive(Clone, Copy, Debug, PartialEq, Eq, Structural)]
pub enum ConfigError {
    /// No input is configured; the agent would have nothing to do.
    NoInputs,
    /// A process input names an empty program.
    EmptyProcessProgram,
    /// The syslog facility is not in 0..=23.
    FacilityOutOfRange,
}

impl ConfigError {
    pub fn message(&self) -> (r: String)
        ensures
            self == ConfigError::NoInputs ==> r@ == "at least one input must be configured"@,
            self == ConfigError::EmptyProcessProgram ==> r@ == "process program must not be empty"@,
            self == ConfigError::FacilityOutOfRange ==> r@ == "syslog facility must be between 0 and 23"@,
    {
        match self {
            ConfigError::NoInputs => String::from_str("at least one input must be configured"),
            ConfigError::EmptyProcessProgram => String::from_str("process program must not be empty"),
            ConfigError::FacilityOutOfRange => String::from_str("syslog facility must be between 0 and 23"),
        }
    }
}

impl SyslogOutputConfig {
    /// A facility in 0..=23; the numeric rule of RFC 3164 and RFC 5424.
    pub open spec fn facility_ok(&self) -> bool {
        self.facility <= 23
    }

    /// Rejects a facility above 23. Address syntax is validated by the
    /// embedding program before the sink is built.
    pub fn validate(&self) -> (r: Result<(), ConfigError>)
        ensures
            r is Ok <==> self.facility_ok(),
            r matches Err(e) ==> e == ConfigError::FacilityOutOfRange,
    {
        if self.facility > 23 {
            Err(ConfigError::FacilityOutOfRange)
        } else {
            Ok(())
        }
    }
}

/// The pure rule for one input: a process input must name a program.
pub open spec fn input_ok(c: InputConfig) -> bool {
    match c {
        InputConfig::Process { program, .. } => program@.len() > 0,
        _ => true,
    }
}

/// The whole agent configuration.
#[derive(Clone, Debug, Default)]
pub struct AgentConfig {
    pub runtime: RuntimeConfig,
    pub inputs: Vec<InputConfig>,
    pub output: OutputConfig,
}

impl AgentConfig {
    pub open spec fn output_ok(&self) -> bool {
        match self.output {
            OutputConfig::Stdout {  } => true,
            OutputConfig::Syslog(cfg) => cfg.facility_ok(),
        }
    }

    pub open spec fn inputs_ok(&self) -> bool {
        forall|k: int| 0 <= k < self.inputs@.len() ==> input_ok(self.inputs@[k])
    }

    /// The pure configuration rules: at least one input, every process
    /// input names a program, and a syslog facility in range. Checked in
    /// this order; the first broken rule is reported.
    pub fn validate(&self) -> (r: Result<(), ConfigError>)
        ensures
            r is Ok <==> self.inputs@.len() > 0 && self.inputs_ok() && self.output_ok(),
            self.inputs@.len() == 0 ==> r == Err::<(), ConfigError>(ConfigError::NoInputs),
            self.inputs@.len() > 0 && !self.inputs_ok() ==> r == Err::<(), ConfigError>(
                ConfigError::EmptyProcessProgram,
            ),
            self.inputs@.len() > 0 && self.inputs_ok() && !self.output_ok() ==> r == Err::<
                (),
                ConfigError,
            >(ConfigError::FacilityOutOfRange),
    {
        if self.inputs.len() == 0 {
            return Err(ConfigError::NoInputs);
        }
        let mut k: usize = 0;
        while k < self.inputs.len()
            invariant
                k <= self.inputs@.len(),
                forall|j: int| 0 <= j < k ==> input_ok(self.inputs@[j]),
            decreases self.inputs@.len() - k,
        {
            match &self.inputs[k] {
                InputConfig::Process { program, .. } => {
                    if program.as_str().is_empty() {
                        assert(!input_ok(self.inputs@[k as int]));
                        return Err(ConfigError::EmptyProcessProgram);
                    }
                },
                _ => {},
            }
            k = k + 1;
        }
        match &self.output {
            OutputConfig::Stdout {  } => Ok(()),
            OutputConfig::Syslog(cfg) => cfg.validate(),
        }
    }
}

} // verus!
