//! The configuration that a session is started with.

use vstd::prelude::*;

verus! {

/// The configuration of a session.
#[derive(Debug, Clone, PartialEq, Eq)]
pub struct Config {
    /// The reader's address, as `host:port`.
    pub host: String,
    /// One of off, error, warn, info, debug, trace.
    pub log_level: String,
    /// Whether a line is logged when an expected response arrives.
    pub log_response_ack: bool,
    /// The longest that a request waits for its response, in milliseconds.
    pub response_timeout: u64,
    pub reader_config: ReaderConfig,
    pub rospec: ROSpecConfig,
}

/// The reader operation that the session installs. The values go to the wire as
/// they are: the reader judges them.
#[allow(non_snake_case)]
#[derive(Debug, Clone, PartialEq, Eq)]
pub struct ROSpecConfig {
    pub rospec_id: u32,
    pub priority: u8,
    pub antenna_count: u16,
    pub antennas: Vec<u16>,
    /// 0 = null, 1 = immediate, 2 = periodic, 3 = GPI.
    pub ROSpecStartTriggerType: u8,
    /// 0 = null, 1 = duration, 2 = GPI with timeout.
    pub ROSpecStopTriggerType: u8,
    /// 0 = null, 1 = duration, 2 = GPI, 3 = tag observation.
    pub AISpecStopTriggerType: u8,
    pub InventoryParamSpecID: u16,
    /// 1 = EPCGlobal Class 1 Gen 2.
    pub AIProtocol: u8,
    pub ROReportTriggerType: u8,
    pub ROReportTrigger_N: u16,
    /// A field of bits.
    pub ReportContentSelector: u16,
}

/// Indices into the reader's tables.
#[derive(Debug, Clone, Copy, PartialEq, Eq, Structural)]
pub struct ReaderConfig {
    pub hop_table_id: u16,
    pub channel_index: u16,
    pub tx_power_table_index: u16,
    pub rx_power_table_index: u16,
}

/// How much is logged.
#[derive(Debug, Clone, Copy, PartialEq, Eq, Structural)]
pub enum LogLevel {
    Off,
    Error,
    Warn,
    Info,
    Debug,
    Trace,
}

/// The text that `str::to_lowercase` makes of a text.
pub uninterp spec fn spec_to_lowercase(text: Seq<char>) -> Seq<char>;

/// `str::to_lowercase`: the text with each character in its lower case, as
/// Unicode defines it.
#[verifier::external_body]
fn to_lowercase(text: &str) -> (lower: String)
    ensures
        lower@ == spec_to_lowercase(text@),
{
    text.to_lowercase()
}

/// The level that a name in lower case stands for.
pub open spec fn spec_log_level_from_name(name: Seq<char>) -> Option<LogLevel> {
    if name == "off"@ {
        Some(LogLevel::Off)
    } else if name == "error"@ {
        Some(LogLevel::Error)
    } else if name == "warn"@ {
        Some(LogLevel::Warn)
    } else if name == "info"@ {
        Some(LogLevel::Info)
    } else if name == "debug"@ {
        Some(LogLevel::Debug)
    } else if name == "trace"@ {
        Some(LogLevel::Trace)
    } else {
        None
    }
}

/// The level that a name stands for, where the name is one of off, error, warn,
/// info, debug and trace, spelled in lower case.
pub fn log_level_from_name(name: &str) -> (level: Option<LogLevel>)
    ensures
        level == spec_log_level_from_name(name@),
{
    let name: String = name.to_owned();
    if name == "off".to_owned() {
        Some(LogLevel::Off)
    } else if name == "error".to_owned() {
        Some(LogLevel::Error)
    } else if name == "warn".to_owned() {
        Some(LogLevel::Warn)
    } else if name == "info".to_owned() {
        Some(LogLevel::Info)
    } else if name == "debug".to_owned() {
        Some(LogLevel::Debug)
    } else if name == "trace".to_owned() {
        Some(LogLevel::Trace)
    } else {
        None
    }
}

/// The level that the configuration names, in whatever case it is spelled;
/// `None` where it names none.
pub fn parse_log_level(level: &str) -> (r: Option<LogLevel>)
    ensures
        r == spec_log_level_from_name(spec_to_lowercase(level@)),
{
    let lower = to_lowercase(level);
    log_level_from_name(lower.as_str())
}

/// The level that the logger is set to: the one that the configuration names,
/// or `Debug` where it names none.
pub fn log_level_or_default(level: &str) -> (r: LogLevel)
    ensures
        r == (match spec_log_level_from_name(spec_to_lowercase(level@)) {
            Some(l) => l,
            None => LogLevel::Debug,
        }),
{
    match parse_log_level(level) {
        Some(l) => l,
        None => LogLevel::Debug,
    }
}

} // verus!
