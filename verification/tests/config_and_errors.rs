use llrp_client::config::{log_level_from_name, log_level_or_default, parse_log_level, LogLevel};
use llrp_client::error::{exit_code, status_code, LlrpError};

fn all_errors() -> Vec<LlrpError> {
    vec![
        LlrpError::BadConfig,
        LlrpError::ConnectFailed,
        LlrpError::UnexpectedEof,
        LlrpError::MalformedFrame,
        LlrpError::UnknownMessageType,
        LlrpError::UnknownTVType,
        LlrpError::MalformedResponse,
        LlrpError::TimedOut,
        LlrpError::Disconnected,
    ]
}

#[test]
fn log_level_names() {
    assert_eq!(log_level_from_name("off"), Some(LogLevel::Off));
    assert_eq!(log_level_from_name("error"), Some(LogLevel::Error));
    assert_eq!(log_level_from_name("warn"), Some(LogLevel::Warn));
    assert_eq!(log_level_from_name("info"), Some(LogLevel::Info));
    assert_eq!(log_level_from_name("debug"), Some(LogLevel::Debug));
    assert_eq!(log_level_from_name("trace"), Some(LogLevel::Trace));
    assert_eq!(log_level_from_name("Off"), None);
    assert_eq!(log_level_from_name("warning"), None);
    assert_eq!(log_level_from_name(""), None);
    assert_eq!(log_level_from_name(" info"), None);
}

#[test]
fn parse_log_level_in_any_case() {
    assert_eq!(parse_log_level("off"), Some(LogLevel::Off));
    assert_eq!(parse_log_level("OFF"), Some(LogLevel::Off));
    assert_eq!(parse_log_level("Error"), Some(LogLevel::Error));
    assert_eq!(parse_log_level("wArN"), Some(LogLevel::Warn));
    assert_eq!(parse_log_level("INFO"), Some(LogLevel::Info));
    assert_eq!(parse_log_level("Debug"), Some(LogLevel::Debug));
    assert_eq!(parse_log_level("TRACE"), Some(LogLevel::Trace));
    assert_eq!(parse_log_level("verbose"), None);
    assert_eq!(parse_log_level(""), None);
}

#[test]
fn log_level_defaults_to_debug() {
    assert_eq!(log_level_or_default("nonsense"), LogLevel::Debug);
    assert_eq!(log_level_or_default(""), LogLevel::Debug);
    assert_eq!(log_level_or_default("TRACE"), LogLevel::Trace);
    assert_eq!(log_level_or_default("off"), LogLevel::Off);
}

#[test]
fn exit_codes() {
    assert_eq!(exit_code(None), 0);
    assert_eq!(exit_code(Some(LlrpError::BadConfig)), 1);
    assert_eq!(exit_code(Some(LlrpError::ConnectFailed)), 1);
    for e in all_errors() {
        let expected = match e {
            LlrpError::BadConfig | LlrpError::ConnectFailed => 1,
            _ => 2,
        };
        assert_eq!(e.exit_code(), expected);
        assert_eq!(exit_code(Some(e)), expected);
    }
}

#[test]
fn status_codes() {
    assert_eq!(status_code(None), 0);
    for e in all_errors() {
        assert_eq!(status_code(Some(e)), -1);
    }
}

#[test]
fn error_messages() {
    assert_eq!(LlrpError::BadConfig.message(), "Failed to load LLRP configuration");
    assert_eq!(LlrpError::ConnectFailed.message(), "Unable to connect to LLRP server");
    assert_eq!(LlrpError::UnexpectedEof.message(), "Connection closed");
    assert_eq!(LlrpError::MalformedFrame.message(), "Malformed LLRP frame");
    assert_eq!(LlrpError::UnknownMessageType.message(), "Unknown LLRP message type");
    assert_eq!(LlrpError::UnknownTVType.message(), "Unknown TV parameter type");
    assert_eq!(LlrpError::MalformedResponse.message(), "Malformed LLRP response");
    assert_eq!(LlrpError::TimedOut.message(), "Timeout while waiting for response");
    assert_eq!(LlrpError::Disconnected.message(), "Message channel closed");
}
