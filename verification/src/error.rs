//! The errors of the client.

use vstd::prelude::*;

verus! {

/// What can go wrong in a session.
#[derive(Debug, Clone, Copy, PartialEq, Eq, Hash, Structural)]
pub enum LlrpError {
    /// The configuration is missing, malformed, or lacks a required field.
    BadConfig,
    /// The TCP connection was refused or the host is unreachable.
    ConnectFailed,
    /// The peer closed the stream in the middle of a frame.
    UnexpectedEof,
    /// A frame's length field is under 10, or its payload is cut short.
    MalformedFrame,
    /// The 10-bit message type is not in the registry.
    UnknownMessageType,
    /// A TV parameter's 7-bit type has no fixed size.
    UnknownTVType,
    /// The body of a response could not be parsed.
    MalformedResponse,
    /// No matching response came within the response timeout.
    TimedOut,
    /// The receive loop ended before the waiter was satisfied.
    Disconnected,
}

impl LlrpError {
    /// The process exit code for a run that ended in this error: 1 for a
    /// configuration or connect failure, 2 for a protocol failure in mid-session.
    pub open spec fn spec_exit_code(self) -> i32 {
        match self {
            LlrpError::BadConfig | LlrpError::ConnectFailed => 1,
            _ => 2,
        }
    }

    /// The process exit code for a run that ended in this error.
    pub fn exit_code(&self) -> (code: i32)
        ensures
            code == self.spec_exit_code(),
    {
        match self {
            LlrpError::BadConfig => 1,
            LlrpError::ConnectFailed => 1,
            _ => 2,
        }
    }

    /// A one-line description of the error.
    pub open spec fn spec_message(self) -> Seq<char> {
        match self {
            LlrpError::BadConfig => "Failed to load LLRP configuration"@,
            LlrpError::ConnectFailed => "Unable to connect to LLRP server"@,
            LlrpError::UnexpectedEof => "Connection closed"@,
            LlrpError::MalformedFrame => "Malformed LLRP frame"@,
            LlrpError::UnknownMessageType => "Unknown LLRP message type"@,
            LlrpError::UnknownTVType => "Unknown TV parameter type"@,
            LlrpError::MalformedResponse => "Malformed LLRP response"@,
            LlrpError::TimedOut => "Timeout while waiting for response"@,
            LlrpError::Disconnected => "Message channel closed"@,
        }
    }

    /// A one-line description of the error.
    pub fn message(&self) -> (text: &'static str)
        ensures
            text@ == self.spec_message(),
    {
        match self {
            LlrpError::BadConfig => "Failed to load LLRP configuration",
            LlrpError::ConnectFailed => "Unable to connect to LLRP server",
            LlrpError::UnexpectedEof => "Connection closed",
            LlrpError::MalformedFrame => "Malformed LLRP frame",
            LlrpError::UnknownMessageType => "Unknown LLRP message type",
            LlrpError::UnknownTVType => "Unknown TV parameter type",
            LlrpError::MalformedResponse => "Malformed LLRP response",
            LlrpError::TimedOut => "Timeout while waiting for response",
            LlrpError::Disconnected => "Message channel closed",
        }
    }
}

/// The status that a host binding reports for an operation: 0 for success, -1
/// for failure.
pub fn status_code(failure: Option<LlrpError>) -> (code: i32)
    ensures
        code == (if failure is None { 0i32 } else { -1i32 }),
{
    match failure {
        None => 0,
        Some(_) => -1,
    }
}

/// The process exit code for a finished run: 0 for success, else the error's code.
pub fn exit_code(failure: Option<LlrpError>) -> (code: i32)
    ensures
        code == (match failure {
            None => 0i32,
            Some(e) => e.spec_exit_code(),
        }),
{
    match failure {
        None => 0,
        Some(e) => e.exit_code(),
    }
}

} // verus!
