//! The registry of message types.

use vstd::prelude::*;

verus! {

/// The message types of the protocol.
#[derive(Debug, PartialEq, Eq, Hash, Copy, Clone, Structural)]
pub enum LlrpMessageType {
    /// Number 0: no message. It marks a request that expects no response.
    NoMessage,
    GetReaderCapabilities,
    GetReaderCapabilitiesResponse,
    GetReaderConfig,
    GetReaderConfigResponse,
    SetReaderConfig,
    SetReaderConfigResponse,
    CloseConnection,
    CloseConnectionResponse,
    AddROSpec,
    AddROspecResponse,
    DeleteROSpec,
    DeleteROSpecResponse,
    StartROSpec,
    StartROSpecResponse,
    StopROSpec,
    StopROSpecResponse,
    EnableROSpec,
    EnableROSpecResponse,
    DisableROSpec,
    DisableROSpecResponse,
    GetROSpecs,
    GetROSpecsResponse,
    GetReport,
    ROAccessReport,
    Keepalive,
    KeepaliveAck,
    ReaderEventNotification,
    EnableEventsAndReports,
    ErrorMessage,
}

impl LlrpMessageType {
    /// The number that stands for this variant on the wire.
    pub open spec fn spec_value(self) -> u16 {
        match self {
            LlrpMessageType::NoMessage => 0,
            LlrpMessageType::GetReaderCapabilities => 1,
            LlrpMessageType::GetReaderCapabilitiesResponse => 11,
            LlrpMessageType::GetReaderConfig => 2,
            LlrpMessageType::GetReaderConfigResponse => 12,
            LlrpMessageType::SetReaderConfig => 3,
            LlrpMessageType::SetReaderConfigResponse => 13,
            LlrpMessageType::CloseConnection => 14,
            LlrpMessageType::CloseConnectionResponse => 4,
            LlrpMessageType::AddROSpec => 20,
            LlrpMessageType::AddROspecResponse => 30,
            LlrpMessageType::DeleteROSpec => 21,
            LlrpMessageType::DeleteROSpecResponse => 31,
            LlrpMessageType::StartROSpec => 22,
            LlrpMessageType::StartROSpecResponse => 32,
            LlrpMessageType::StopROSpec => 23,
            LlrpMessageType::StopROSpecResponse => 33,
            LlrpMessageType::EnableROSpec => 24,
            LlrpMessageType::EnableROSpecResponse => 34,
            LlrpMessageType::DisableROSpec => 25,
            LlrpMessageType::DisableROSpecResponse => 35,
            LlrpMessageType::GetROSpecs => 26,
            LlrpMessageType::GetROSpecsResponse => 36,
            LlrpMessageType::GetReport => 60,
            LlrpMessageType::ROAccessReport => 61,
            LlrpMessageType::Keepalive => 62,
            LlrpMessageType::KeepaliveAck => 72,
            LlrpMessageType::ReaderEventNotification => 63,
            LlrpMessageType::EnableEventsAndReports => 64,
            LlrpMessageType::ErrorMessage => 100,
        }
    }

    /// The variant that `value` stands for, if there is one.
    pub open spec fn spec_from_value(value: u16) -> Option<LlrpMessageType> {
        if value == 0 {
            Some(LlrpMessageType::NoMessage)
        } else if value == 1 {
            Some(LlrpMessageType::GetReaderCapabilities)
        } else if value == 11 {
            Some(LlrpMessageType::GetReaderCapabilitiesResponse)
        } else if value == 2 {
            Some(LlrpMessageType::GetReaderConfig)
        } else if value == 12 {
            Some(LlrpMessageType::GetReaderConfigResponse)
        } else if value == 3 {
            Some(LlrpMessageType::SetReaderConfig)
        } else if value == 13 {
            Some(LlrpMessageType::SetReaderConfigResponse)
        } else if value == 14 {
            Some(LlrpMessageType::CloseConnection)
        } else if value == 4 {
            Some(LlrpMessageType::CloseConnectionResponse)
        } else if value == 20 {
            Some(LlrpMessageType::AddROSpec)
        } else if value == 30 {
            Some(LlrpMessageType::AddROspecResponse)
        } else if value == 21 {
            Some(LlrpMessageType::DeleteROSpec)
        } else if value == 31 {
            Some(LlrpMessageType::DeleteROSpecResponse)
        } else if value == 22 {
            Some(LlrpMessageType::StartROSpec)
        } else if value == 32 {
            Some(LlrpMessageType::StartROSpecResponse)
        } else if value == 23 {
            Some(LlrpMessageType::StopROSpec)
        } else if value == 33 {
            Some(LlrpMessageType::StopROSpecResponse)
        } else if value == 24 {
            Some(LlrpMessageType::EnableROSpec)
        } else if value == 34 {
            Some(LlrpMessageType::EnableROSpecResponse)
        } else if value == 25 {
            Some(LlrpMessageType::DisableROSpec)
        } else if value == 35 {
            Some(LlrpMessageType::DisableROSpecResponse)
        } else if value == 26 {
            Some(LlrpMessageType::GetROSpecs)
        } else if value == 36 {
            Some(LlrpMessageType::GetROSpecsResponse)
        } else if value == 60 {
            Some(LlrpMessageType::GetReport)
        } else if value == 61 {
            Some(LlrpMessageType::ROAccessReport)
        } else if value == 62 {
            Some(LlrpMessageType::Keepalive)
        } else if value == 72 {
            Some(LlrpMessageType::KeepaliveAck)
        } else if value == 63 {
            Some(LlrpMessageType::ReaderEventNotification)
        } else if value == 64 {
            Some(LlrpMessageType::EnableEventsAndReports)
        } else if value == 100 {
            Some(LlrpMessageType::ErrorMessage)
        } else {
            None
        }
    }

    /// The number that stands for this variant on the wire.
    pub fn value(&self) -> (v: u16)
        ensures
            v == self.spec_value(),
    {
        match self {
            LlrpMessageType::NoMessage => 0,
            LlrpMessageType::GetReaderCapabilities => 1,
            LlrpMessageType::GetReaderCapabilitiesResponse => 11,
            LlrpMessageType::GetReaderConfig => 2,
            LlrpMessageType::GetReaderConfigResponse => 12,
            LlrpMessageType::SetReaderConfig => 3,
            LlrpMessageType::SetReaderConfigResponse => 13,
            LlrpMessageType::CloseConnection => 14,
            LlrpMessageType::CloseConnectionResponse => 4,
            LlrpMessageType::AddROSpec => 20,
            LlrpMessageType::AddROspecResponse => 30,
            LlrpMessageType::DeleteROSpec => 21,
            LlrpMessageType::DeleteROSpecResponse => 31,
            LlrpMessageType::StartROSpec => 22,
            LlrpMessageType::StartROSpecResponse => 32,
            LlrpMessageType::StopROSpec => 23,
            LlrpMessageType::StopROSpecResponse => 33,
            LlrpMessageType::EnableROSpec => 24,
            LlrpMessageType::EnableROSpecResponse => 34,
            LlrpMessageType::DisableROSpec => 25,
            LlrpMessageType::DisableROSpecResponse => 35,
            LlrpMessageType::GetROSpecs => 26,
            LlrpMessageType::GetROSpecsResponse => 36,
            LlrpMessageType::GetReport => 60,
            LlrpMessageType::ROAccessReport => 61,
            LlrpMessageType::Keepalive => 62,
            LlrpMessageType::KeepaliveAck => 72,
            LlrpMessageType::ReaderEventNotification => 63,
            LlrpMessageType::EnableEventsAndReports => 64,
            LlrpMessageType::ErrorMessage => 100,
        }
    }

    /// The message type that `value` stands for; `None` where no type has that number.
    pub fn from_value(value: u16) -> (r: Option<LlrpMessageType>)
        ensures
            r == Self::spec_from_value(value),
            match r {
                Some(t) => t.spec_value() == value,
                None => forall|t: LlrpMessageType| t.spec_value() != value,
            },
    {
        match value {
            0 => Some(LlrpMessageType::NoMessage),
            1 => Some(LlrpMessageType::GetReaderCapabilities),
            2 => Some(LlrpMessageType::GetReaderConfig),
            3 => Some(LlrpMessageType::SetReaderConfig),
            4 => Some(LlrpMessageType::CloseConnectionResponse),
            11 => Some(LlrpMessageType::GetReaderCapabilitiesResponse),
            12 => Some(LlrpMessageType::GetReaderConfigResponse),
            13 => Some(LlrpMessageType::SetReaderConfigResponse),
            14 => Some(LlrpMessageType::CloseConnection),
            20 => Some(LlrpMessageType::AddROSpec),
            21 => Some(LlrpMessageType::DeleteROSpec),
            22 => Some(LlrpMessageType::StartROSpec),
            23 => Some(LlrpMessageType::StopROSpec),
            24 => Some(LlrpMessageType::EnableROSpec),
            25 => Some(LlrpMessageType::DisableROSpec),
            26 => Some(LlrpMessageType::GetROSpecs),
            30 => Some(LlrpMessageType::AddROspecResponse),
            31 => Some(LlrpMessageType::DeleteROSpecResponse),
            32 => Some(LlrpMessageType::StartROSpecResponse),
            33 => Some(LlrpMessageType::StopROSpecResponse),
            34 => Some(LlrpMessageType::EnableROSpecResponse),
            35 => Some(LlrpMessageType::DisableROSpecResponse),
            36 => Some(LlrpMessageType::GetROSpecsResponse),
            60 => Some(LlrpMessageType::GetReport),
            61 => Some(LlrpMessageType::ROAccessReport),
            62 => Some(LlrpMessageType::Keepalive),
            63 => Some(LlrpMessageType::ReaderEventNotification),
            64 => Some(LlrpMessageType::EnableEventsAndReports),
            72 => Some(LlrpMessageType::KeepaliveAck),
            100 => Some(LlrpMessageType::ErrorMessage),
            _ => None,
        }
    }
}

/// Every message type has a number of its own: the number finds the type again.
pub proof fn lemma_message_type_round_trip(t: LlrpMessageType)
    ensures
        LlrpMessageType::spec_from_value(t.spec_value()) == Some(t),
        t.spec_value() < 1024,
{
}

/// The name of the message type that `message_type` stands for.
pub open spec fn spec_message_type_str(message_type: u16) -> Seq<char> {
    if message_type == 0 {
        "None"@
    } else if message_type == 1 {
        "GetReaderCapabilities"@
    } else if message_type == 11 {
        "GetReaderCapabilitiesResponse"@
    } else if message_type == 2 {
        "GetReaderConfig"@
    } else if message_type == 12 {
        "GetReaderConfigResponse"@
    } else if message_type == 3 {
        "SetReaderConfig"@
    } else if message_type == 13 {
        "SetReaderConfigResponse"@
    } else if message_type == 14 {
        "CloseConnection"@
    } else if message_type == 4 {
        "CloseConnectionResponse"@
    } else if message_type == 20 {
        "AddROSpec"@
    } else if message_type == 30 {
        "AddROspecResponse"@
    } else if message_type == 21 {
        "DeleteROSpec"@
    } else if message_type == 31 {
        "DeleteROSpecResponse"@
    } else if message_type == 22 {
        "StartROSpec"@
    } else if message_type == 32 {
        "StartROSpecResponse"@
    } else if message_type == 23 {
        "StopROSpec"@
    } else if message_type == 33 {
        "StopROSpecResponse"@
    } else if message_type == 24 {
        "EnableROSpec"@
    } else if message_type == 34 {
        "EnableROSpecResponse"@
    } else if message_type == 25 {
        "DisableROSpec"@
    } else if message_type == 35 {
        "DisableROSpecResponse"@
    } else if message_type == 26 {
        "GetROSpecs"@
    } else if message_type == 36 {
        "GetROSpecsResponse"@
    } else if message_type == 60 {
        "GetReport"@
    } else if message_type == 61 {
        "ROAccessReport"@
    } else if message_type == 62 {
        "Keepalive"@
    } else if message_type == 72 {
        "KeepaliveAck"@
    } else if message_type == 63 {
        "ReaderEventNotification"@
    } else if message_type == 64 {
        "EnableEventsAndReports"@
    } else if message_type == 100 {
        "ErrorMessage"@
    } else {
        "Unknown message type"@
    }
}

/// The name of the message type that `message_type` stands for, as the type's
/// variant is spelled; `"Unknown message type"` where no type has that number.
pub fn get_message_type_str(message_type: u16) -> (name: &'static str)
    ensures
        name@ == spec_message_type_str(message_type),
{
    match message_type {
        0 => "None",
        1 => "GetReaderCapabilities",
        2 => "GetReaderConfig",
        3 => "SetReaderConfig",
        4 => "CloseConnectionResponse",
        11 => "GetReaderCapabilitiesResponse",
        12 => "GetReaderConfigResponse",
        13 => "SetReaderConfigResponse",
        14 => "CloseConnection",
        20 => "AddROSpec",
        21 => "DeleteROSpec",
        22 => "StartROSpec",
        23 => "StopROSpec",
        24 => "EnableROSpec",
        25 => "DisableROSpec",
        26 => "GetROSpecs",
        30 => "AddROspecResponse",
        31 => "DeleteROSpecResponse",
        32 => "StartROSpecResponse",
        33 => "StopROSpecResponse",
        34 => "EnableROSpecResponse",
        35 => "DisableROSpecResponse",
        36 => "GetROSpecsResponse",
        60 => "GetReport",
        61 => "ROAccessReport",
        62 => "Keepalive",
        63 => "ReaderEventNotification",
        64 => "EnableEventsAndReports",
        72 => "KeepaliveAck",
        100 => "ErrorMessage",
        _ => "Unknown message type",
    }
}

} // verus!
