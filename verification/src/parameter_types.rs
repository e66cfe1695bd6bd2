//! The registry of parameter types.

use vstd::prelude::*;

verus! {

/// The parameter types of the protocol.
#[derive(Debug, PartialEq, Eq, Hash, Copy, Clone, Structural)]
pub enum LlrpParameterType {
    UTCTimeStamp,
    Uptime,
    GeneralDeviceCapabilities,
    MaximumReceiveSensitivity,
    ReceiveSensitivityTableEntry,
    PerAntennaAirProtocol,
    GPIPCapabilities,
    LLRPCapabilities,
    RegulatoryCapabilities,
    UHFBandCapabilities,
    TransmitPowerLevelTableEntry,
    FrequencyInformation,
    FrequencyHopTable,
    FixedFrequencyTable,
    PerAntennaReceiveSensitivityRange,
    RFSurveyFrequencyCapabilities,
    ROSpec,
    ROBoundarySpec,
    ROSpecStartTrigger,
    PeriodicTriggerValue,
    GPITriggerValue,
    ROSpecStopTrigger,
    AISpec,
    AISpecStopTrigger,
    TagObservationTrigger,
    InventoryParameterSpec,
    RFSurveySpec,
    RFSurveySpecStopTrigger,
    LoopSpec,
    AccessSpec,
    AccessSpecStopTrigger,
    AccessCommand,
    ClientRequestOpSpec,
    ClientRequestResponse,
    LLRPConfigurationStateValue,
    Identification,
    GPOWriteData,
    KeepAliveSpec,
    AntennaProperties,
    AntennaConfiguration,
    RFReceiver,
    RFTransmitter,
    GPIPortCurrentState,
    EventsAndReports,
    ROReportSpec,
    TagReportContentSelector,
    TagReportData,
    EPCData,
    EPC96,
    ReaderEventNotificationData,
    ConnAttemptEvent,
    LLRPStatus,
    C1G2LLRPCapabilities,
    C1G2UHFRFModeTable,
    C1G2UHFRFModeTableEntry,
    Custom,
}

impl LlrpParameterType {
    /// The number that stands for this variant on the wire.
    pub open spec fn spec_value(self) -> u16 {
        match self {
            LlrpParameterType::UTCTimeStamp => 128,
            LlrpParameterType::Uptime => 129,
            LlrpParameterType::GeneralDeviceCapabilities => 137,
            LlrpParameterType::MaximumReceiveSensitivity => 363,
            LlrpParameterType::ReceiveSensitivityTableEntry => 139,
            LlrpParameterType::PerAntennaAirProtocol => 140,
            LlrpParameterType::GPIPCapabilities => 141,
            LlrpParameterType::LLRPCapabilities => 142,
            LlrpParameterType::RegulatoryCapabilities => 143,
            LlrpParameterType::UHFBandCapabilities => 144,
            LlrpParameterType::TransmitPowerLevelTableEntry => 145,
            LlrpParameterType::FrequencyInformation => 146,
            LlrpParameterType::FrequencyHopTable => 147,
            LlrpParameterType::FixedFrequencyTable => 148,
            LlrpParameterType::PerAntennaReceiveSensitivityRange => 149,
            LlrpParameterType::RFSurveyFrequencyCapabilities => 365,
            LlrpParameterType::ROSpec => 177,
            LlrpParameterType::ROBoundarySpec => 178,
            LlrpParameterType::ROSpecStartTrigger => 179,
            LlrpParameterType::PeriodicTriggerValue => 180,
            LlrpParameterType::GPITriggerValue => 181,
            LlrpParameterType::ROSpecStopTrigger => 182,
            LlrpParameterType::AISpec => 183,
            LlrpParameterType::AISpecStopTrigger => 184,
            LlrpParameterType::TagObservationTrigger => 185,
            LlrpParameterType::InventoryParameterSpec => 186,
            LlrpParameterType::RFSurveySpec => 187,
            LlrpParameterType::RFSurveySpecStopTrigger => 188,
            LlrpParameterType::LoopSpec => 355,
            LlrpParameterType::AccessSpec => 207,
            LlrpParameterType::AccessSpecStopTrigger => 208,
            LlrpParameterType::AccessCommand => 209,
            LlrpParameterType::ClientRequestOpSpec => 210,
            LlrpParameterType::ClientRequestResponse => 211,
            LlrpParameterType::LLRPConfigurationStateValue => 217,
            LlrpParameterType::Identification => 218,
            LlrpParameterType::GPOWriteData => 219,
            LlrpParameterType::KeepAliveSpec => 220,
            LlrpParameterType::AntennaProperties => 221,
            LlrpParameterType::AntennaConfiguration => 222,
            LlrpParameterType::RFReceiver => 223,
            LlrpParameterType::RFTransmitter => 224,
            LlrpParameterType::GPIPortCurrentState => 225,
            LlrpParameterType::EventsAndReports => 226,
            LlrpParameterType::ROReportSpec => 237,
            LlrpParameterType::TagReportContentSelector => 238,
            LlrpParameterType::TagReportData => 240,
            LlrpParameterType::EPCData => 241,
            LlrpParameterType::EPC96 => 13,
            LlrpParameterType::ReaderEventNotificationData => 246,
            LlrpParameterType::ConnAttemptEvent => 256,
            LlrpParameterType::LLRPStatus => 287,
            LlrpParameterType::C1G2LLRPCapabilities => 327,
            LlrpParameterType::C1G2UHFRFModeTable => 328,
            LlrpParameterType::C1G2UHFRFModeTableEntry => 329,
            LlrpParameterType::Custom => 1023,
        }
    }

    /// The variant that `value` stands for, if there is one.
    pub open spec fn spec_from_value(value: u16) -> Option<LlrpParameterType> {
        if value == 128 {
            Some(LlrpParameterType::UTCTimeStamp)
        } else if value == 129 {
            Some(LlrpParameterType::Uptime)
        } else if value == 137 {
            Some(LlrpParameterType::GeneralDeviceCapabilities)
        } else if value == 363 {
            Some(LlrpParameterType::MaximumReceiveSensitivity)
        } else if value == 139 {
            Some(LlrpParameterType::ReceiveSensitivityTableEntry)
        } else if value == 140 {
            Some(LlrpParameterType::PerAntennaAirProtocol)
        } else if value == 141 {
            Some(LlrpParameterType::GPIPCapabilities)
        } else if value == 142 {
            Some(LlrpParameterType::LLRPCapabilities)
        } else if value == 143 {
            Some(LlrpParameterType::RegulatoryCapabilities)
        } else if value == 144 {
            Some(LlrpParameterType::UHFBandCapabilities)
        } else if value == 145 {
            Some(LlrpParameterType::TransmitPowerLevelTableEntry)
        } else if value == 146 {
            Some(LlrpParameterType::FrequencyInformation)
        } else if value == 147 {
            Some(LlrpParameterType::FrequencyHopTable)
        } else if value == 148 {
            Some(LlrpParameterType::FixedFrequencyTable)
        } else if value == 149 {
            Some(LlrpParameterType::PerAntennaReceiveSensitivityRange)
        } else if value == 365 {
            Some(LlrpParameterType::RFSurveyFrequencyCapabilities)
        } else if value == 177 {
            Some(LlrpParameterType::ROSpec)
        } else if value == 178 {
            Some(LlrpParameterType::ROBoundarySpec)
        } else if value == 179 {
            Some(LlrpParameterType::ROSpecStartTrigger)
        } else if value == 180 {
            Some(LlrpParameterType::PeriodicTriggerValue)
        } else if value == 181 {
            Some(LlrpParameterType::GPITriggerValue)
        } else if value == 182 {
            Some(LlrpParameterType::ROSpecStopTrigger)
        } else if value == 183 {
            Some(LlrpParameterType::AISpec)
        } else if value == 184 {
            Some(LlrpParameterType::AISpecStopTrigger)
        } else if value == 185 {
            Some(LlrpParameterType::TagObservationTrigger)
        } else if value == 186 {
            Some(LlrpParameterType::InventoryParameterSpec)
        } else if value == 187 {
            Some(LlrpParameterType::RFSurveySpec)
        } else if value == 188 {
            Some(LlrpParameterType::RFSurveySpecStopTrigger)
        } else if value == 355 {
            Some(LlrpParameterType::LoopSpec)
        } else if value == 207 {
            Some(LlrpParameterType::AccessSpec)
        } else if value == 208 {
            Some(LlrpParameterType::AccessSpecStopTrigger)
        } else if value == 209 {
            Some(LlrpParameterType::AccessCommand)
        } else if value == 210 {
            Some(LlrpParameterType::ClientRequestOpSpec)
        } else if value == 211 {
            Some(LlrpParameterType::ClientRequestResponse)
        } else if value == 217 {
            Some(LlrpParameterType::LLRPConfigurationStateValue)
        } else if value == 218 {
            Some(LlrpParameterType::Identification)
        } else if value == 219 {
            Some(LlrpParameterType::GPOWriteData)
        } else if value == 220 {
            Some(LlrpParameterType::KeepAliveSpec)
        } else if value == 221 {
            Some(LlrpParameterType::AntennaProperties)
        } else if value == 222 {
            Some(LlrpParameterType::AntennaConfiguration)
        } else if value == 223 {
            Some(LlrpParameterType::RFReceiver)
        } else if value == 224 {
            Some(LlrpParameterType::RFTransmitter)
        } else if value == 225 {
            Some(LlrpParameterType::GPIPortCurrentState)
        } else if value == 226 {
            Some(LlrpParameterType::EventsAndReports)
        } else if value == 237 {
            Some(LlrpParameterType::ROReportSpec)
        } else if value == 238 {
            Some(LlrpParameterType::TagReportContentSelector)
        } else if value == 240 {
            Some(LlrpParameterType::TagReportData)
        } else if value == 241 {
            Some(LlrpParameterType::EPCData)
        } else if value == 13 {
            Some(LlrpParameterType::EPC96)
        } else if value == 246 {
            Some(LlrpParameterType::ReaderEventNotificationData)
        } else if value == 256 {
            Some(LlrpParameterType::ConnAttemptEvent)
        } else if value == 287 {
            Some(LlrpParameterType::LLRPStatus)
        } else if value == 327 {
            Some(LlrpParameterType::C1G2LLRPCapabilities)
        } else if value == 328 {
            Some(LlrpParameterType::C1G2UHFRFModeTable)
        } else if value == 329 {
            Some(LlrpParameterType::C1G2UHFRFModeTableEntry)
        } else if value == 1023 {
            Some(LlrpParameterType::Custom)
        } else {
            None
        }
    }

    /// The number that stands for this variant on the wire.
    pub fn value(&self) -> (v: u16)
        ensures
            v == self.spec_value(),
    {
        match self {
            LlrpParameterType::UTCTimeStamp => 128,
            LlrpParameterType::Uptime => 129,
            LlrpParameterType::GeneralDeviceCapabilities => 137,
            LlrpParameterType::MaximumReceiveSensitivity => 363,
            LlrpParameterType::ReceiveSensitivityTableEntry => 139,
            LlrpParameterType::PerAntennaAirProtocol => 140,
            LlrpParameterType::GPIPCapabilities => 141,
            LlrpParameterType::LLRPCapabilities => 142,
            LlrpParameterType::RegulatoryCapabilities => 143,
            LlrpParameterType::UHFBandCapabilities => 144,
            LlrpParameterType::TransmitPowerLevelTableEntry => 145,
            LlrpParameterType::FrequencyInformation => 146,
            LlrpParameterType::FrequencyHopTable => 147,
            LlrpParameterType::FixedFrequencyTable => 148,
            LlrpParameterType::PerAntennaReceiveSensitivityRange => 149,
            LlrpParameterType::RFSurveyFrequencyCapabilities => 365,
            LlrpParameterType::ROSpec => 177,
            LlrpParameterType::ROBoundarySpec => 178,
            LlrpParameterType::ROSpecStartTrigger => 179,
            LlrpParameterType::PeriodicTriggerValue => 180,
            LlrpParameterType::GPITriggerValue => 181,
            LlrpParameterType::ROSpecStopTrigger => 182,
            LlrpParameterType::AISpec => 183,
            LlrpParameterType::AISpecStopTrigger => 184,
            LlrpParameterType::TagObservationTrigger => 185,
            LlrpParameterType::InventoryParameterSpec => 186,
            LlrpParameterType::RFSurveySpec => 187,
            LlrpParameterType::RFSurveySpecStopTrigger => 188,
            LlrpParameterType::LoopSpec => 355,
            LlrpParameterType::AccessSpec => 207,
            LlrpParameterType::AccessSpecStopTrigger => 208,
            LlrpParameterType::AccessCommand => 209,
            LlrpParameterType::ClientRequestOpSpec => 210,
            LlrpParameterType::ClientRequestResponse => 211,
            LlrpParameterType::LLRPConfigurationStateValue => 217,
            LlrpParameterType::Identification => 218,
            LlrpParameterType::GPOWriteData => 219,
            LlrpParameterType::KeepAliveSpec => 220,
            LlrpParameterType::AntennaProperties => 221,
            LlrpParameterType::AntennaConfiguration => 222,
            LlrpParameterType::RFReceiver => 223,
            LlrpParameterType::RFTransmitter => 224,
            LlrpParameterType::GPIPortCurrentState => 225,
            LlrpParameterType::EventsAndReports => 226,
            LlrpParameterType::ROReportSpec => 237,
            LlrpParameterType::TagReportContentSelector => 238,
            LlrpParameterType::TagReportData => 240,
            LlrpParameterType::EPCData => 241,
            LlrpParameterType::EPC96 => 13,
            LlrpParameterType::ReaderEventNotificationData => 246,
            LlrpParameterType::ConnAttemptEvent => 256,
            LlrpParameterType::LLRPStatus => 287,
            LlrpParameterType::C1G2LLRPCapabilities => 327,
            LlrpParameterType::C1G2UHFRFModeTable => 328,
            LlrpParameterType::C1G2UHFRFModeTableEntry => 329,
            LlrpParameterType::Custom => 1023,
        }
    }

    /// The parameter type that `value` stands for; `None` where no type has that number.
    pub fn from_value(value: u16) -> (r: Option<LlrpParameterType>)
        ensures
            r == Self::spec_from_value(value),
            match r {
                Some(t) => t.spec_value() == value,
                None => forall|t: LlrpParameterType| t.spec_value() != value,
            },
    {
        match value {
            13 => Some(LlrpParameterType::EPC96),
            128 => Some(LlrpParameterType::UTCTimeStamp),
            129 => Some(LlrpParameterType::Uptime),
            137 => Some(LlrpParameterType::GeneralDeviceCapabilities),
            139 => Some(LlrpParameterType::ReceiveSensitivityTableEntry),
            140 => Some(LlrpParameterType::PerAntennaAirProtocol),
            141 => Some(LlrpParameterType::GPIPCapabilities),
            142 => Some(LlrpParameterType::LLRPCapabilities),
            143 => Some(LlrpParameterType::RegulatoryCapabilities),
            144 => Some(LlrpParameterType::UHFBandCapabilities),
            145 => Some(LlrpParameterType::TransmitPowerLevelTableEntry),
            146 => Some(LlrpParameterType::FrequencyInformation),
            147 => Some(LlrpParameterType::FrequencyHopTable),
            148 => Some(LlrpParameterType::FixedFrequencyTable),
            149 => Some(LlrpParameterType::PerAntennaReceiveSensitivityRange),
            177 => Some(LlrpParameterType::ROSpec),
            178 => Some(LlrpParameterType::ROBoundarySpec),
            179 => Some(LlrpParameterType::ROSpecStartTrigger),
            180 => Some(LlrpParameterType::PeriodicTriggerValue),
            181 => Some(LlrpParameterType::GPITriggerValue),
            182 => Some(LlrpParameterType::ROSpecStopTrigger),
            183 => Some(LlrpParameterType::AISpec),
            184 => Some(LlrpParameterType::AISpecStopTrigger),
            185 => Some(LlrpParameterType::TagObservationTrigger),
            186 => Some(LlrpParameterType::InventoryParameterSpec),
            187 => Some(LlrpParameterType::RFSurveySpec),
            188 => Some(LlrpParameterType::RFSurveySpecStopTrigger),
            207 => Some(LlrpParameterType::AccessSpec),
            208 => Some(LlrpParameterType::AccessSpecStopTrigger),
            209 => Some(LlrpParameterType::AccessCommand),
            210 => Some(LlrpParameterType::ClientRequestOpSpec),
            211 => Some(LlrpParameterType::ClientRequestResponse),
            217 => Some(LlrpParameterType::LLRPConfigurationStateValue),
            218 => Some(LlrpParameterType::Identification),
            219 => Some(LlrpParameterType::GPOWriteData),
            220 => Some(LlrpParameterType::KeepAliveSpec),
            221 => Some(LlrpParameterType::AntennaProperties),
            222 => Some(LlrpParameterType::AntennaConfiguration),
            223 => Some(LlrpParameterType::RFReceiver),
            224 => Some(LlrpParameterType::RFTransmitter),
            225 => Some(LlrpParameterType::GPIPortCurrentState),
            226 => Some(LlrpParameterType::EventsAndReports),
            237 => Some(LlrpParameterType::ROReportSpec),
            238 => Some(LlrpParameterType::TagReportContentSelector),
            240 => Some(LlrpParameterType::TagReportData),
            241 => Some(LlrpParameterType::EPCData),
            246 => Some(LlrpParameterType::ReaderEventNotificationData),
            256 => Some(LlrpParameterType::ConnAttemptEvent),
            287 => Some(LlrpParameterType::LLRPStatus),
            327 => Some(LlrpParameterType::C1G2LLRPCapabilities),
            328 => Some(LlrpParameterType::C1G2UHFRFModeTable),
            329 => Some(LlrpParameterType::C1G2UHFRFModeTableEntry),
            355 => Some(LlrpParameterType::LoopSpec),
            363 => Some(LlrpParameterType::MaximumReceiveSensitivity),
            365 => Some(LlrpParameterType::RFSurveyFrequencyCapabilities),
            1023 => Some(LlrpParameterType::Custom),
            _ => None,
        }
    }

    /// The parameter type that `value` stands for, with `Custom` standing in for
    /// every number that no type has.
    pub open spec fn spec_from_value_or_custom(value: u16) -> LlrpParameterType {
        match Self::spec_from_value(value) {
            Some(t) => t,
            None => LlrpParameterType::Custom,
        }
    }
}

/// Every parameter type has a number of its own: the number finds the type again.
pub proof fn lemma_parameter_type_round_trip(t: LlrpParameterType)
    ensures
        LlrpParameterType::spec_from_value(t.spec_value()) == Some(t),
        LlrpParameterType::spec_from_value_or_custom(t.spec_value()) == t,
        t.spec_value() < 1024,
{
}

} // verus!
