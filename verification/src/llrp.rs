//! Messages: the 10-byte header, the requests that the client sends, and the
//! responses that it reads.

use crate::config::{ROSpecConfig, ReaderConfig};
use crate::encoder::{
    encode_parameter, lemma_tlv_len, spec_encode_children, spec_encode_parameter,
    spec_parameter_body, spec_tlv, FixedFields, Parameter,
};
use crate::error::LlrpError;
use crate::message_types::{lemma_message_type_round_trip, LlrpMessageType};
use crate::parameter_types::LlrpParameterType;
use crate::params::{
    lemma_seq_views_push, parse_parameters, seq_views, spec_decode_c1g2_llrp_capabilities,
    spec_decode_general_device_capabilities, spec_decode_identification,
    spec_decode_llrp_capabilities, spec_decode_llrp_status, spec_decode_regulatory_capabilities,
    spec_decode_tag_report_data, spec_parse_parameters, C1G2LLRPCapabilities,
    GeneralDeviceCapabilities, Identification, LLRPCapabilities, LLRPStatus, LlrpParameter,
    LlrpParameterData, LlrpParameterDataView, ParameterView, RegulatoryCapabilities,
    TagReportData,
};
use crate::wire::{
    buffer_as_slice, buffer_len, buffer_new, contents, get_u16, get_u32, lemma_u16_round_trip,
    lemma_u32_round_trip, put_slice, put_u16, put_u32, put_u8, split_to, u16_at, u16_be_bytes,
    u32_at, u32_be_bytes,
};
use bytes::BytesMut;
use vstd::prelude::*;
use vstd::slice::slice_to_vec;

verus! {

/// A message: its type, its length on the wire, its id and its payload.
///
/// The length counts the 10 octets of the header and the payload.
#[derive(Debug, Clone, PartialEq, Eq)]
pub struct LlrpMessage {
    pub message_type: LlrpMessageType,
    pub message_length: u32,
    pub message_id: u32,
    pub payload: Vec<u8>,
}

/// A message with its payload as a sequence.
pub struct MessageView {
    pub message_type: LlrpMessageType,
    pub message_length: u32,
    pub message_id: u32,
    pub payload: Seq<u8>,
}

impl MessageView {
    /// The length is that of the header and the payload together.
    pub open spec fn wf(self) -> bool {
        self.message_length == 10 + self.payload.len()
    }
}

impl View for LlrpMessage {
    type V = MessageView;

    open spec fn view(&self) -> MessageView {
        MessageView {
            message_type: self.message_type,
            message_length: self.message_length,
            message_id: self.message_id,
            payload: self.payload@,
        }
    }
}

/// The message of the given type, id and payload, with the length that they make.
pub open spec fn spec_message(
    message_type: LlrpMessageType,
    message_id: u32,
    payload: Seq<u8>,
) -> MessageView {
    MessageView {
        message_type,
        message_length: (10 + payload.len()) as u32,
        message_id,
        payload,
    }
}

/// The big-endian octets of each value of a list, one value after the other.
pub open spec fn spec_u16_list_bytes(values: Seq<u16>) -> Seq<u8>
    decreases values.len(),
{
    if values.len() == 0 {
        Seq::empty()
    } else {
        spec_u16_list_bytes(values.drop_last()) + u16_be_bytes(values.last())
    }
}

/// A list of 16-bit values takes two octets for each.
pub proof fn lemma_u16_list_bytes_len(values: Seq<u16>)
    ensures
        spec_u16_list_bytes(values).len() == 2 * values.len(),
    decreases values.len(),
{
    if values.len() > 0 {
        lemma_u16_list_bytes_len(values.drop_last());
    }
}

impl FixedFields for ReaderConfig {
    /// `AntennaConfiguration` holds antenna id 0, which stands for all antennas;
    /// `RFReceiver` holds the index of the receive sensitivity; `RFTransmitter`
    /// holds the hop table, the channel and the index of the transmit power.
    open spec fn spec_fixed_fields(&self, param_type: LlrpParameterType) -> Seq<u8> {
        match param_type {
            LlrpParameterType::AntennaConfiguration => u16_be_bytes(0),
            LlrpParameterType::RFReceiver => u16_be_bytes(self.rx_power_table_index),
            LlrpParameterType::RFTransmitter => u16_be_bytes(self.hop_table_id) + u16_be_bytes(
                self.channel_index,
            ) + u16_be_bytes(self.tx_power_table_index),
            _ => Seq::empty(),
        }
    }

    fn write_fixed_fields(&self, param_type: LlrpParameterType, buffer: &mut BytesMut) {
        match param_type {
            LlrpParameterType::AntennaConfiguration => {
                put_u16(buffer, 0);
            },
            LlrpParameterType::RFReceiver => {
                put_u16(buffer, self.rx_power_table_index);
            },
            LlrpParameterType::RFTransmitter => {
                put_u16(buffer, self.hop_table_id);
                put_u16(buffer, self.channel_index);
                put_u16(buffer, self.tx_power_table_index);
            },
            _ => {},
        }
    }
}

impl FixedFields for ROSpecConfig {
    /// `ROSpec` holds the id, the priority and the current state 0.
    /// `ROBoundarySpec` holds the start trigger and the stop trigger, the latter
    /// with four octets of 0. `AISpec` holds the antenna count, the antenna ids,
    /// the stop trigger with four octets of 0, and the inventory parameter spec.
    /// `ROReportSpec` holds the report trigger, its N, and the content selector.
    open spec fn spec_fixed_fields(&self, param_type: LlrpParameterType) -> Seq<u8> {
        match param_type {
            LlrpParameterType::ROSpec => u32_be_bytes(self.rospec_id) + seq![self.priority, 0u8],
            LlrpParameterType::ROBoundarySpec => spec_tlv(
                LlrpParameterType::ROSpecStartTrigger,
                seq![self.ROSpecStartTriggerType],
            ) + spec_tlv(
                LlrpParameterType::ROSpecStopTrigger,
                seq![self.ROSpecStopTriggerType] + u32_be_bytes(0),
            ),
            LlrpParameterType::AISpec => u16_be_bytes(self.antenna_count) + spec_u16_list_bytes(
                self.antennas@,
            ) + spec_tlv(
                LlrpParameterType::AISpecStopTrigger,
                seq![self.AISpecStopTriggerType] + u32_be_bytes(0),
            ) + spec_tlv(
                LlrpParameterType::InventoryParameterSpec,
                u16_be_bytes(self.InventoryParamSpecID) + seq![self.AIProtocol],
            ),
            LlrpParameterType::ROReportSpec => seq![self.ROReportTriggerType] + u16_be_bytes(
                self.ROReportTrigger_N,
            ) + spec_tlv(
                LlrpParameterType::TagReportContentSelector,
                u16_be_bytes(self.ReportContentSelector),
            ),
            _ => Seq::empty(),
        }
    }

    fn write_fixed_fields(&self, param_type: LlrpParameterType, buffer: &mut BytesMut) {
        let ghost before = contents(*buffer);
        match param_type {
            LlrpParameterType::ROSpec => {
                put_u32(buffer, self.rospec_id);
                put_u8(buffer, self.priority);
                put_u8(buffer, 0);
            },
            LlrpParameterType::ROBoundarySpec => {
                put_u16(buffer, LlrpParameterType::ROSpecStartTrigger.value());
                put_u16(buffer, 5);
                put_u8(buffer, self.ROSpecStartTriggerType);

                put_u16(buffer, LlrpParameterType::ROSpecStopTrigger.value());
                put_u16(buffer, 9);
                put_u8(buffer, self.ROSpecStopTriggerType);
                put_u32(buffer, 0);
            },
            LlrpParameterType::AISpec => {
                put_u16(buffer, self.antenna_count);

                let mut i: usize = 0;
                while i < self.antennas.len()
                    invariant
                        i <= self.antennas@.len(),
                        contents(*buffer) == before + u16_be_bytes(self.antenna_count)
                            + spec_u16_list_bytes(self.antennas@.take(i as int)),
                    decreases self.antennas@.len() - i,
                {
                    put_u16(buffer, self.antennas[i]);
                    assert(self.antennas@.take(i + 1).drop_last() =~= self.antennas@.take(
                        i as int,
                    ));
                    i = i + 1;
                }
                assert(self.antennas@.take(i as int) =~= self.antennas@);

                put_u16(buffer, LlrpParameterType::AISpecStopTrigger.value());
                put_u16(buffer, 9);
                put_u8(buffer, self.AISpecStopTriggerType);
                put_u32(buffer, 0);

                put_u16(buffer, LlrpParameterType::InventoryParameterSpec.value());
                put_u16(buffer, 7);
                put_u16(buffer, self.InventoryParamSpecID);
                put_u8(buffer, self.AIProtocol);
            },
            LlrpParameterType::ROReportSpec => {
                put_u8(buffer, self.ROReportTriggerType);
                put_u16(buffer, self.ROReportTrigger_N);

                put_u16(buffer, LlrpParameterType::TagReportContentSelector.value());
                put_u16(buffer, 6);
                put_u16(buffer, self.ReportContentSelector);
            },
            _ => {},
        }
    }
}

/// The payload of `GetReaderConfig`: seven octets of 0. They stand for antenna
/// 0, the requested data 0, and the GPI and GPO port 0, which selects everything.
pub open spec fn spec_get_reader_config_payload() -> Seq<u8> {
    seq![0u8, 0u8, 0u8, 0u8, 0u8, 0u8, 0u8]
}

/// The payload of `SetReaderConfig`: an octet whose high bit asks for the factory
/// settings, then the configuration of all antennas.
pub open spec fn spec_set_reader_config_payload(config: ReaderConfig) -> Seq<u8> {
    seq![0x80u8] + spec_tlv(
        LlrpParameterType::AntennaConfiguration,
        config.spec_fixed_fields(LlrpParameterType::AntennaConfiguration) + spec_tlv(
            LlrpParameterType::RFReceiver,
            config.spec_fixed_fields(LlrpParameterType::RFReceiver),
        ) + spec_tlv(
            LlrpParameterType::RFTransmitter,
            config.spec_fixed_fields(LlrpParameterType::RFTransmitter),
        ),
    )
}

/// The payload of `AddROSpec`: the `ROSpec` with its boundary spec, its antenna
/// inventory spec and its report spec.
pub open spec fn spec_add_rospec_payload(config: ROSpecConfig) -> Seq<u8> {
    spec_tlv(
        LlrpParameterType::ROSpec,
        config.spec_fixed_fields(LlrpParameterType::ROSpec) + spec_tlv(
            LlrpParameterType::ROBoundarySpec,
            config.spec_fixed_fields(LlrpParameterType::ROBoundarySpec),
        ) + spec_tlv(
            LlrpParameterType::AISpec,
            config.spec_fixed_fields(LlrpParameterType::AISpec),
        ) + spec_tlv(
            LlrpParameterType::ROReportSpec,
            config.spec_fixed_fields(LlrpParameterType::ROReportSpec),
        ),
    )
}

/// The payload of `AddROSpec` has 63 octets and two more for each antenna id.
pub proof fn lemma_add_rospec_payload_len(config: ROSpecConfig)
    ensures
        spec_add_rospec_payload(config).len() == 63 + 2 * config.antennas@.len(),
{
    lemma_u16_list_bytes_len(config.antennas@);
    let boundary = config.spec_fixed_fields(LlrpParameterType::ROBoundarySpec);
    let ai = config.spec_fixed_fields(LlrpParameterType::AISpec);
    let report = config.spec_fixed_fields(LlrpParameterType::ROReportSpec);
    assert(boundary.len() == 14) by {
        lemma_tlv_len(LlrpParameterType::ROSpecStartTrigger, seq![config.ROSpecStartTriggerType]);
        lemma_tlv_len(
            LlrpParameterType::ROSpecStopTrigger,
            seq![config.ROSpecStopTriggerType] + u32_be_bytes(0),
        );
    }
    assert(ai.len() == 18 + 2 * config.antennas@.len()) by {
        lemma_tlv_len(
            LlrpParameterType::AISpecStopTrigger,
            seq![config.AISpecStopTriggerType] + u32_be_bytes(0),
        );
        lemma_tlv_len(
            LlrpParameterType::InventoryParameterSpec,
            u16_be_bytes(config.InventoryParamSpecID) + seq![config.AIProtocol],
        );
    }
    assert(report.len() == 9) by {
        lemma_tlv_len(
            LlrpParameterType::TagReportContentSelector,
            u16_be_bytes(config.ReportContentSelector),
        );
    }
    lemma_tlv_len(LlrpParameterType::ROBoundarySpec, boundary);
    lemma_tlv_len(LlrpParameterType::AISpec, ai);
    lemma_tlv_len(LlrpParameterType::ROReportSpec, report);
    lemma_tlv_len(
        LlrpParameterType::ROSpec,
        config.spec_fixed_fields(LlrpParameterType::ROSpec) + spec_tlv(
            LlrpParameterType::ROBoundarySpec,
            boundary,
        ) + spec_tlv(LlrpParameterType::AISpec, ai) + spec_tlv(
            LlrpParameterType::ROReportSpec,
            report,
        ),
    );
}

/// The frame of a message: the version 1 and the type in 16 bits, the length,
/// the id, and the payload.
pub open spec fn spec_encode_message(m: MessageView) -> Seq<u8> {
    u16_be_bytes((1024 + m.message_type.spec_value()) as u16) + u32_be_bytes(m.message_length)
        + u32_be_bytes(m.message_id) + m.payload
}

/// The message at the start of `b`.
///
/// The low 10 bits of the first 16 are the type; the version bits above them are
/// not looked at. `MalformedFrame` where `b` is shorter than a header, where the
/// length is under 10, or where `b` is shorter than the length; else
/// `UnknownMessageType` where the registry has no such type.
pub open spec fn spec_decode_message(b: Seq<u8>) -> Result<MessageView, LlrpError> {
    if b.len() < 10 {
        Err(LlrpError::MalformedFrame)
    } else if u32_at(b, 2) < 10 || b.len() < u32_at(b, 2) {
        Err(LlrpError::MalformedFrame)
    } else {
        match LlrpMessageType::spec_from_value(u16_at(b, 0) % 1024) {
            None => Err(LlrpError::UnknownMessageType),
            Some(message_type) => Ok(
                MessageView {
                    message_type,
                    message_length: u32_at(b, 2),
                    message_id: u32_at(b, 6),
                    payload: b.subrange(10, u32_at(b, 2) as int),
                },
            ),
        }
    }
}

/// What reading a message leaves of `b`: all of it where it is shorter than a
/// header; what follows the header where the length is refused; else what
/// follows the frame.
pub open spec fn spec_after_decode(b: Seq<u8>) -> Seq<u8> {
    if b.len() < 10 {
        b
    } else if u32_at(b, 2) < 10 || b.len() < u32_at(b, 2) {
        b.skip(10)
    } else {
        b.skip(u32_at(b, 2) as int)
    }
}

impl LlrpMessage {
    /// The message of the given type, id and payload, with the length that they
    /// make. The length has to fit its 32 bits.
    pub fn new(message_type: LlrpMessageType, message_id: u32, payload: Vec<u8>) -> (m: LlrpMessage)
        requires
            10 + payload@.len() <= u32::MAX,
        ensures
            m@ == spec_message(message_type, message_id, payload@),
            m@.wf(),
    {
        let message_length: u32 = 10 + payload.len() as u32;
        LlrpMessage { message_type, message_length, message_id, payload }
    }

    /// `EnableEventsAndReports`: no payload.
    pub fn new_enable_events_and_reports(message_id: u32) -> (m: LlrpMessage)
        ensures
            m@ == spec_message(LlrpMessageType::EnableEventsAndReports, message_id, Seq::empty()),
            m@.wf(),
    {
        LlrpMessage::new(LlrpMessageType::EnableEventsAndReports, message_id, Vec::new())
    }

    /// `GetReaderCapabilities`: one octet, 0, which asks for all capabilities.
    pub fn new_get_reader_capabilities(message_id: u32) -> (m: LlrpMessage)
        ensures
            m@ == spec_message(LlrpMessageType::GetReaderCapabilities, message_id, seq![0u8]),
            m@.wf(),
    {
        let mut payload = buffer_new();
        put_u8(&mut payload, 0);

        LlrpMessage::new(
            LlrpMessageType::GetReaderCapabilities,
            message_id,
            slice_to_vec(buffer_as_slice(&payload)),
        )
    }

    /// `GetReaderConfig`: seven octets of 0, which select everything.
    pub fn new_get_reader_config(message_id: u32) -> (m: LlrpMessage)
        ensures
            m@ == spec_message(
                LlrpMessageType::GetReaderConfig,
                message_id,
                spec_get_reader_config_payload(),
            ),
            m@.wf(),
    {
        let mut payload = buffer_new();
        put_u16(&mut payload, 0);
        put_u8(&mut payload, 0);
        put_u16(&mut payload, 0);
        put_u16(&mut payload, 0);
        assert(contents(payload) =~= spec_get_reader_config_payload());

        LlrpMessage::new(
            LlrpMessageType::GetReaderConfig,
            message_id,
            slice_to_vec(buffer_as_slice(&payload)),
        )
    }

    /// `SetReaderConfig`: resets the reader to its factory settings and sets the
    /// receiver and the transmitter of all antennas.
    pub fn new_set_reader_config(message_id: u32, config: &ReaderConfig) -> (m: LlrpMessage)
        ensures
            m@ == spec_message(
                LlrpMessageType::SetReaderConfig,
                message_id,
                spec_set_reader_config_payload(*config),
            ),
            m@.wf(),
    {
        let rf_receiver = Parameter { param_type: LlrpParameterType::RFReceiver, payload: Vec::new() };
        let rf_transmitter = Parameter {
            param_type: LlrpParameterType::RFTransmitter,
            payload: Vec::new(),
        };
        let mut children: Vec<Parameter> = Vec::new();
        children.push(rf_receiver);
        children.push(rf_transmitter);
        let antenna_configuration = Parameter {
            param_type: LlrpParameterType::AntennaConfiguration,
            payload: children,
        };

        let mut payload = buffer_new();
        put_u8(&mut payload, 128);
        encode_parameter(&antenna_configuration, &mut payload, config);

        proof {
            let kids = antenna_configuration.payload@;
            reveal_with_fuel(spec_encode_children, 3);
            assert(spec_parameter_body(kids[0], config) =~= config.spec_fixed_fields(
                LlrpParameterType::RFReceiver,
            ));
            assert(spec_parameter_body(kids[1], config) =~= config.spec_fixed_fields(
                LlrpParameterType::RFTransmitter,
            ));
            assert(spec_encode_children(kids, config, 2) =~= spec_tlv(
                LlrpParameterType::RFReceiver,
                config.spec_fixed_fields(LlrpParameterType::RFReceiver),
            ) + spec_tlv(
                LlrpParameterType::RFTransmitter,
                config.spec_fixed_fields(LlrpParameterType::RFTransmitter),
            ));
            assert(contents(payload) =~= spec_set_reader_config_payload(*config));
        }

        LlrpMessage::new(
            LlrpMessageType::SetReaderConfig,
            message_id,
            slice_to_vec(buffer_as_slice(&payload)),
        )
    }

    /// `AddROSpec`: the reader operation of the configuration. The frame's length
    /// has to fit its 32 bits, which bounds the number of antenna ids.
    pub fn new_add_rospec(message_id: u32, config: &ROSpecConfig) -> (m: LlrpMessage)
        requires
            73 + 2 * config.antennas@.len() <= u32::MAX,
        ensures
            m@ == spec_message(
                LlrpMessageType::AddROSpec,
                message_id,
                spec_add_rospec_payload(*config),
            ),
            m@.wf(),
    {
        let ro_boundary_spec = Parameter {
            param_type: LlrpParameterType::ROBoundarySpec,
            payload: Vec::new(),
        };
        let ai_spec = Parameter { param_type: LlrpParameterType::AISpec, payload: Vec::new() };
        let ro_report_spec = Parameter {
            param_type: LlrpParameterType::ROReportSpec,
            payload: Vec::new(),
        };
        let mut children: Vec<Parameter> = Vec::new();
        children.push(ro_boundary_spec);
        children.push(ai_spec);
        children.push(ro_report_spec);
        let ro_spec = Parameter { param_type: LlrpParameterType::ROSpec, payload: children };

        let mut payload = buffer_new();
        encode_parameter(&ro_spec, &mut payload, config);

        proof {
            let kids = ro_spec.payload@;
            reveal_with_fuel(spec_encode_children, 4);
            assert(spec_parameter_body(kids[0], config) =~= config.spec_fixed_fields(
                LlrpParameterType::ROBoundarySpec,
            ));
            assert(spec_parameter_body(kids[1], config) =~= config.spec_fixed_fields(
                LlrpParameterType::AISpec,
            ));
            assert(spec_parameter_body(kids[2], config) =~= config.spec_fixed_fields(
                LlrpParameterType::ROReportSpec,
            ));
            assert(spec_encode_children(kids, config, 3) =~= spec_tlv(
                LlrpParameterType::ROBoundarySpec,
                config.spec_fixed_fields(LlrpParameterType::ROBoundarySpec),
            ) + spec_tlv(
                LlrpParameterType::AISpec,
                config.spec_fixed_fields(LlrpParameterType::AISpec),
            ) + spec_tlv(
                LlrpParameterType::ROReportSpec,
                config.spec_fixed_fields(LlrpParameterType::ROReportSpec),
            ));
            assert(contents(payload) =~= spec_add_rospec_payload(*config));
            lemma_add_rospec_payload_len(*config);
        }

        LlrpMessage::new(
            LlrpMessageType::AddROSpec,
            message_id,
            slice_to_vec(buffer_as_slice(&payload)),
        )
    }

    /// `EnableROSpec`: the id of the reader operation.
    pub fn new_enable_rospec(message_id: u32, rospec_id: u32) -> (m: LlrpMessage)
        ensures
            m@ == spec_message(LlrpMessageType::EnableROSpec, message_id, u32_be_bytes(rospec_id)),
            m@.wf(),
    {
        let mut payload = buffer_new();
        put_u32(&mut payload, rospec_id);

        LlrpMessage::new(
            LlrpMessageType::EnableROSpec,
            message_id,
            slice_to_vec(buffer_as_slice(&payload)),
        )
    }

    /// `StartROSpec`: the id of the reader operation.
    pub fn new_start_rospec(message_id: u32, rospec_id: u32) -> (m: LlrpMessage)
        ensures
            m@ == spec_message(LlrpMessageType::StartROSpec, message_id, u32_be_bytes(rospec_id)),
            m@.wf(),
    {
        let mut payload = buffer_new();
        put_u32(&mut payload, rospec_id);

        LlrpMessage::new(
            LlrpMessageType::StartROSpec,
            message_id,
            slice_to_vec(buffer_as_slice(&payload)),
        )
    }

    /// `StopROSpec`: the id of the reader operation.
    pub fn new_stop_rospec(message_id: u32, rospec_id: u32) -> (m: LlrpMessage)
        ensures
            m@ == spec_message(LlrpMessageType::StopROSpec, message_id, u32_be_bytes(rospec_id)),
            m@.wf(),
    {
        let mut payload = buffer_new();
        put_u32(&mut payload, rospec_id);

        LlrpMessage::new(
            LlrpMessageType::StopROSpec,
            message_id,
            slice_to_vec(buffer_as_slice(&payload)),
        )
    }

    /// `DeleteROSpec`: the id of the reader operation; 0 deletes all of them.
    pub fn new_delete_rospec(message_id: u32, rospec_id: u32) -> (m: LlrpMessage)
        ensures
            m@ == spec_message(LlrpMessageType::DeleteROSpec, message_id, u32_be_bytes(rospec_id)),
            m@.wf(),
    {
        let mut payload = buffer_new();
        put_u32(&mut payload, rospec_id);

        LlrpMessage::new(
            LlrpMessageType::DeleteROSpec,
            message_id,
            slice_to_vec(buffer_as_slice(&payload)),
        )
    }

    /// The frame of the message: the header, then the payload. The length that
    /// goes out is the message's `message_length` as it stands.
    pub fn encode(&self) -> (buffer: BytesMut)
        ensures
            contents(buffer) == spec_encode_message(self@),
    {
        let mut buffer = buffer_new();

        let type_value: u16 = self.message_type.value();
        proof {
            lemma_message_type_round_trip(self.message_type);
        }
        assert((1u16 << 10) | (type_value & 0x3FF) == 1024 + type_value) by (bit_vector)
            requires
                type_value < 1024,
        ;
        let version_and_type: u16 = (1u16 << 10) | (type_value & 0x3FF);

        put_u16(&mut buffer, version_and_type);
        put_u32(&mut buffer, self.message_length);
        put_u32(&mut buffer, self.message_id);
        put_slice(&mut buffer, self.payload.as_slice());

        buffer
    }

    /// Reads the message at the start of `buf` and removes its frame from `buf`.
    ///
    /// It fails with `MalformedFrame` where `buf` holds fewer than 10 octets,
    /// where the length is under 10 or where `buf` holds fewer octets than the
    /// length says; after that, with `UnknownMessageType` where the type is not
    /// in the registry. What a failed call leaves in `buf` is `spec_after_decode`.
    pub fn decode(buf: &mut BytesMut) -> (r: Result<LlrpMessage, LlrpError>)
        ensures
            result_message_view(r) == spec_decode_message(contents(*old(buf))),
            contents(*final(buf)) == spec_after_decode(contents(*old(buf))),
            contents(*old(buf)).len() >= 10 && (u32_at(contents(*old(buf)), 2) < 10 || u32_at(
                contents(*old(buf)),
                2,
            ) > contents(*old(buf)).len()) ==> r == Err::<LlrpMessage, LlrpError>(
                LlrpError::MalformedFrame,
            ),
            r matches Ok(m) ==> m@.wf(),
    {
        let ghost b = contents(*buf);
        if buffer_len(buf) < 10 {
            return Err(LlrpError::MalformedFrame);
        }
        let version_and_type: u16 = get_u16(buf);
        assert(version_and_type & 0x3FF == version_and_type % 1024) by (bit_vector);
        let message_type_value: u16 = version_and_type & 0x3FF;
        let message_length: u32 = get_u32(buf);
        let message_id: u32 = get_u32(buf);

        if message_length < 10 || buffer_len(buf) < (message_length - 10) as usize {
            return Err(LlrpError::MalformedFrame);
        }
        let frame_payload = split_to(buf, (message_length - 10) as usize);
        let payload = slice_to_vec(buffer_as_slice(&frame_payload));
        assert(payload@ =~= b.subrange(10, message_length as int));

        let message_type = match LlrpMessageType::from_value(message_type_value) {
            Some(t) => t,
            None => {
                return Err(LlrpError::UnknownMessageType);
            },
        };

        Ok(LlrpMessage { message_type, message_length, message_id, payload })
    }
}

/// The view of the message that was read, or the error as it is.
pub open spec fn result_message_view(r: Result<LlrpMessage, LlrpError>) -> Result<
    MessageView,
    LlrpError,
> {
    match r {
        Ok(m) => Ok(m@),
        Err(e) => Err(e),
    }
}

/// The first ten octets of a frame spell the version and the type, the length
/// and the id of its message.
proof fn lemma_frame_header(m: MessageView, rest: Seq<u8>)
    ensures
        (spec_encode_message(m) + rest).len() == 10 + m.payload.len() + rest.len(),
        u16_at(spec_encode_message(m) + rest, 0) == 1024 + m.message_type.spec_value(),
        u32_at(spec_encode_message(m) + rest, 2) == m.message_length,
        u32_at(spec_encode_message(m) + rest, 6) == m.message_id,
{
    lemma_message_type_round_trip(m.message_type);
    lemma_u16_round_trip((1024 + m.message_type.spec_value()) as u16);
    lemma_u32_round_trip(m.message_length);
    lemma_u32_round_trip(m.message_id);
}

/// The frame of a message is read back as the message, whatever follows it in
/// the buffer, and what follows is left: frames come off a buffer in the order
/// in which they were put there.
pub proof fn lemma_decode_first_frame(m: MessageView, rest: Seq<u8>)
    requires
        m.wf(),
    ensures
        spec_decode_message(spec_encode_message(m) + rest) == Ok::<MessageView, LlrpError>(m),
        spec_after_decode(spec_encode_message(m) + rest) == rest,
{
    let b = spec_encode_message(m) + rest;
    lemma_frame_header(m, rest);
    lemma_message_type_round_trip(m.message_type);
    assert(b.subrange(10, m.message_length as int) =~= m.payload);
}

/// Decoding the frame of a message gives the message back: its type, its id and
/// its payload, and the length that they make.
pub proof fn lemma_decode_encode(m: MessageView)
    requires
        m.wf(),
    ensures
        spec_decode_message(spec_encode_message(m)) == Ok::<MessageView, LlrpError>(m),
        spec_after_decode(spec_encode_message(m)) == Seq::<u8>::empty(),
{
    lemma_decode_first_frame(m, Seq::empty());
}

/// A frame whose length field is under 10, or says more than there is, is
/// refused as malformed, whatever else it holds.
pub proof fn lemma_declared_length_refused(b: Seq<u8>)
    requires
        b.len() >= 10,
        u32_at(b, 2) < 10 || u32_at(b, 2) > b.len(),
    ensures
        spec_decode_message(b) == Err::<MessageView, LlrpError>(LlrpError::MalformedFrame),
{
}

/// A message as the receive loop hands it on: its type, its id and its payload.
#[derive(Debug, Clone, PartialEq, Eq)]
pub struct LlrpResponse {
    pub message_type: LlrpMessageType,
    pub message_id: u32,
    pub payload: Vec<u8>,
}

/// A response with its payload as a sequence.
pub struct ResponseView {
    pub message_type: LlrpMessageType,
    pub message_id: u32,
    pub payload: Seq<u8>,
}

impl View for LlrpResponse {
    type V = ResponseView;

    open spec fn view(&self) -> ResponseView {
        ResponseView {
            message_type: self.message_type,
            message_id: self.message_id,
            payload: self.payload@,
        }
    }
}

/// What the payload of a response holds, decoded.
#[derive(Debug, Clone, PartialEq, Eq)]
pub enum LlrpResponseData {
    /// The observations of an `ROAccessReport`.
    TagReport(Vec<TagReportData>),
    /// The parameters of a `GetReaderCapabilitiesResponse`.
    ReaderCapabilities(Vec<LlrpParameterData>),
    /// The parameters of a `GetReaderConfigResponse`.
    ReaderConfig(Vec<LlrpParameterData>),
}

/// An `LlrpResponseData` with its lists as sequences.
pub enum LlrpResponseDataView {
    TagReport(Seq<Seq<u8>>),
    ReaderCapabilities(Seq<LlrpParameterDataView>),
    ReaderConfig(Seq<LlrpParameterDataView>),
}

impl View for LlrpResponseData {
    type V = LlrpResponseDataView;

    open spec fn view(&self) -> LlrpResponseDataView {
        match *self {
            LlrpResponseData::TagReport(reports) => LlrpResponseDataView::TagReport(
                seq_views(reports@),
            ),
            LlrpResponseData::ReaderCapabilities(params) => {
                LlrpResponseDataView::ReaderCapabilities(seq_views(params@))
            },
            LlrpResponseData::ReaderConfig(params) => LlrpResponseDataView::ReaderConfig(
                seq_views(params@),
            ),
        }
    }
}

/// What a parameter of a `GetReaderCapabilitiesResponse` holds, if it is one of
/// the five that the response is read for; nothing for any other parameter.
pub open spec fn spec_decode_capabilities_parameter(p: ParameterView) -> Result<
    Option<LlrpParameterDataView>,
    LlrpError,
> {
    match p.param_type {
        LlrpParameterType::LLRPStatus => match spec_decode_llrp_status(p.param_value) {
            Ok(status) => Ok(Some(LlrpParameterDataView::LLRPStatus(status))),
            Err(e) => Err(e),
        },
        LlrpParameterType::GeneralDeviceCapabilities => {
            match spec_decode_general_device_capabilities(p.param_value) {
                Ok(caps) => Ok(Some(LlrpParameterDataView::GeneralDeviceCapabilities(caps))),
                Err(e) => Err(e),
            }
        },
        LlrpParameterType::LLRPCapabilities => match spec_decode_llrp_capabilities(p.param_value) {
            Ok(caps) => Ok(Some(LlrpParameterDataView::LLRPCapabilities(caps))),
            Err(e) => Err(e),
        },
        LlrpParameterType::RegulatoryCapabilities => match spec_decode_regulatory_capabilities(
            p.param_value,
        ) {
            Ok(caps) => Ok(Some(LlrpParameterDataView::RegulatoryCapabilities(caps))),
            Err(e) => Err(e),
        },
        LlrpParameterType::C1G2LLRPCapabilities => match spec_decode_c1g2_llrp_capabilities(
            p.param_value,
        ) {
            Ok(caps) => Ok(Some(LlrpParameterDataView::C1G2LLRPCapabilities(caps))),
            Err(e) => Err(e),
        },
        _ => Ok(None),
    }
}

/// What a parameter of a `GetReaderConfigResponse` holds, if it is one of the two
/// that the response is read for; nothing for any other parameter.
pub open spec fn spec_decode_config_parameter(p: ParameterView) -> Result<
    Option<LlrpParameterDataView>,
    LlrpError,
> {
    match p.param_type {
        LlrpParameterType::LLRPStatus => match spec_decode_llrp_status(p.param_value) {
            Ok(status) => Ok(Some(LlrpParameterDataView::LLRPStatus(status))),
            Err(e) => Err(e),
        },
        LlrpParameterType::Identification => match spec_decode_identification(p.param_value) {
            Ok(id) => Ok(Some(LlrpParameterDataView::Identification(id))),
            Err(e) => Err(e),
        },
        _ => Ok(None),
    }
}

/// The parameters decoded so far, with the one that was decoded next, if one was.
pub open spec fn spec_collect(
    acc: Seq<LlrpParameterDataView>,
    decoded: Result<Option<LlrpParameterDataView>, LlrpError>,
) -> Result<Seq<LlrpParameterDataView>, LlrpError> {
    match decoded {
        Ok(Some(data)) => Ok(acc.push(data)),
        Ok(None) => Ok(acc),
        Err(e) => Err(e),
    }
}

/// `acc` with what the parameters of `ps` from the `i`-th on add, or the error of
/// the first of them that cannot be read.
pub open spec fn spec_reader_capabilities_from(
    ps: Seq<ParameterView>,
    i: int,
    acc: Seq<LlrpParameterDataView>,
) -> Result<Seq<LlrpParameterDataView>, LlrpError>
    decreases ps.len() - i,
{
    if i < 0 || i >= ps.len() {
        Ok(acc)
    } else {
        match spec_collect(acc, spec_decode_capabilities_parameter(ps[i])) {
            Err(e) => Err(e),
            Ok(next) => spec_reader_capabilities_from(ps, i + 1, next),
        }
    }
}

/// `acc` with what the parameters of `ps` from the `i`-th on add, or the error of
/// the first of them that cannot be read.
pub open spec fn spec_reader_config_from(
    ps: Seq<ParameterView>,
    i: int,
    acc: Seq<LlrpParameterDataView>,
) -> Result<Seq<LlrpParameterDataView>, LlrpError>
    decreases ps.len() - i,
{
    if i < 0 || i >= ps.len() {
        Ok(acc)
    } else {
        match spec_collect(acc, spec_decode_config_parameter(ps[i])) {
            Err(e) => Err(e),
            Ok(next) => spec_reader_config_from(ps, i + 1, next),
        }
    }
}

/// The observations read so far, with the one that `p` holds if it holds one.
pub open spec fn spec_tag_reports_step(acc: Seq<Seq<u8>>, p: ParameterView) -> Result<
    Seq<Seq<u8>>,
    LlrpError,
> {
    match p.param_type {
        LlrpParameterType::TagReportData => match spec_decode_tag_report_data(p.param_value) {
            Ok(epc) => Ok(acc.push(epc)),
            Err(e) => Err(e),
        },
        _ => Ok(acc),
    }
}

/// `acc` with the observations that the parameters of `ps` from the `i`-th on
/// hold, or the error of the first of them that cannot be read.
pub open spec fn spec_tag_reports_from(ps: Seq<ParameterView>, i: int, acc: Seq<Seq<u8>>) -> Result<
    Seq<Seq<u8>>,
    LlrpError,
>
    decreases ps.len() - i,
{
    if i < 0 || i >= ps.len() {
        Ok(acc)
    } else {
        match spec_tag_reports_step(acc, ps[i]) {
            Err(e) => Err(e),
            Ok(next) => spec_tag_reports_from(ps, i + 1, next),
        }
    }
}

/// Whether a status is among the decoded parameters.
pub open spec fn spec_has_status(params: Seq<LlrpParameterDataView>) -> bool {
    exists|k: int| 0 <= k < params.len() && #[trigger] params[k] is LLRPStatus
}

/// The parameters of a response that has to carry a status: `MalformedResponse`
/// where it carries none.
pub open spec fn spec_with_status(
    params: Result<Seq<LlrpParameterDataView>, LlrpError>,
) -> Result<Seq<LlrpParameterDataView>, LlrpError> {
    match params {
        Err(e) => Err(e),
        Ok(ds) => if spec_has_status(ds) {
            Ok(ds)
        } else {
            Err(LlrpError::MalformedResponse)
        },
    }
}

/// What a `GetReaderCapabilitiesResponse` with this payload holds.
pub open spec fn spec_decode_reader_capabilities(payload: Seq<u8>) -> Result<
    Seq<LlrpParameterDataView>,
    LlrpError,
> {
    match spec_parse_parameters(payload) {
        Err(e) => Err(e),
        Ok(ps) => spec_with_status(spec_reader_capabilities_from(ps, 0, Seq::empty())),
    }
}

/// What a `GetReaderConfigResponse` with this payload holds.
pub open spec fn spec_decode_reader_config(payload: Seq<u8>) -> Result<
    Seq<LlrpParameterDataView>,
    LlrpError,
> {
    match spec_parse_parameters(payload) {
        Err(e) => Err(e),
        Ok(ps) => spec_with_status(spec_reader_config_from(ps, 0, Seq::empty())),
    }
}

/// What an `ROAccessReport` with this payload holds.
pub open spec fn spec_decode_tag_reports(payload: Seq<u8>) -> Result<Seq<Seq<u8>>, LlrpError> {
    match spec_parse_parameters(payload) {
        Err(e) => Err(e),
        Ok(ps) => spec_tag_reports_from(ps, 0, Seq::empty()),
    }
}

/// What a response holds.
///
/// The payload is a list of parameters. Those that the response is read for are
/// decoded, in order; the others are skipped. The first parameter that cannot be
/// read gives its error to the whole. `GetReaderCapabilitiesResponse` and
/// `GetReaderConfigResponse` have to carry an `LLRPStatus`: without one they are
/// a `MalformedResponse`. So is a response of a type that has no decoder.
pub open spec fn spec_decode_response(r: ResponseView) -> Result<LlrpResponseDataView, LlrpError> {
    match r.message_type {
        LlrpMessageType::GetReaderCapabilitiesResponse => match spec_decode_reader_capabilities(
            r.payload,
        ) {
            Ok(params) => Ok(LlrpResponseDataView::ReaderCapabilities(params)),
            Err(e) => Err(e),
        },
        LlrpMessageType::GetReaderConfigResponse => match spec_decode_reader_config(r.payload) {
            Ok(params) => Ok(LlrpResponseDataView::ReaderConfig(params)),
            Err(e) => Err(e),
        },
        LlrpMessageType::ROAccessReport => match spec_decode_tag_reports(r.payload) {
            Ok(reports) => Ok(LlrpResponseDataView::TagReport(reports)),
            Err(e) => Err(e),
        },
        _ => Err(LlrpError::MalformedResponse),
    }
}

/// The view of the decoded data, or the error as it is.
pub open spec fn result_data_view(r: Result<LlrpResponseData, LlrpError>) -> Result<
    LlrpResponseDataView,
    LlrpError,
> {
    match r {
        Ok(d) => Ok(d@),
        Err(e) => Err(e),
    }
}

/// The outcome of decoding one parameter, with the tables inside it as
/// sequences.
pub open spec fn spec_decoded_view(r: Result<Option<LlrpParameterData>, LlrpError>) -> Result<
    Option<LlrpParameterDataView>,
    LlrpError,
> {
    match r {
        Ok(Some(data)) => Ok(Some(data@)),
        Ok(None) => Ok(None),
        Err(e) => Err(e),
    }
}

/// Decodes one parameter of a `GetReaderCapabilitiesResponse`.
fn decode_capabilities_parameter(param: &LlrpParameter) -> (r: Result<
    Option<LlrpParameterData>,
    LlrpError,
>)
    ensures
        spec_decoded_view(r) == spec_decode_capabilities_parameter(param@),
{
    match param.param_type {
        LlrpParameterType::LLRPStatus => {
            match LLRPStatus::decode(param.param_value.as_slice()) {
                Ok(llrp_status) => Ok(Some(LlrpParameterData::LLRPStatus(llrp_status))),
                Err(e) => Err(e),
            }
        },
        LlrpParameterType::GeneralDeviceCapabilities => {
            match GeneralDeviceCapabilities::decode(param.param_value.as_slice()) {
                Ok(gdc) => Ok(Some(LlrpParameterData::GeneralDeviceCapabilities(gdc))),
                Err(e) => Err(e),
            }
        },
        LlrpParameterType::LLRPCapabilities => {
            match LLRPCapabilities::decode(param.param_value.as_slice()) {
                Ok(llrp_caps) => Ok(Some(LlrpParameterData::LLRPCapabilities(llrp_caps))),
                Err(e) => Err(e),
            }
        },
        LlrpParameterType::RegulatoryCapabilities => {
            match RegulatoryCapabilities::decode(param.param_value.as_slice()) {
                Ok(reg_caps) => Ok(Some(LlrpParameterData::RegulatoryCapabilities(reg_caps))),
                Err(e) => Err(e),
            }
        },
        LlrpParameterType::C1G2LLRPCapabilities => {
            match C1G2LLRPCapabilities::decode(param.param_value.as_slice()) {
                Ok(c1g2_llrp_caps) => Ok(
                    Some(LlrpParameterData::C1G2LLRPCapabilities(c1g2_llrp_caps)),
                ),
                Err(e) => Err(e),
            }
        },
        _ => Ok(None),
    }
}

/// Decodes one parameter of a `GetReaderConfigResponse`.
fn decode_config_parameter(param: &LlrpParameter) -> (r: Result<
    Option<LlrpParameterData>,
    LlrpError,
>)
    ensures
        spec_decoded_view(r) == spec_decode_config_parameter(param@),
{
    match param.param_type {
        LlrpParameterType::LLRPStatus => {
            match LLRPStatus::decode(param.param_value.as_slice()) {
                Ok(llrp_status) => Ok(Some(LlrpParameterData::LLRPStatus(llrp_status))),
                Err(e) => Err(e),
            }
        },
        LlrpParameterType::Identification => {
            match Identification::decode(param.param_value.as_slice()) {
                Ok(identification) => Ok(Some(LlrpParameterData::Identification(identification))),
                Err(e) => Err(e),
            }
        },
        _ => Ok(None),
    }
}

/// Whether the decoded parameter is a status.
fn is_status(data: &LlrpParameterData) -> (b: bool)
    ensures
        b == (data@ is LLRPStatus),
{
    match data {
        LlrpParameterData::LLRPStatus(_) => true,
        _ => false,
    }
}

/// Reads the parameters of a `GetReaderCapabilitiesResponse`.
fn decode_reader_capabilities(payload: &[u8]) -> (r: Result<Vec<LlrpParameterData>, LlrpError>)
    ensures
        match spec_decode_reader_capabilities(payload@) {
            Ok(ds) => r matches Ok(v) && seq_views(v@) == ds,
            Err(e) => r == Err::<Vec<LlrpParameterData>, LlrpError>(e),
        },
{
    let parameters = match parse_parameters(payload) {
        Ok(v) => v,
        Err(e) => {
            return Err(e);
        },
    };
    let ghost ps = seq_views(parameters@);
    let mut parsed_params: Vec<LlrpParameterData> = Vec::new();
    let mut has_status: bool = false;
    assert(seq_views(parsed_params@) =~= Seq::<LlrpParameterDataView>::empty());

    let mut i: usize = 0;
    while i < parameters.len()
        invariant
            i <= parameters@.len(),
            ps == seq_views(parameters@),
            spec_parse_parameters(payload@) == Ok::<Seq<ParameterView>, LlrpError>(ps),
            spec_reader_capabilities_from(ps, 0, Seq::empty()) == spec_reader_capabilities_from(
                ps,
                i as int,
                seq_views(parsed_params@),
            ),
            has_status == spec_has_status(seq_views(parsed_params@)),
        decreases parameters@.len() - i,
    {
        let param = &parameters[i];
        match decode_capabilities_parameter(param) {
            Ok(Some(data)) => {
                proof {
                    lemma_seq_views_push(parsed_params@, data);
                    lemma_has_status_push(seq_views(parsed_params@), data@);
                }
                if is_status(&data) {
                    has_status = true;
                }
                parsed_params.push(data);
            },
            Ok(None) => {},
            Err(e) => {
                return Err(e);
            },
        }
        i = i + 1;
    }
    if !has_status {
        return Err(LlrpError::MalformedResponse);
    }
    Ok(parsed_params)
}

/// Reads the parameters of a `GetReaderConfigResponse`.
fn decode_reader_config(payload: &[u8]) -> (r: Result<Vec<LlrpParameterData>, LlrpError>)
    ensures
        match spec_decode_reader_config(payload@) {
            Ok(ds) => r matches Ok(v) && seq_views(v@) == ds,
            Err(e) => r == Err::<Vec<LlrpParameterData>, LlrpError>(e),
        },
{
    let parameters = match parse_parameters(payload) {
        Ok(v) => v,
        Err(e) => {
            return Err(e);
        },
    };
    let ghost ps = seq_views(parameters@);
    let mut parsed_params: Vec<LlrpParameterData> = Vec::new();
    let mut has_status: bool = false;
    assert(seq_views(parsed_params@) =~= Seq::<LlrpParameterDataView>::empty());

    let mut i: usize = 0;
    while i < parameters.len()
        invariant
            i <= parameters@.len(),
            ps == seq_views(parameters@),
            spec_parse_parameters(payload@) == Ok::<Seq<ParameterView>, LlrpError>(ps),
            spec_reader_config_from(ps, 0, Seq::empty()) == spec_reader_config_from(
                ps,
                i as int,
                seq_views(parsed_params@),
            ),
            has_status == spec_has_status(seq_views(parsed_params@)),
        decreases parameters@.len() - i,
    {
        let param = &parameters[i];
        match decode_config_parameter(param) {
            Ok(Some(data)) => {
                proof {
                    lemma_seq_views_push(parsed_params@, data);
                    lemma_has_status_push(seq_views(parsed_params@), data@);
                }
                if is_status(&data) {
                    has_status = true;
                }
                parsed_params.push(data);
            },
            Ok(None) => {},
            Err(e) => {
                return Err(e);
            },
        }
        i = i + 1;
    }
    if !has_status {
        return Err(LlrpError::MalformedResponse);
    }
    Ok(parsed_params)
}

/// Reads the observations of an `ROAccessReport`.
fn decode_tag_reports(payload: &[u8]) -> (r: Result<Vec<TagReportData>, LlrpError>)
    ensures
        match spec_decode_tag_reports(payload@) {
            Ok(reports) => r matches Ok(v) && seq_views(v@) == reports,
            Err(e) => r == Err::<Vec<TagReportData>, LlrpError>(e),
        },
{
    let mut tag_reports: Vec<TagReportData> = Vec::new();
    let parameters = match parse_parameters(payload) {
        Ok(v) => v,
        Err(e) => {
            return Err(e);
        },
    };
    let ghost ps = seq_views(parameters@);
    assert(seq_views(tag_reports@) =~= Seq::<Seq<u8>>::empty());

    let mut i: usize = 0;
    while i < parameters.len()
        invariant
            i <= parameters@.len(),
            ps == seq_views(parameters@),
            spec_parse_parameters(payload@) == Ok::<Seq<ParameterView>, LlrpError>(ps),
            spec_tag_reports_from(ps, 0, Seq::empty()) == spec_tag_reports_from(
                ps,
                i as int,
                seq_views(tag_reports@),
            ),
        decreases parameters@.len() - i,
    {
        let parameter = &parameters[i];
        match parameter.param_type {
            LlrpParameterType::TagReportData => {
                match TagReportData::decode(parameter.param_value.as_slice()) {
                    Ok(tag_report_data) => {
                        proof {
                            lemma_seq_views_push(tag_reports@, tag_report_data);
                        }
                        tag_reports.push(tag_report_data);
                    },
                    Err(e) => {
                        return Err(e);
                    },
                }
            },
            _ => {},
        }
        i = i + 1;
    }
    Ok(tag_reports)
}

/// A status stays among the parameters when another is pushed, and a status that
/// is pushed is among them.
pub proof fn lemma_has_status_push(params: Seq<LlrpParameterDataView>, d: LlrpParameterDataView)
    ensures
        spec_has_status(params.push(d)) == (spec_has_status(params) || d is LLRPStatus),
{
    let more = params.push(d);
    if spec_has_status(params) {
        let k = choose|k: int| 0 <= k < params.len() && #[trigger] params[k] is LLRPStatus;
        assert(more[k] is LLRPStatus);
    }
    if d is LLRPStatus {
        assert(more[params.len() as int] is LLRPStatus);
    }
}

impl LlrpResponse {
    /// The response that a message is handed on as.
    pub fn from_message(message: LlrpMessage) -> (r: LlrpResponse)
        ensures
            r@ == (ResponseView {
                message_type: message.message_type,
                message_id: message.message_id,
                payload: message.payload@,
            }),
    {
        LlrpResponse {
            message_type: message.message_type,
            message_id: message.message_id,
            payload: message.payload,
        }
    }

    /// Decodes the payload of a `GetReaderCapabilitiesResponse`, of a
    /// `GetReaderConfigResponse` or of an `ROAccessReport`.
    ///
    /// It fails with the error of the first parameter that cannot be read, with
    /// `MalformedResponse` where one of the first two carries no `LLRPStatus`,
    /// and with `MalformedResponse` for a message of any other type.
    pub fn decode(&self) -> (r: Result<LlrpResponseData, LlrpError>)
        ensures
            result_data_view(r) == spec_decode_response(self@),
    {
        match self.message_type {
            LlrpMessageType::GetReaderCapabilitiesResponse => {
                match decode_reader_capabilities(self.payload.as_slice()) {
                    Ok(parsed_params) => Ok(LlrpResponseData::ReaderCapabilities(parsed_params)),
                    Err(e) => Err(e),
                }
            },
            LlrpMessageType::GetReaderConfigResponse => {
                match decode_reader_config(self.payload.as_slice()) {
                    Ok(parsed_params) => Ok(LlrpResponseData::ReaderConfig(parsed_params)),
                    Err(e) => Err(e),
                }
            },
            LlrpMessageType::ROAccessReport => {
                match decode_tag_reports(self.payload.as_slice()) {
                    Ok(tag_reports) => Ok(LlrpResponseData::TagReport(tag_reports)),
                    Err(e) => Err(e),
                }
            },
            _ => Err(LlrpError::MalformedResponse),
        }
    }
}

} // verus!
