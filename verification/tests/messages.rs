use bytes::BytesMut;
use llrp_client::config::{ROSpecConfig, ReaderConfig};
use llrp_client::error::LlrpError;
use llrp_client::llrp::LlrpMessage;
use llrp_client::message_types::{get_message_type_str, LlrpMessageType};
use llrp_client::parameter_types::LlrpParameterType;
use llrp_client::params::parse_parameters;

fn all_message_types() -> Vec<(LlrpMessageType, u16)> {
    vec![
        (LlrpMessageType::NoMessage, 0),
        (LlrpMessageType::GetReaderCapabilities, 1),
        (LlrpMessageType::GetReaderCapabilitiesResponse, 11),
        (LlrpMessageType::GetReaderConfig, 2),
        (LlrpMessageType::GetReaderConfigResponse, 12),
        (LlrpMessageType::SetReaderConfig, 3),
        (LlrpMessageType::SetReaderConfigResponse, 13),
        (LlrpMessageType::CloseConnection, 14),
        (LlrpMessageType::CloseConnectionResponse, 4),
        (LlrpMessageType::AddROSpec, 20),
        (LlrpMessageType::AddROspecResponse, 30),
        (LlrpMessageType::DeleteROSpec, 21),
        (LlrpMessageType::DeleteROSpecResponse, 31),
        (LlrpMessageType::StartROSpec, 22),
        (LlrpMessageType::StartROSpecResponse, 32),
        (LlrpMessageType::StopROSpec, 23),
        (LlrpMessageType::StopROSpecResponse, 33),
        (LlrpMessageType::EnableROSpec, 24),
        (LlrpMessageType::EnableROSpecResponse, 34),
        (LlrpMessageType::DisableROSpec, 25),
        (LlrpMessageType::DisableROSpecResponse, 35),
        (LlrpMessageType::GetROSpecs, 26),
        (LlrpMessageType::GetROSpecsResponse, 36),
        (LlrpMessageType::GetReport, 60),
        (LlrpMessageType::ROAccessReport, 61),
        (LlrpMessageType::Keepalive, 62),
        (LlrpMessageType::KeepaliveAck, 72),
        (LlrpMessageType::ReaderEventNotification, 63),
        (LlrpMessageType::EnableEventsAndReports, 64),
        (LlrpMessageType::ErrorMessage, 100),
    ]
}

fn sample_rospec() -> ROSpecConfig {
    ROSpecConfig {
        rospec_id: 1,
        priority: 0,
        antenna_count: 1,
        antennas: vec![0],
        ROSpecStartTriggerType: 1,
        ROSpecStopTriggerType: 0,
        AISpecStopTriggerType: 0,
        InventoryParamSpecID: 1,
        AIProtocol: 1,
        ROReportTriggerType: 0,
        ROReportTrigger_N: 0,
        ReportContentSelector: 0x0000,
    }
}

#[test]
fn message_type_values_round_trip() {
    for (t, v) in all_message_types() {
        assert_eq!(t.value(), v);
        assert_eq!(LlrpMessageType::from_value(v), Some(t));
    }
}

#[test]
fn message_type_from_unknown_value_is_none() {
    assert_eq!(LlrpMessageType::from_value(5), None);
    assert_eq!(LlrpMessageType::from_value(65), None);
    assert_eq!(LlrpMessageType::from_value(1023), None);
    assert_eq!(LlrpMessageType::from_value(65535), None);
}

#[test]
fn message_type_names() {
    assert_eq!(get_message_type_str(0), "None");
    assert_eq!(get_message_type_str(1), "GetReaderCapabilities");
    assert_eq!(get_message_type_str(30), "AddROspecResponse");
    assert_eq!(get_message_type_str(61), "ROAccessReport");
    assert_eq!(get_message_type_str(72), "KeepaliveAck");
    assert_eq!(get_message_type_str(100), "ErrorMessage");
    assert_eq!(get_message_type_str(5), "Unknown message type");
    assert_eq!(get_message_type_str(999), "Unknown message type");
}

#[test]
fn parameter_type_values_round_trip() {
    let samples = vec![
        (LlrpParameterType::UTCTimeStamp, 128u16),
        (LlrpParameterType::GeneralDeviceCapabilities, 137),
        (LlrpParameterType::MaximumReceiveSensitivity, 363),
        (LlrpParameterType::ROSpec, 177),
        (LlrpParameterType::ROSpecStartTrigger, 179),
        (LlrpParameterType::AISpec, 183),
        (LlrpParameterType::LoopSpec, 355),
        (LlrpParameterType::Identification, 218),
        (LlrpParameterType::AntennaConfiguration, 222),
        (LlrpParameterType::TagReportData, 240),
        (LlrpParameterType::EPCData, 241),
        (LlrpParameterType::EPC96, 13),
        (LlrpParameterType::LLRPStatus, 287),
        (LlrpParameterType::C1G2UHFRFModeTableEntry, 329),
        (LlrpParameterType::Custom, 1023),
    ];
    for (t, v) in samples {
        assert_eq!(t.value(), v);
        assert_eq!(LlrpParameterType::from_value(v), Some(t));
    }
    assert_eq!(LlrpParameterType::from_value(1), None);
    assert_eq!(LlrpParameterType::from_value(127), None);
    assert_eq!(LlrpParameterType::from_value(1024), None);
}

#[test]
fn new_computes_length() {
    let m = LlrpMessage::new(LlrpMessageType::Keepalive, 7, vec![]);
    assert_eq!(m.message_length, 10);
    let m = LlrpMessage::new(LlrpMessageType::ROAccessReport, 7, vec![1, 2, 3]);
    assert_eq!(m.message_length, 13);
    assert_eq!(m.message_id, 7);
    assert_eq!(m.message_type, LlrpMessageType::ROAccessReport);
    assert_eq!(m.payload, vec![1, 2, 3]);
}

#[test]
fn encode_keepalive_header() {
    let m = LlrpMessage::new(LlrpMessageType::Keepalive, 1001, vec![]);
    let bytes = m.encode();
    assert_eq!(&bytes[..], &[0x04, 0x3E, 0x00, 0x00, 0x00, 0x0A, 0x00, 0x00, 0x03, 0xE9][..]);
}

#[test]
fn encode_writes_big_endian_fields_and_payload() {
    let m = LlrpMessage::new(LlrpMessageType::ErrorMessage, 0x0102_0304, vec![0xAA, 0xBB]);
    let bytes = m.encode();
    assert_eq!(
        &bytes[..],
        &[0x04, 0x64, 0x00, 0x00, 0x00, 0x0C, 0x01, 0x02, 0x03, 0x04, 0xAA, 0xBB][..]
    );
}

#[test]
fn encode_writes_the_length_field_as_it_stands() {
    let m = LlrpMessage {
        message_type: LlrpMessageType::Keepalive,
        message_length: 0x0A0B_0C0D,
        message_id: 1,
        payload: vec![9],
    };
    let bytes = m.encode();
    assert_eq!(&bytes[2..6], &[0x0A, 0x0B, 0x0C, 0x0D][..]);
    assert_eq!(bytes.len(), 11);
}

#[test]
fn decode_encode_round_trip() {
    for (t, _) in all_message_types() {
        for payload in [vec![], vec![0u8], vec![1, 2, 3, 4, 5], vec![0xFF; 300]] {
            let m = LlrpMessage::new(t, 0xDEAD_BEEF, payload);
            let mut bytes = m.encode();
            let back = LlrpMessage::decode(&mut bytes).unwrap();
            assert_eq!(back, m);
            assert_eq!(bytes.len(), 0);
        }
    }
}

#[test]
fn decode_takes_one_frame_and_leaves_the_rest() {
    let a = LlrpMessage::new(LlrpMessageType::KeepaliveAck, 1, vec![7, 8]);
    let b = LlrpMessage::new(LlrpMessageType::ROAccessReport, 2, vec![9]);
    let mut bytes = a.encode();
    bytes.extend_from_slice(&b.encode());
    assert_eq!(LlrpMessage::decode(&mut bytes).unwrap(), a);
    assert_eq!(bytes.len(), 11);
    assert_eq!(LlrpMessage::decode(&mut bytes).unwrap(), b);
    assert_eq!(bytes.len(), 0);
}

#[test]
fn decode_ignores_version_bits() {
    let mut bytes = BytesMut::from(&[0xFC, 0x3E, 0, 0, 0, 10, 0, 0, 0, 5][..]);
    let m = LlrpMessage::decode(&mut bytes).unwrap();
    assert_eq!(m.message_type, LlrpMessageType::Keepalive);
    assert_eq!(m.message_id, 5);
    assert_eq!(m.message_length, 10);
}

#[test]
fn decode_short_header_is_malformed_frame() {
    let mut bytes = BytesMut::from(&[0x04, 0x3E, 0, 0, 0, 10, 0, 0, 0][..]);
    assert_eq!(LlrpMessage::decode(&mut bytes), Err(LlrpError::MalformedFrame));
    assert_eq!(bytes.len(), 9);
    let mut empty = BytesMut::new();
    assert_eq!(LlrpMessage::decode(&mut empty), Err(LlrpError::MalformedFrame));
}

#[test]
fn decode_length_larger_than_buffer_is_malformed_frame() {
    let mut bytes = BytesMut::from(&[0x04, 0x3E, 0, 0, 0, 11, 0, 0, 0, 1][..]);
    assert_eq!(LlrpMessage::decode(&mut bytes), Err(LlrpError::MalformedFrame));
    let mut bytes = BytesMut::from(&[0x04, 0x3E, 0xFF, 0xFF, 0xFF, 0xFF, 0, 0, 0, 1, 2, 3][..]);
    assert_eq!(LlrpMessage::decode(&mut bytes), Err(LlrpError::MalformedFrame));
}

#[test]
fn decode_length_under_ten_is_malformed_frame() {
    for length in 0u8..10 {
        let mut bytes = BytesMut::from(&[0x04, 0x3E, 0, 0, 0, length, 0, 0, 0, 1, 2, 3][..]);
        assert_eq!(LlrpMessage::decode(&mut bytes), Err(LlrpError::MalformedFrame));
    }
}

#[test]
fn decode_malformed_frame_comes_before_unknown_type() {
    let mut bytes = BytesMut::from(&[0x04, 0x05, 0, 0, 0, 20, 0, 0, 0, 1][..]);
    assert_eq!(LlrpMessage::decode(&mut bytes), Err(LlrpError::MalformedFrame));
}

#[test]
fn decode_unknown_type() {
    let mut bytes = BytesMut::from(&[0x04, 0x05, 0, 0, 0, 11, 0, 0, 0, 1, 0xAB, 0xCD][..]);
    assert_eq!(LlrpMessage::decode(&mut bytes), Err(LlrpError::UnknownMessageType));
    assert_eq!(&bytes[..], &[0xCD][..]);
}

#[test]
fn builder_enable_events_and_reports() {
    let m = LlrpMessage::new_enable_events_and_reports(1001);
    assert_eq!(m.message_type, LlrpMessageType::EnableEventsAndReports);
    assert_eq!(m.message_id, 1001);
    assert_eq!(m.message_length, 10);
    assert!(m.payload.is_empty());
}

#[test]
fn builder_get_reader_capabilities() {
    let m = LlrpMessage::new_get_reader_capabilities(1002);
    assert_eq!(m.message_type, LlrpMessageType::GetReaderCapabilities);
    assert_eq!(m.message_id, 1002);
    assert_eq!(m.message_length, 11);
    assert_eq!(m.payload, vec![0]);
}

#[test]
fn builder_get_reader_config() {
    let m = LlrpMessage::new_get_reader_config(1003);
    assert_eq!(m.message_type, LlrpMessageType::GetReaderConfig);
    assert_eq!(m.message_length, 17);
    assert_eq!(m.payload, vec![0, 0, 0, 0, 0, 0, 0]);
}

#[test]
fn builder_rospec_id_verbs() {
    let id = 0x0A0B_0C0D;
    let expected = vec![0x0A, 0x0B, 0x0C, 0x0D];
    let m = LlrpMessage::new_enable_rospec(1, id);
    assert_eq!(m.message_type, LlrpMessageType::EnableROSpec);
    assert_eq!(m.payload, expected);
    assert_eq!(m.message_length, 14);
    let m = LlrpMessage::new_start_rospec(2, id);
    assert_eq!(m.message_type, LlrpMessageType::StartROSpec);
    assert_eq!(m.payload, expected);
    let m = LlrpMessage::new_stop_rospec(3, id);
    assert_eq!(m.message_type, LlrpMessageType::StopROSpec);
    assert_eq!(m.payload, expected);
    let m = LlrpMessage::new_delete_rospec(4, 0);
    assert_eq!(m.message_type, LlrpMessageType::DeleteROSpec);
    assert_eq!(m.payload, vec![0, 0, 0, 0]);
    assert_eq!(m.message_id, 4);
}

#[test]
fn builder_set_reader_config_bytes() {
    let config = ReaderConfig {
        hop_table_id: 1,
        channel_index: 2,
        tx_power_table_index: 3,
        rx_power_table_index: 4,
    };
    let m = LlrpMessage::new_set_reader_config(9, &config);
    assert_eq!(m.message_type, LlrpMessageType::SetReaderConfig);
    assert_eq!(
        m.payload,
        vec![
            0x80, // reset to factory settings
            0x00, 0xDE, 0x00, 0x16, 0x00, 0x00, // AntennaConfiguration, antenna 0
            0x00, 0xDF, 0x00, 0x06, 0x00, 0x04, // RFReceiver
            0x00, 0xE0, 0x00, 0x0A, 0x00, 0x01, 0x00, 0x02, 0x00, 0x03, // RFTransmitter
        ]
    );
    assert_eq!(m.message_length, 33);
}

#[test]
fn builder_add_rospec_bytes() {
    let m = LlrpMessage::new_add_rospec(1001, &sample_rospec());
    assert_eq!(m.message_type, LlrpMessageType::AddROSpec);
    assert_eq!(m.message_id, 1001);
    assert_eq!(
        m.payload,
        vec![
            0x00, 0xB1, 0x00, 0x41, 0x00, 0x00, 0x00, 0x01, 0x00, 0x00, // ROSpec
            0x00, 0xB2, 0x00, 0x12, // ROBoundarySpec
            0x00, 0xB3, 0x00, 0x05, 0x01, // ROSpecStartTrigger
            0x00, 0xB6, 0x00, 0x09, 0x00, 0x00, 0x00, 0x00, 0x00, // ROSpecStopTrigger
            0x00, 0xB7, 0x00, 0x18, 0x00, 0x01, 0x00, 0x00, // AISpec, one antenna
            0x00, 0xB8, 0x00, 0x09, 0x00, 0x00, 0x00, 0x00, 0x00, // AISpecStopTrigger
            0x00, 0xBA, 0x00, 0x07, 0x00, 0x01, 0x01, // InventoryParameterSpec
            0x00, 0xED, 0x00, 0x0D, 0x00, 0x00, 0x00, // ROReportSpec
            0x00, 0xEE, 0x00, 0x06, 0x00, 0x00, // TagReportContentSelector
        ]
    );
}

#[test]
fn add_rospec_total_length_is_frame_length_minus_header() {
    let m = LlrpMessage::new_add_rospec(1001, &sample_rospec());
    let frame = m.encode();
    let payload = &frame[10..];
    assert_eq!(&payload[0..2], &[0x00, 177][..]);
    let declared = u16::from_be_bytes([payload[2], payload[3]]) as usize;
    assert_eq!(declared, frame.len() - 10);
    assert_eq!(&payload[14..19], &[0x00, 179, 0x00, 0x05, 0x01][..]);
}

#[test]
fn add_rospec_every_length_field_counts_its_subtree() {
    let mut config = sample_rospec();
    config.antennas = vec![1, 2, 3, 0x0405];
    config.antenna_count = 4;
    let m = LlrpMessage::new_add_rospec(1, &config);
    let outer = parse_parameters(&m.payload).unwrap();
    assert_eq!(outer.len(), 1);
    assert_eq!(outer[0].param_type, LlrpParameterType::ROSpec);
    assert_eq!(outer[0].param_length as usize, m.payload.len());
    let inner = parse_parameters(&outer[0].param_value[6..]).unwrap();
    let types: Vec<LlrpParameterType> = inner.iter().map(|p| p.param_type).collect();
    assert_eq!(
        types,
        vec![
            LlrpParameterType::ROBoundarySpec,
            LlrpParameterType::AISpec,
            LlrpParameterType::ROReportSpec
        ]
    );
    assert_eq!(inner[0].param_length, 18);
    assert_eq!(inner[1].param_length as usize, 4 + 2 + 8 + 9 + 7);
    assert_eq!(inner[2].param_length, 13);
    assert_eq!(&inner[1].param_value[0..10], &[0, 4, 0, 1, 0, 2, 0, 3, 4, 5][..]);
    let triggers = parse_parameters(&inner[0].param_value).unwrap();
    assert_eq!(triggers.len(), 2);
    assert_eq!(triggers[0].param_type, LlrpParameterType::ROSpecStartTrigger);
    assert_eq!(triggers[0].param_value, vec![1]);
    assert_eq!(triggers[1].param_type, LlrpParameterType::ROSpecStopTrigger);
    assert_eq!(triggers[1].param_value, vec![0, 0, 0, 0, 0]);
}

#[test]
fn add_rospec_with_no_antennas() {
    let mut config = sample_rospec();
    config.antennas = vec![];
    let m = LlrpMessage::new_add_rospec(1, &config);
    assert_eq!(m.payload.len(), 63);
    assert_eq!(m.message_length, 73);
}

#[test]
fn add_rospec_length_field_keeps_the_low_sixteen_bits() {
    let mut config = sample_rospec();
    config.antennas = vec![7; 40000];
    let m = LlrpMessage::new_add_rospec(1, &config);
    let total = 63 + 2 * 40000;
    assert_eq!(m.payload.len(), total);
    assert_eq!(m.message_length as usize, total + 10);
    let declared = u16::from_be_bytes([m.payload[2], m.payload[3]]) as usize;
    assert_eq!(declared, total % 65536);
}
