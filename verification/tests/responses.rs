use llrp_client::error::LlrpError;
use llrp_client::llrp::{LlrpMessage, LlrpResponse, LlrpResponseData};
use llrp_client::message_types::LlrpMessageType;
use llrp_client::params::{
    C1G2LLRPCapabilities, Identification, LLRPCapabilities, LLRPStatus, LlrpParameterData,
    TagReportData,
};

fn param(param_type: u16, value: &[u8]) -> Vec<u8> {
    let mut out = Vec::new();
    out.extend_from_slice(&param_type.to_be_bytes());
    out.extend_from_slice(&((value.len() + 4) as u16).to_be_bytes());
    out.extend_from_slice(value);
    out
}

fn response(message_type: LlrpMessageType, payload: Vec<u8>) -> LlrpResponse {
    LlrpResponse { message_type, message_id: 1001, payload }
}

fn status_ok() -> Vec<u8> {
    param(287, &[0, 0, 0, 0])
}

#[test]
fn from_message_keeps_type_id_and_payload() {
    let m = LlrpMessage::new(LlrpMessageType::KeepaliveAck, 77, vec![1, 2, 3]);
    let r = LlrpResponse::from_message(m);
    assert_eq!(r.message_type, LlrpMessageType::KeepaliveAck);
    assert_eq!(r.message_id, 77);
    assert_eq!(r.payload, vec![1, 2, 3]);
}

#[test]
fn decode_tag_report_with_one_epc96() {
    let mut value = vec![0x8D];
    let epc = [1u8, 2, 3, 4, 5, 6, 7, 8, 9, 10, 11, 12];
    value.extend_from_slice(&epc);
    let r = response(LlrpMessageType::ROAccessReport, param(240, &value));
    assert_eq!(
        r.decode(),
        Ok(LlrpResponseData::TagReport(vec![TagReportData { epc: epc.to_vec() }]))
    );
}

#[test]
fn decode_tag_report_with_several_tags() {
    let mut payload = param(240, &param(241, &[0, 16, 0xAA, 0xBB]));
    payload.extend_from_slice(&param(600, &[9]));
    let mut second = vec![0x8D];
    second.extend_from_slice(&[7; 12]);
    payload.extend_from_slice(&param(240, &second));
    payload.extend_from_slice(&param(240, &[]));
    let r = response(LlrpMessageType::ROAccessReport, payload);
    assert_eq!(
        r.decode(),
        Ok(LlrpResponseData::TagReport(vec![
            TagReportData { epc: vec![0xAA, 0xBB] },
            TagReportData { epc: vec![7; 12] },
            TagReportData { epc: vec![] },
        ]))
    );
}

#[test]
fn decode_empty_tag_report() {
    let r = response(LlrpMessageType::ROAccessReport, vec![]);
    assert_eq!(r.decode(), Ok(LlrpResponseData::TagReport(vec![])));
}

#[test]
fn decode_tag_report_errors() {
    let r = response(LlrpMessageType::ROAccessReport, vec![0x81, 0, 0, 0]);
    assert_eq!(r.decode(), Err(LlrpError::UnknownTVType));
    let r = response(LlrpMessageType::ROAccessReport, param(240, &[0x8D, 1, 2]));
    assert_eq!(r.decode(), Err(LlrpError::MalformedResponse));
    let r = response(LlrpMessageType::ROAccessReport, vec![0, 240, 0, 3]);
    assert_eq!(r.decode(), Err(LlrpError::MalformedResponse));
}

#[test]
fn decode_reader_config() {
    let mut payload = status_ok();
    payload.extend_from_slice(&param(218, &[0, 1, 2, 3, 4, 5, 6, 7, 8]));
    payload.extend_from_slice(&param(221, &[0, 0, 1]));
    let r = response(LlrpMessageType::GetReaderConfigResponse, payload);
    assert_eq!(
        r.decode(),
        Ok(LlrpResponseData::ReaderConfig(vec![
            LlrpParameterData::LLRPStatus(LLRPStatus { status_code: 0, error_desc: 0 }),
            LlrpParameterData::Identification(Identification {
                id_type: 0,
                reader_id: vec![1, 2, 3, 4, 5, 6, 7, 8]
            }),
        ]))
    );
}

#[test]
fn decode_reader_config_without_status_is_malformed() {
    let payload = param(218, &[1, 0xAB]);
    let r = response(LlrpMessageType::GetReaderConfigResponse, payload);
    assert_eq!(r.decode(), Err(LlrpError::MalformedResponse));
    let r = response(LlrpMessageType::GetReaderConfigResponse, vec![]);
    assert_eq!(r.decode(), Err(LlrpError::MalformedResponse));
}

#[test]
fn decode_reader_config_with_bad_identification() {
    let mut payload = status_ok();
    payload.extend_from_slice(&param(218, &[0, 1, 2, 3]));
    let r = response(LlrpMessageType::GetReaderConfigResponse, payload);
    assert_eq!(r.decode(), Err(LlrpError::MalformedResponse));
}

#[test]
fn decode_reader_capabilities() {
    let mut payload = status_ok();
    let mut gdc = vec![0, 2, 0, 0, 0, 0, 0, 9, 0, 0, 0, 8, 0, 2, b'v', b'1'];
    gdc.extend_from_slice(&param(139, &[0, 1, 0, 5]));
    payload.extend_from_slice(&param(137, &gdc));
    let llrp_caps = [0x80u8, 1, 0, 0, 0, 0, 0, 1, 0, 0, 0, 1, 0, 0, 0, 1, 0, 0, 0, 1, 0, 0, 0, 1];
    payload.extend_from_slice(&param(142, &llrp_caps));
    payload.extend_from_slice(&param(143, &[0, 0, 0, 0]));
    payload.extend_from_slice(&param(327, &[0x40, 0, 2]));
    payload.extend_from_slice(&param(1023, &[1, 2, 3]));
    let r = response(LlrpMessageType::GetReaderCapabilitiesResponse, payload);
    match r.decode().unwrap() {
        LlrpResponseData::ReaderCapabilities(params) => {
            assert_eq!(params.len(), 5);
            assert_eq!(
                params[0],
                LlrpParameterData::LLRPStatus(LLRPStatus { status_code: 0, error_desc: 0 })
            );
            match &params[1] {
                LlrpParameterData::GeneralDeviceCapabilities(c) => {
                    assert_eq!(c.max_number_of_antennas_supported, 2);
                    assert_eq!(c.device_manufacturer_name, 9);
                    assert_eq!(c.model_name, 8);
                    assert_eq!(c.reader_firmware_version, "v1");
                    assert_eq!(c.receive_sensitivity_table_entries.len(), 1);
                }
                other => panic!("unexpected parameter {:?}", other),
            }
            assert_eq!(
                params[2],
                LlrpParameterData::LLRPCapabilities(LLRPCapabilities {
                    can_do_rfsurvey: true,
                    can_report_buffer_fill_warning: false,
                    supports_client_request_op_spec: false,
                    can_do_tag_inventory_state_aware_singulation: false,
                    supports_event_and_report_holding: false,
                    max_num_priority_levels_supported: 1,
                    client_request_op_spec_timeout: 0,
                    max_num_ro_specs: 1,
                    max_num_specs_per_ro_spec: 1,
                    max_num_inventory_parameter_specs_per_ai_spec: 1,
                    max_num_access_specs: 1,
                    max_num_op_specs_per_access_spec: 1,
                })
            );
            assert!(matches!(params[3], LlrpParameterData::RegulatoryCapabilities(_)));
            assert_eq!(
                params[4],
                LlrpParameterData::C1G2LLRPCapabilities(C1G2LLRPCapabilities {
                    supports_block_erase: false,
                    supports_block_write: true,
                    supports_block_permalock: false,
                    supports_tag_recommissioning: false,
                    supports_umi_method_2: false,
                    supports_xpc: false,
                    max_number_select_filters_per_query: 2,
                })
            );
        }
        other => panic!("unexpected data {:?}", other),
    }
}

#[test]
fn decode_reader_capabilities_with_status_only() {
    let r = response(LlrpMessageType::GetReaderCapabilitiesResponse, param(287, &[0, 101, 0, 0]));
    assert_eq!(
        r.decode(),
        Ok(LlrpResponseData::ReaderCapabilities(vec![LlrpParameterData::LLRPStatus(LLRPStatus {
            status_code: 101,
            error_desc: 0
        })]))
    );
}

#[test]
fn decode_reader_capabilities_without_status_is_malformed() {
    let r = response(LlrpMessageType::GetReaderCapabilitiesResponse, param(327, &[0, 0, 1]));
    assert_eq!(r.decode(), Err(LlrpError::MalformedResponse));
}

#[test]
fn decode_reader_capabilities_first_error_wins() {
    let mut payload = status_ok();
    payload.extend_from_slice(&param(142, &[0; 23]));
    payload.push(0x81);
    let r = response(LlrpMessageType::GetReaderCapabilitiesResponse, payload);
    assert_eq!(r.decode(), Err(LlrpError::UnknownTVType));
    let mut payload = status_ok();
    payload.extend_from_slice(&param(142, &[0; 23]));
    let r = response(LlrpMessageType::GetReaderCapabilitiesResponse, payload);
    assert_eq!(r.decode(), Err(LlrpError::MalformedResponse));
}

#[test]
fn decode_response_without_decoder_is_malformed() {
    for t in [
        LlrpMessageType::KeepaliveAck,
        LlrpMessageType::AddROspecResponse,
        LlrpMessageType::ReaderEventNotification,
        LlrpMessageType::NoMessage,
    ] {
        assert_eq!(response(t, status_ok()).decode(), Err(LlrpError::MalformedResponse));
    }
}
