use bytes::BytesMut;
use llrp_client::client::{
    build_request, expected_response, remaining_wait, report_outcome, route, verb_outcome,
    wait_outcome, Dispatch, ReportEvent, ReportOutcome, Route, Session, Verb, WaitEvent,
    FIRST_MESSAGE_ID, REPORT_CHANNEL_CAPACITY,
};
use llrp_client::config::{Config, ROSpecConfig, ReaderConfig};
use llrp_client::error::LlrpError;
use llrp_client::framer::{after_read, frame_status, next_frame, FrameStatus};
use llrp_client::llrp::{LlrpMessage, LlrpResponse, LlrpResponseData};
use llrp_client::message_types::LlrpMessageType;
use llrp_client::params::TagReportData;

fn config() -> Config {
    Config {
        host: "127.0.0.1:5084".to_string(),
        log_level: "debug".to_string(),
        log_response_ack: true,
        response_timeout: 2500,
        reader_config: ReaderConfig {
            hop_table_id: 1,
            channel_index: 0,
            tx_power_table_index: 81,
            rx_power_table_index: 1,
        },
        rospec: ROSpecConfig {
            rospec_id: 1,
            priority: 0,
            antenna_count: 1,
            antennas: vec![0],
            ROSpecStartTriggerType: 1,
            ROSpecStopTriggerType: 0,
            AISpecStopTriggerType: 0,
            InventoryParamSpecID: 1,
            AIProtocol: 1,
            ROReportTriggerType: 0,
            ROReportTrigger_N: 0,
            ReportContentSelector: 0,
        },
    }
}

fn reply(message_type: LlrpMessageType, message_id: u32) -> LlrpResponse {
    LlrpResponse { message_type, message_id, payload: vec![0x01, 0x1F, 0, 8, 0, 0, 0, 0] }
}

fn all_verbs() -> Vec<Verb> {
    vec![
        Verb::DeleteROSpec { rospec_id: 0 },
        Verb::SetReaderConfig,
        Verb::EnableEventsAndReports,
        Verb::AddROSpec,
        Verb::EnableROSpec,
        Verb::StartROSpec,
        Verb::StopROSpec,
        Verb::GetReaderCapabilities,
        Verb::GetReaderConfig,
        Verb::Keepalive,
        Verb::CloseConnection,
    ]
}

#[test]
fn expected_response_table() {
    assert_eq!(
        expected_response(Verb::GetReaderCapabilities),
        LlrpMessageType::GetReaderCapabilitiesResponse
    );
    assert_eq!(expected_response(Verb::GetReaderConfig), LlrpMessageType::GetReaderConfigResponse);
    assert_eq!(expected_response(Verb::SetReaderConfig), LlrpMessageType::SetReaderConfigResponse);
    assert_eq!(expected_response(Verb::AddROSpec), LlrpMessageType::AddROspecResponse);
    assert_eq!(expected_response(Verb::EnableROSpec), LlrpMessageType::EnableROSpecResponse);
    assert_eq!(expected_response(Verb::StartROSpec), LlrpMessageType::StartROSpecResponse);
    assert_eq!(expected_response(Verb::StopROSpec), LlrpMessageType::StopROSpecResponse);
    assert_eq!(
        expected_response(Verb::DeleteROSpec { rospec_id: 3 }),
        LlrpMessageType::DeleteROSpecResponse
    );
    assert_eq!(expected_response(Verb::EnableEventsAndReports), LlrpMessageType::NoMessage);
    assert_eq!(expected_response(Verb::Keepalive), LlrpMessageType::KeepaliveAck);
    assert_eq!(expected_response(Verb::CloseConnection), LlrpMessageType::CloseConnectionResponse);
}

#[test]
fn build_request_per_verb() {
    let c = config();
    assert_eq!(
        build_request(Verb::Keepalive, 5, &c),
        LlrpMessage::new(LlrpMessageType::Keepalive, 5, vec![])
    );
    assert_eq!(
        build_request(Verb::CloseConnection, 6, &c),
        LlrpMessage::new(LlrpMessageType::CloseConnection, 6, vec![])
    );
    assert_eq!(
        build_request(Verb::EnableEventsAndReports, 7, &c),
        LlrpMessage::new_enable_events_and_reports(7)
    );
    assert_eq!(
        build_request(Verb::GetReaderCapabilities, 8, &c),
        LlrpMessage::new_get_reader_capabilities(8)
    );
    assert_eq!(build_request(Verb::GetReaderConfig, 9, &c), LlrpMessage::new_get_reader_config(9));
    assert_eq!(
        build_request(Verb::SetReaderConfig, 10, &c),
        LlrpMessage::new_set_reader_config(10, &c.reader_config)
    );
    assert_eq!(build_request(Verb::AddROSpec, 11, &c), LlrpMessage::new_add_rospec(11, &c.rospec));
    assert_eq!(build_request(Verb::EnableROSpec, 12, &c), LlrpMessage::new_enable_rospec(12, 1));
    assert_eq!(build_request(Verb::StartROSpec, 13, &c), LlrpMessage::new_start_rospec(13, 1));
    assert_eq!(build_request(Verb::StopROSpec, 14, &c), LlrpMessage::new_stop_rospec(14, 1));
    assert_eq!(
        build_request(Verb::DeleteROSpec { rospec_id: 0 }, 15, &c),
        LlrpMessage::new_delete_rospec(15, 0)
    );
}

#[test]
fn new_session_state() {
    let s = Session::new(config());
    assert!(s.is_connected());
    assert_eq!(s.outstanding_count(), 0);
    assert_eq!(s.response_timeout(), 2500);
    assert_eq!(s.config(), &config());
    assert_eq!(FIRST_MESSAGE_ID, 1001);
    assert_eq!(REPORT_CHANNEL_CAPACITY, 100);
}

#[test]
fn message_ids_start_at_1001_and_strictly_increase() {
    let mut s = Session::new(config());
    assert_eq!(s.next_message_id(), 1001);
    assert_eq!(s.next_message_id(), 1002);
    let mut last = 1002;
    for _ in 0..20 {
        for verb in all_verbs() {
            assert!(s.can_begin(verb));
            let m = s.begin(verb).unwrap();
            assert_eq!(m.message_id, last + 1);
            last = m.message_id;
        }
    }
    assert_eq!(last, 1002 + 20 * 11);
}

#[test]
fn first_request_of_a_session_has_id_1001() {
    let mut s = Session::new(config());
    let m = s.begin(Verb::DeleteROSpec { rospec_id: 0 }).unwrap();
    assert_eq!(m.message_id, 1001);
    assert_eq!(m.message_type, LlrpMessageType::DeleteROSpec);
    assert_eq!(m.payload, vec![0, 0, 0, 0]);
}

#[test]
fn begin_registers_only_verbs_that_are_answered() {
    let mut s = Session::new(config());
    s.begin(Verb::EnableEventsAndReports).unwrap();
    assert_eq!(s.outstanding_count(), 0);
    s.begin(Verb::Keepalive).unwrap();
    assert_eq!(s.outstanding_count(), 1);
    s.begin(Verb::AddROSpec).unwrap();
    assert_eq!(s.outstanding_count(), 2);
}

#[test]
fn can_begin_accepts_an_ordinary_configuration() {
    let s = Session::new(config());
    assert!(s.can_begin(Verb::AddROSpec));
    assert!(s.can_begin(Verb::Keepalive));
}

#[test]
fn route_by_type() {
    assert_eq!(route(LlrpMessageType::ROAccessReport), Route::Report);
    assert_eq!(route(LlrpMessageType::ReaderEventNotification), Route::Dropped);
    assert_eq!(route(LlrpMessageType::KeepaliveAck), Route::Correlate);
    assert_eq!(route(LlrpMessageType::Keepalive), Route::Correlate);
    assert_eq!(route(LlrpMessageType::ErrorMessage), Route::Correlate);
}

#[test]
fn dispatch_delivers_the_response_of_a_request() {
    let mut s = Session::new(config());
    let m = s.begin(Verb::Keepalive).unwrap();
    assert_eq!(s.dispatch(&reply(LlrpMessageType::KeepaliveAck, m.message_id)), Dispatch::Deliver);
    assert_eq!(s.outstanding_count(), 0);
    assert_eq!(s.dispatch(&reply(LlrpMessageType::KeepaliveAck, m.message_id)), Dispatch::Unmatched);
}

#[test]
fn dispatch_skips_what_matches_no_request() {
    let mut s = Session::new(config());
    let m = s.begin(Verb::Keepalive).unwrap();
    assert_eq!(s.dispatch(&reply(LlrpMessageType::KeepaliveAck, 5)), Dispatch::Unmatched);
    assert_eq!(
        s.dispatch(&reply(LlrpMessageType::AddROspecResponse, m.message_id)),
        Dispatch::Unmatched
    );
    assert_eq!(s.dispatch(&reply(LlrpMessageType::Keepalive, m.message_id)), Dispatch::Unmatched);
    assert_eq!(s.outstanding_count(), 1);
    assert_eq!(s.dispatch(&reply(LlrpMessageType::KeepaliveAck, m.message_id)), Dispatch::Deliver);
}

#[test]
fn dispatch_routes_reports_and_notifications() {
    let mut s = Session::new(config());
    let m = s.begin(Verb::Keepalive).unwrap();
    assert_eq!(s.dispatch(&reply(LlrpMessageType::ROAccessReport, m.message_id)), Dispatch::Report);
    assert_eq!(
        s.dispatch(&reply(LlrpMessageType::ReaderEventNotification, m.message_id)),
        Dispatch::Dropped
    );
    assert_eq!(s.outstanding_count(), 1);
}

#[test]
fn concurrent_verbs_each_get_their_own_response_in_any_order() {
    let orders: [[usize; 4]; 5] =
        [[0, 1, 2, 3], [3, 2, 1, 0], [1, 3, 0, 2], [2, 0, 3, 1], [3, 0, 1, 2]];
    for order in orders {
        let mut s = Session::new(config());
        let verbs = [Verb::Keepalive, Verb::AddROSpec, Verb::Keepalive, Verb::GetReaderConfig];
        let requests: Vec<LlrpMessage> = verbs.iter().map(|v| s.begin(*v).unwrap()).collect();
        assert_eq!(s.outstanding_count(), 4);
        let mut left = 4;
        for k in order {
            let answer = reply(expected_response(verbs[k]), requests[k].message_id);
            assert_eq!(s.dispatch(&answer), Dispatch::Deliver);
            left -= 1;
            assert_eq!(s.outstanding_count(), left);
            assert_eq!(wait_outcome(WaitEvent::Delivered(answer.clone())), Ok(answer));
        }
    }
}

#[test]
fn keepalive_from_the_reader_does_not_disturb_a_waiting_request() {
    let mut s = Session::new(config());
    let m = s.begin(Verb::StartROSpec).unwrap();
    assert_eq!(s.dispatch(&reply(LlrpMessageType::Keepalive, 0)), Dispatch::Unmatched);
    assert_eq!(
        s.dispatch(&reply(LlrpMessageType::StartROSpecResponse, m.message_id)),
        Dispatch::Deliver
    );
}

#[test]
fn abandoned_request_does_not_block_later_verbs() {
    let mut s = Session::new(config());
    let first = s.begin(Verb::Keepalive).unwrap();
    s.abandon(first.message_id);
    assert_eq!(s.outstanding_count(), 0);
    assert_eq!(
        s.dispatch(&reply(LlrpMessageType::KeepaliveAck, first.message_id)),
        Dispatch::Unmatched
    );
    let second = s.begin(Verb::Keepalive).unwrap();
    assert_eq!(second.message_id, first.message_id + 1);
    assert_eq!(s.outstanding_count(), 1);
    assert_eq!(
        s.dispatch(&reply(LlrpMessageType::KeepaliveAck, second.message_id)),
        Dispatch::Deliver
    );
    assert_eq!(s.outstanding_count(), 0);
}

#[test]
fn abandon_takes_out_one_request_and_no_other() {
    let mut s = Session::new(config());
    let a = s.begin(Verb::Keepalive).unwrap();
    let b = s.begin(Verb::StopROSpec).unwrap();
    let c = s.begin(Verb::Keepalive).unwrap();
    s.abandon(b.message_id);
    assert_eq!(s.outstanding_count(), 2);
    s.abandon(b.message_id);
    s.abandon(9999);
    assert_eq!(s.outstanding_count(), 2);
    assert_eq!(s.dispatch(&reply(LlrpMessageType::KeepaliveAck, c.message_id)), Dispatch::Deliver);
    assert_eq!(s.dispatch(&reply(LlrpMessageType::KeepaliveAck, a.message_id)), Dispatch::Deliver);
    assert_eq!(
        s.dispatch(&reply(LlrpMessageType::StopROSpecResponse, b.message_id)),
        Dispatch::Unmatched
    );
}

#[test]
fn outstanding_table_is_bounded_by_live_waiters() {
    let mut s = Session::new(config());
    let mut live: Vec<u32> = Vec::new();
    for round in 0..50u32 {
        let m = s.begin(Verb::Keepalive).unwrap();
        live.push(m.message_id);
        assert_eq!(s.outstanding_count(), live.len());
        if round % 3 == 0 {
            let id = live.remove(0);
            s.abandon(id);
        } else if round % 3 == 1 {
            let id = live.pop().unwrap();
            assert_eq!(s.dispatch(&reply(LlrpMessageType::KeepaliveAck, id)), Dispatch::Deliver);
        }
        assert_eq!(s.outstanding_count(), live.len());
    }
}

#[test]
fn disconnect_fails_the_outstanding_requests_and_refuses_later_verbs() {
    let mut s = Session::new(config());
    let a = s.begin(Verb::Keepalive).unwrap();
    s.begin(Verb::EnableEventsAndReports).unwrap();
    let b = s.begin(Verb::GetReaderConfig).unwrap();
    assert_eq!(s.disconnect(), vec![a.message_id, b.message_id]);
    assert!(!s.is_connected());
    assert_eq!(s.outstanding_count(), 0);
    assert_eq!(wait_outcome(WaitEvent::SlotClosed), Err(LlrpError::Disconnected));
    for verb in all_verbs() {
        assert!(s.can_begin(verb));
        assert_eq!(s.begin(verb), Err(LlrpError::Disconnected));
    }
    assert_eq!(s.outstanding_count(), 0);
    assert_eq!(s.disconnect(), Vec::<u32>::new());
}

#[test]
fn close_connection_never_fails_the_caller() {
    let ack = reply(LlrpMessageType::CloseConnectionResponse, 1001);
    assert_eq!(verb_outcome(Verb::CloseConnection, Ok(ack.clone())), Ok(Some(ack.clone())));
    assert_eq!(verb_outcome(Verb::CloseConnection, Err(LlrpError::TimedOut)), Ok(None));
    assert_eq!(verb_outcome(Verb::CloseConnection, Err(LlrpError::Disconnected)), Ok(None));
    assert_eq!(verb_outcome(Verb::Keepalive, Ok(ack.clone())), Ok(Some(ack)));
    assert_eq!(verb_outcome(Verb::Keepalive, Err(LlrpError::TimedOut)), Err(LlrpError::TimedOut));
    assert_eq!(
        verb_outcome(Verb::AddROSpec, Err(LlrpError::Disconnected)),
        Err(LlrpError::Disconnected)
    );
}

#[test]
fn timed_out_verb_leaves_the_session_usable() {
    let mut s = Session::new(config());
    let first = s.begin(Verb::Keepalive).unwrap();
    assert_eq!(
        verb_outcome(Verb::Keepalive, wait_outcome(WaitEvent::TimerFired)),
        Err(LlrpError::TimedOut)
    );
    s.abandon(first.message_id);
    assert!(s.is_connected());
    let second = s.begin(Verb::Keepalive).unwrap();
    let ack = reply(LlrpMessageType::KeepaliveAck, second.message_id);
    assert_eq!(s.dispatch(&ack), Dispatch::Deliver);
    assert_eq!(
        verb_outcome(Verb::Keepalive, wait_outcome(WaitEvent::Delivered(ack.clone()))),
        Ok(Some(ack))
    );
}

/// A reader that answers each request with the response of its type and id, and
/// sends one tag report after `StartROSpec`.
fn reader_answers(request: &[u8]) -> Vec<u8> {
    let mut inbound = BytesMut::from(request);
    let message = LlrpMessage::decode(&mut inbound).unwrap();
    assert_eq!(inbound.len(), 0);
    let status = vec![0x01, 0x1F, 0x00, 0x08, 0x00, 0x00, 0x00, 0x00];
    let answer_type = match message.message_type {
        LlrpMessageType::DeleteROSpec => Some(LlrpMessageType::DeleteROSpecResponse),
        LlrpMessageType::SetReaderConfig => Some(LlrpMessageType::SetReaderConfigResponse),
        LlrpMessageType::AddROSpec => Some(LlrpMessageType::AddROspecResponse),
        LlrpMessageType::EnableROSpec => Some(LlrpMessageType::EnableROSpecResponse),
        LlrpMessageType::StartROSpec => Some(LlrpMessageType::StartROSpecResponse),
        LlrpMessageType::StopROSpec => Some(LlrpMessageType::StopROSpecResponse),
        LlrpMessageType::CloseConnection => Some(LlrpMessageType::CloseConnectionResponse),
        _ => None,
    };
    let mut out = Vec::new();
    if let Some(t) = answer_type {
        out.extend_from_slice(&LlrpMessage::new(t, message.message_id, status).encode());
    }
    if message.message_type == LlrpMessageType::StartROSpec {
        let mut report = vec![0x00, 0xF0, 0x00, 0x11, 0x8D];
        report.extend_from_slice(&[
            0xE2, 0x00, 0x10, 0x20, 0x30, 0x40, 0x50, 0x60, 0x70, 0x80, 0x90, 0xA0,
        ]);
        out.extend_from_slice(&LlrpMessage::new(LlrpMessageType::ROAccessReport, 0, report).encode());
    }
    out
}

#[test]
fn whole_session_against_a_reader_in_memory() {
    let mut s = Session::new(config());
    let mut inbound = BytesMut::new();
    let mut acks: Vec<LlrpMessageType> = Vec::new();
    let mut reports: Vec<LlrpResponseData> = Vec::new();
    let verbs = [
        Verb::DeleteROSpec { rospec_id: 0 },
        Verb::SetReaderConfig,
        Verb::EnableEventsAndReports,
        Verb::AddROSpec,
        Verb::EnableROSpec,
        Verb::StartROSpec,
        Verb::StopROSpec,
        Verb::CloseConnection,
    ];
    for verb in verbs {
        assert!(s.can_begin(verb));
        let request = s.begin(verb).unwrap();
        inbound.extend_from_slice(&reader_answers(&request.encode()));
        while let Some(message) = next_frame(&mut inbound).unwrap() {
            let response = LlrpResponse::from_message(message);
            match s.dispatch(&response) {
                Dispatch::Deliver => {
                    assert_eq!(response.message_id, request.message_id);
                    assert_eq!(response.message_type, expected_response(verb));
                    acks.push(response.message_type);
                }
                Dispatch::Report => match report_outcome(ReportEvent::Report(response)) {
                    ReportOutcome::Deliver(data) => reports.push(data),
                    other => panic!("the report was not delivered: {:?}", other),
                },
                other => panic!("unexpected dispatch {:?}", other),
            }
        }
        assert_eq!(s.outstanding_count(), 0);
    }
    assert_eq!(
        acks,
        vec![
            LlrpMessageType::DeleteROSpecResponse,
            LlrpMessageType::SetReaderConfigResponse,
            LlrpMessageType::AddROspecResponse,
            LlrpMessageType::EnableROSpecResponse,
            LlrpMessageType::StartROSpecResponse,
            LlrpMessageType::StopROSpecResponse,
            LlrpMessageType::CloseConnectionResponse,
        ]
    );
    assert_eq!(
        reports,
        vec![LlrpResponseData::TagReport(vec![TagReportData {
            epc: vec![0xE2, 0x00, 0x10, 0x20, 0x30, 0x40, 0x50, 0x60, 0x70, 0x80, 0x90, 0xA0]
        }])]
    );
    assert_eq!(inbound.len(), 0);
    assert_eq!(s.disconnect(), Vec::<u32>::new());
}

#[test]
fn acknowledgment_line() {
    let s = Session::new(config());
    assert_eq!(
        s.acknowledgment(LlrpMessageType::KeepaliveAck, LlrpMessageType::KeepaliveAck),
        Some("KeepaliveAck")
    );
    assert_eq!(
        s.acknowledgment(LlrpMessageType::AddROspecResponse, LlrpMessageType::AddROspecResponse),
        Some("AddROspecResponse")
    );
    assert_eq!(
        s.acknowledgment(LlrpMessageType::KeepaliveAck, LlrpMessageType::AddROspecResponse),
        None
    );
    assert_eq!(s.acknowledgment(LlrpMessageType::NoMessage, LlrpMessageType::NoMessage), None);
    let mut quiet = config();
    quiet.log_response_ack = false;
    let s = Session::new(quiet);
    assert_eq!(s.acknowledgment(LlrpMessageType::KeepaliveAck, LlrpMessageType::KeepaliveAck), None);
}

#[test]
fn wait_outcomes() {
    let r = reply(LlrpMessageType::KeepaliveAck, 1001);
    assert_eq!(wait_outcome(WaitEvent::Delivered(r.clone())), Ok(r));
    assert_eq!(wait_outcome(WaitEvent::SlotClosed), Err(LlrpError::Disconnected));
    assert_eq!(wait_outcome(WaitEvent::TimerFired), Err(LlrpError::TimedOut));
}

#[test]
fn report_outcomes() {
    let mut value = vec![0x8D];
    value.extend_from_slice(&[3; 12]);
    let mut payload = vec![0x00, 0xF0, 0x00, 17];
    payload.extend_from_slice(&value);
    let report = LlrpResponse { message_type: LlrpMessageType::ROAccessReport, message_id: 0, payload };
    assert_eq!(
        report_outcome(ReportEvent::Report(report)),
        ReportOutcome::Deliver(LlrpResponseData::TagReport(vec![TagReportData { epc: vec![3; 12] }]))
    );
    let bad = LlrpResponse {
        message_type: LlrpMessageType::ROAccessReport,
        message_id: 0,
        payload: vec![0x81],
    };
    assert_eq!(
        report_outcome(ReportEvent::Report(bad)),
        ReportOutcome::Fail(LlrpError::UnknownTVType)
    );
    assert_eq!(report_outcome(ReportEvent::Lagged(17)), ReportOutcome::Continue);
    assert_eq!(report_outcome(ReportEvent::Closed), ReportOutcome::Fail(LlrpError::Disconnected));
    assert_eq!(report_outcome(ReportEvent::TimerFired), ReportOutcome::Fail(LlrpError::TimedOut));
}

#[test]
fn remaining_wait_never_ends_early() {
    assert_eq!(remaining_wait(2500, 0), Some(2500));
    assert_eq!(remaining_wait(2500, 1), Some(2499));
    assert_eq!(remaining_wait(2500, 2499), Some(1));
    assert_eq!(remaining_wait(2500, 2500), None);
    assert_eq!(remaining_wait(2500, 9000), None);
    assert_eq!(remaining_wait(0, 0), None);
    assert_eq!(remaining_wait(u64::MAX, 1), Some(u64::MAX - 1));
}

#[test]
fn frame_status_by_buffer() {
    assert_eq!(frame_status(&BytesMut::new()), FrameStatus::NeedMore);
    let header = [0x04u8, 0x3E, 0, 0, 0, 12, 0, 0, 0, 1];
    assert_eq!(frame_status(&BytesMut::from(&header[..9])), FrameStatus::NeedMore);
    assert_eq!(frame_status(&BytesMut::from(&header[..])), FrameStatus::NeedMore);
    let mut whole = header.to_vec();
    whole.push(1);
    assert_eq!(frame_status(&BytesMut::from(&whole[..])), FrameStatus::NeedMore);
    whole.push(2);
    assert_eq!(frame_status(&BytesMut::from(&whole[..])), FrameStatus::Ready(12));
    whole.extend_from_slice(&[9, 9, 9]);
    assert_eq!(frame_status(&BytesMut::from(&whole[..])), FrameStatus::Ready(12));
    let short = [0x04u8, 0x3E, 0, 0, 0, 9, 0, 0, 0, 1];
    assert_eq!(frame_status(&BytesMut::from(&short[..])), FrameStatus::Malformed);
    let big = [0x04u8, 0x3E, 0x01, 0x02, 0x03, 0x04, 0, 0, 0, 1];
    assert_eq!(frame_status(&BytesMut::from(&big[..])), FrameStatus::NeedMore);
}

#[test]
fn next_frame_reads_frames_as_bytes_arrive() {
    let a = LlrpMessage::new(LlrpMessageType::KeepaliveAck, 1001, vec![]);
    let b = LlrpMessage::new(LlrpMessageType::ROAccessReport, 0, vec![1, 2, 3, 4, 5]);
    let mut wire = a.encode().to_vec();
    wire.extend_from_slice(&b.encode());
    let mut buf = BytesMut::new();
    let mut got: Vec<LlrpMessage> = Vec::new();
    for chunk in wire.chunks(3) {
        buf.extend_from_slice(chunk);
        assert_eq!(after_read(chunk.len()), Ok(()));
        while let Some(m) = next_frame(&mut buf).unwrap() {
            got.push(m);
        }
    }
    assert_eq!(got, vec![a, b]);
    assert_eq!(buf.len(), 0);
}

#[test]
fn next_frame_errors() {
    let mut buf = BytesMut::from(&[0x04u8, 0x3E, 0, 0, 0, 3, 0, 0, 0, 1, 7][..]);
    assert_eq!(next_frame(&mut buf), Err(LlrpError::MalformedFrame));
    assert_eq!(buf.len(), 11);
    let mut buf = BytesMut::from(&[0x04u8, 0x07, 0, 0, 0, 10, 0, 0, 0, 1, 7][..]);
    assert_eq!(next_frame(&mut buf), Err(LlrpError::UnknownMessageType));
    assert_eq!(&buf[..], &[7][..]);
    let mut buf = BytesMut::from(&[0x04u8, 0x3E][..]);
    assert_eq!(next_frame(&mut buf), Ok(None));
    assert_eq!(buf.len(), 2);
}

#[test]
fn end_of_stream_is_unexpected_eof() {
    assert_eq!(after_read(0), Err(LlrpError::UnexpectedEof));
    assert_eq!(after_read(1), Ok(()));
    assert_eq!(after_read(4096), Ok(()));
}
