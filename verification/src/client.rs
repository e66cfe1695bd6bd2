//! The session's bookkeeping: the verbs and their requests, the message-id
//! counter, the table of outstanding requests, and what a waiting verb makes of
//! what happens to it.
//!
//! The socket, the timers and the channels are the caller's part. The caller
//! begins a verb here, writes the request that it is given, and tells the
//! session of every inbound message; the session says where the message goes.

use crate::config::Config;
use crate::error::LlrpError;
use crate::llrp::{
    spec_add_rospec_payload, spec_decode_response, spec_get_reader_config_payload, spec_message,
    spec_set_reader_config_payload, LlrpMessage, LlrpResponse, LlrpResponseData,
    LlrpResponseDataView, MessageView, ResponseView,
};
use crate::message_types::{get_message_type_str, spec_message_type_str, LlrpMessageType};
use crate::wire::u32_be_bytes;
use vstd::prelude::*;

verus! {

/// What a session can be asked to do.
#[derive(Debug, Clone, Copy, PartialEq, Eq, Structural)]
pub enum Verb {
    GetReaderCapabilities,
    GetReaderConfig,
    SetReaderConfig,
    AddROSpec,
    EnableROSpec,
    StartROSpec,
    StopROSpec,
    /// Deletes the reader operation of the given id; 0 deletes all of them.
    DeleteROSpec { rospec_id: u32 },
    EnableEventsAndReports,
    Keepalive,
    CloseConnection,
}

/// The type of the response that answers a verb; `NoMessage` for the one verb
/// that is not answered.
pub open spec fn spec_expected_response(verb: Verb) -> LlrpMessageType {
    match verb {
        Verb::GetReaderCapabilities => LlrpMessageType::GetReaderCapabilitiesResponse,
        Verb::GetReaderConfig => LlrpMessageType::GetReaderConfigResponse,
        Verb::SetReaderConfig => LlrpMessageType::SetReaderConfigResponse,
        Verb::AddROSpec => LlrpMessageType::AddROspecResponse,
        Verb::EnableROSpec => LlrpMessageType::EnableROSpecResponse,
        Verb::StartROSpec => LlrpMessageType::StartROSpecResponse,
        Verb::StopROSpec => LlrpMessageType::StopROSpecResponse,
        Verb::DeleteROSpec { .. } => LlrpMessageType::DeleteROSpecResponse,
        Verb::EnableEventsAndReports => LlrpMessageType::NoMessage,
        Verb::Keepalive => LlrpMessageType::KeepaliveAck,
        Verb::CloseConnection => LlrpMessageType::CloseConnectionResponse,
    }
}

/// The type of the response that answers a verb; `NoMessage` for
/// `EnableEventsAndReports`, which is sent and not answered.
pub fn expected_response(verb: Verb) -> (t: LlrpMessageType)
    ensures
        t == spec_expected_response(verb),
{
    match verb {
        Verb::GetReaderCapabilities => LlrpMessageType::GetReaderCapabilitiesResponse,
        Verb::GetReaderConfig => LlrpMessageType::GetReaderConfigResponse,
        Verb::SetReaderConfig => LlrpMessageType::SetReaderConfigResponse,
        Verb::AddROSpec => LlrpMessageType::AddROspecResponse,
        Verb::EnableROSpec => LlrpMessageType::EnableROSpecResponse,
        Verb::StartROSpec => LlrpMessageType::StartROSpecResponse,
        Verb::StopROSpec => LlrpMessageType::StopROSpecResponse,
        Verb::DeleteROSpec { .. } => LlrpMessageType::DeleteROSpecResponse,
        Verb::EnableEventsAndReports => LlrpMessageType::NoMessage,
        Verb::Keepalive => LlrpMessageType::KeepaliveAck,
        Verb::CloseConnection => LlrpMessageType::CloseConnectionResponse,
    }
}

/// The request of a verb, with the given id and the values of the configuration.
pub open spec fn spec_request(verb: Verb, message_id: u32, config: Config) -> MessageView {
    match verb {
        Verb::GetReaderCapabilities => spec_message(
            LlrpMessageType::GetReaderCapabilities,
            message_id,
            seq![0u8],
        ),
        Verb::GetReaderConfig => spec_message(
            LlrpMessageType::GetReaderConfig,
            message_id,
            spec_get_reader_config_payload(),
        ),
        Verb::SetReaderConfig => spec_message(
            LlrpMessageType::SetReaderConfig,
            message_id,
            spec_set_reader_config_payload(config.reader_config),
        ),
        Verb::AddROSpec => spec_message(
            LlrpMessageType::AddROSpec,
            message_id,
            spec_add_rospec_payload(config.rospec),
        ),
        Verb::EnableROSpec => spec_message(
            LlrpMessageType::EnableROSpec,
            message_id,
            u32_be_bytes(config.rospec.rospec_id),
        ),
        Verb::StartROSpec => spec_message(
            LlrpMessageType::StartROSpec,
            message_id,
            u32_be_bytes(config.rospec.rospec_id),
        ),
        Verb::StopROSpec => spec_message(
            LlrpMessageType::StopROSpec,
            message_id,
            u32_be_bytes(config.rospec.rospec_id),
        ),
        Verb::DeleteROSpec { rospec_id } => spec_message(
            LlrpMessageType::DeleteROSpec,
            message_id,
            u32_be_bytes(rospec_id),
        ),
        Verb::EnableEventsAndReports => spec_message(
            LlrpMessageType::EnableEventsAndReports,
            message_id,
            Seq::empty(),
        ),
        Verb::Keepalive => spec_message(LlrpMessageType::Keepalive, message_id, Seq::empty()),
        Verb::CloseConnection => spec_message(
            LlrpMessageType::CloseConnection,
            message_id,
            Seq::empty(),
        ),
    }
}

/// Whether the request of a verb can be framed: the frame of `AddROSpec` grows
/// with the list of antennas and has to keep its length within 32 bits.
pub open spec fn spec_can_frame(verb: Verb, config: Config) -> bool {
    verb is AddROSpec ==> 73 + 2 * config.rospec.antennas@.len() <= u32::MAX
}

/// Builds the request of a verb.
pub fn build_request(verb: Verb, message_id: u32, config: &Config) -> (m: LlrpMessage)
    requires
        spec_can_frame(verb, *config),
    ensures
        m@ == spec_request(verb, message_id, *config),
        m@.wf(),
{
    match verb {
        Verb::GetReaderCapabilities => LlrpMessage::new_get_reader_capabilities(message_id),
        Verb::GetReaderConfig => LlrpMessage::new_get_reader_config(message_id),
        Verb::SetReaderConfig => LlrpMessage::new_set_reader_config(
            message_id,
            &config.reader_config,
        ),
        Verb::AddROSpec => LlrpMessage::new_add_rospec(message_id, &config.rospec),
        Verb::EnableROSpec => LlrpMessage::new_enable_rospec(message_id, config.rospec.rospec_id),
        Verb::StartROSpec => LlrpMessage::new_start_rospec(message_id, config.rospec.rospec_id),
        Verb::StopROSpec => LlrpMessage::new_stop_rospec(message_id, config.rospec.rospec_id),
        Verb::DeleteROSpec { rospec_id } => LlrpMessage::new_delete_rospec(message_id, rospec_id),
        Verb::EnableEventsAndReports => LlrpMessage::new_enable_events_and_reports(message_id),
        Verb::Keepalive => LlrpMessage::new(LlrpMessageType::Keepalive, message_id, Vec::new()),
        Verb::CloseConnection => LlrpMessage::new(
            LlrpMessageType::CloseConnection,
            message_id,
            Vec::new(),
        ),
    }
}

/// Where the receive loop sends a message of a given type.
#[derive(Debug, Clone, Copy, PartialEq, Eq, Structural)]
pub enum Route {
    /// To the subscribers of tag reports.
    Report,
    /// Nowhere: the message is dropped.
    Dropped,
    /// To the request that it answers.
    Correlate,
}

/// Where a message of the given type goes: an `ROAccessReport` to the report
/// subscribers, a `ReaderEventNotification` nowhere, any other message to the
/// request that it answers.
pub open spec fn spec_route(message_type: LlrpMessageType) -> Route {
    match message_type {
        LlrpMessageType::ROAccessReport => Route::Report,
        LlrpMessageType::ReaderEventNotification => Route::Dropped,
        _ => Route::Correlate,
    }
}

/// Where a message of the given type goes.
pub fn route(message_type: LlrpMessageType) -> (r: Route)
    ensures
        r == spec_route(message_type),
{
    match message_type {
        LlrpMessageType::ROAccessReport => Route::Report,
        LlrpMessageType::ReaderEventNotification => Route::Dropped,
        _ => Route::Correlate,
    }
}

/// A request that waits for its response.
#[derive(Debug, Clone, Copy, PartialEq, Eq, Structural)]
pub struct Pending {
    pub message_id: u32,
    pub expected: LlrpMessageType,
}

/// What became of an inbound message.
#[derive(Debug, Clone, Copy, PartialEq, Eq, Structural)]
pub enum Dispatch {
    /// It is a tag report, for the report subscribers.
    Report,
    /// It is a reader event notification, and is dropped.
    Dropped,
    /// It answers the outstanding request of its id, which is no longer
    /// outstanding.
    Deliver,
    /// No outstanding request has its id and expects its type: it is skipped.
    Unmatched,
}

/// The state of a session as the contracts see it.
pub struct SessionView {
    /// The id that the next request gets.
    pub next_id: u32,
    /// The requests that wait for their responses, oldest first.
    pub outstanding: Seq<Pending>,
    /// Whether the receive loop lives. Once it has ended, no verb can begin.
    pub connected: bool,
}

/// The id of the first request of a session.
pub const FIRST_MESSAGE_ID: u32 = 1001;

/// The number of tag reports that the report channel holds for a subscriber that
/// has fallen behind. Beyond it the oldest reports are lost to that subscriber,
/// which is told how many.
pub const REPORT_CHANNEL_CAPACITY: usize = 100;

impl SessionView {
    /// No two outstanding requests have the same id, every one has an id that
    /// the session has given out, and every one expects a message that is
    /// routed to a request. A session whose receive loop has ended has no
    /// request outstanding.
    pub open spec fn wf(self) -> bool {
        &&& self.next_id >= FIRST_MESSAGE_ID
        &&& !self.connected ==> self.outstanding.len() == 0
        &&& forall|i: int, j: int|
            0 <= i < j < self.outstanding.len() ==> (#[trigger] self.outstanding[i]).message_id != (
            #[trigger] self.outstanding[j]).message_id
        &&& forall|i: int|
            0 <= i < self.outstanding.len() ==> (#[trigger] self.outstanding[i]).message_id
                < self.next_id
        &&& forall|i: int|
            0 <= i < self.outstanding.len() ==> spec_route(
                (#[trigger] self.outstanding[i]).expected,
            ) is Correlate
    }

    /// Where in the table the request stands that `response` answers: it has the
    /// response's id and expects its type.
    pub open spec fn answered_by(self, response: ResponseView, i: int) -> bool {
        &&& 0 <= i < self.outstanding.len()
        &&& self.outstanding[i].message_id == response.message_id
        &&& self.outstanding[i].expected == response.message_type
    }

    /// Whether `response` answers an outstanding request.
    pub open spec fn answers(self, response: ResponseView) -> bool {
        exists|i: int| self.answered_by(response, i)
    }

    /// Whether a request with this id is outstanding.
    pub open spec fn is_outstanding(self, message_id: u32) -> bool {
        exists|i: int|
            0 <= i < self.outstanding.len() && (#[trigger] self.outstanding[i]).message_id
                == message_id
    }

    /// The state of a session that has just been made.
    pub open spec fn initial() -> SessionView {
        SessionView { next_id: FIRST_MESSAGE_ID, outstanding: Seq::empty(), connected: true }
    }

    /// The state after a verb has begun: the next id is taken, and the request
    /// is outstanding if the verb is answered. Nothing changes where the
    /// receive loop has ended: the verb does not begin.
    pub open spec fn begin(self, verb: Verb) -> SessionView {
        if !self.connected {
            self
        } else {
            SessionView {
                next_id: (self.next_id + 1) as u32,
                outstanding: if spec_expected_response(verb) == LlrpMessageType::NoMessage {
                    self.outstanding
                } else {
                    self.outstanding.push(
                        Pending { message_id: self.next_id, expected: spec_expected_response(verb) },
                    )
                },
                ..self
            }
        }
    }

    /// The state after the receive loop has ended: no request is outstanding,
    /// and no verb can begin.
    pub open spec fn disconnect(self) -> SessionView {
        SessionView { outstanding: Seq::empty(), connected: false, ..self }
    }

    /// The ids of the outstanding requests, oldest first.
    pub open spec fn outstanding_ids(self) -> Seq<u32> {
        Seq::new(self.outstanding.len(), |i: int| self.outstanding[i].message_id)
    }

    /// What becomes of an inbound message, and the state after it.
    pub open spec fn dispatch(self, response: ResponseView) -> (Dispatch, SessionView) {
        match spec_route(response.message_type) {
            Route::Report => (Dispatch::Report, self),
            Route::Dropped => (Dispatch::Dropped, self),
            Route::Correlate => if self.answers(response) {
                let i = choose|i: int| self.answered_by(response, i);
                (Dispatch::Deliver, SessionView { outstanding: self.outstanding.remove(i), ..self })
            } else {
                (Dispatch::Unmatched, self)
            },
        }
    }

    /// The state after the request of the given id has been given up: it is no
    /// longer outstanding. Nothing changes where it was not.
    pub open spec fn abandon(self, message_id: u32) -> SessionView {
        if self.is_outstanding(message_id) {
            let i = choose|i: int|
                0 <= i < self.outstanding.len() && (#[trigger] self.outstanding[i]).message_id
                    == message_id;
            SessionView { outstanding: self.outstanding.remove(i), ..self }
        } else {
            self
        }
    }
}

/// The bookkeeping of a session: the configuration, the message-id counter and
/// the table of outstanding requests.
pub struct Session {
    message_id: u32,
    config: Config,
    outstanding: Vec<Pending>,
    connected: bool,
}

impl View for Session {
    type V = SessionView;

    closed spec fn view(&self) -> SessionView {
        SessionView {
            next_id: self.message_id,
            outstanding: self.outstanding@,
            connected: self.connected,
        }
    }
}

impl Session {
    /// The configuration that the session was made with.
    pub closed spec fn spec_config(&self) -> Config {
        self.config
    }

    /// The invariant of the session's table. Every session keeps it.
    pub open spec fn wf(&self) -> bool {
        self@.wf()
    }

    #[verifier::type_invariant]
    spec fn keeps_wf(self) -> bool {
        self@.wf()
    }

    /// A session with the given configuration, whose first request gets the id
    /// 1001 and which has no request outstanding.
    pub fn new(config: Config) -> (s: Session)
        ensures
            s.wf(),
            s@ == SessionView::initial(),
            s.spec_config() == config,
    {
        Session { message_id: FIRST_MESSAGE_ID, config, outstanding: Vec::new(), connected: true }
    }

    /// The configuration that the session was made with.
    pub fn config(&self) -> (c: &Config)
        ensures
            *c == self.spec_config(),
    {
        &self.config
    }

    /// The longest that a request waits for its response, in milliseconds.
    pub fn response_timeout(&self) -> (ms: u64)
        ensures
            ms == self.spec_config().response_timeout,
    {
        self.config.response_timeout
    }

    /// The number of requests that wait for their responses.
    pub fn outstanding_count(&self) -> (n: usize)
        ensures
            n == self@.outstanding.len(),
    {
        self.outstanding.len()
    }

    /// Whether the receive loop lives.
    pub fn is_connected(&self) -> (b: bool)
        ensures
            b == self@.connected,
    {
        self.connected
    }

    /// Whether `begin` can be called with this verb: either the receive loop has
    /// ended, and `begin` will refuse the verb, or the counter has an id left to
    /// give and the request can be framed.
    pub fn can_begin(&self, verb: Verb) -> (ok: bool)
        ensures
            ok == self.spec_can_begin(verb),
    {
        if !self.connected {
            return true;
        }
        if self.message_id == u32::MAX {
            return false;
        }
        match verb {
            Verb::AddROSpec => {
                let n: usize = self.config.rospec.antennas.len();
                n <= (u32::MAX as usize - 73) / 2
            },
            _ => true,
        }
    }

    /// What `begin` asks of a session and a verb.
    pub open spec fn spec_can_begin(&self, verb: Verb) -> bool {
        self@.connected ==> self@.next_id < u32::MAX && spec_can_frame(verb, self.spec_config())
    }

    /// Puts a request at the end of the table. The table is changed off to the
    /// side and put back, so that the session is whole at every step.
    fn enter(&mut self, pending: Pending)
        requires
            old(self)@.connected,
            pending.message_id < old(self)@.next_id,
            !old(self)@.is_outstanding(pending.message_id),
            spec_route(pending.expected) is Correlate,
        ensures
            final(self)@ == (SessionView {
                outstanding: old(self)@.outstanding.push(pending),
                ..old(self)@
            }),
            final(self).spec_config() == old(self).spec_config(),
    {
        proof {
            use_type_invariant(&*self);
        }
        let mut table: Vec<Pending> = Vec::new();
        core::mem::swap(&mut self.outstanding, &mut table);
        table.push(pending);
        core::mem::swap(&mut self.outstanding, &mut table);
    }

    /// Takes the request at the given place out of the table.
    fn take_out(&mut self, at: usize)
        requires
            at < old(self)@.outstanding.len(),
        ensures
            final(self)@ == (SessionView {
                outstanding: old(self)@.outstanding.remove(at as int),
                ..old(self)@
            }),
            final(self).spec_config() == old(self).spec_config(),
    {
        proof {
            use_type_invariant(&*self);
        }
        let mut table: Vec<Pending> = Vec::new();
        core::mem::swap(&mut self.outstanding, &mut table);
        table.remove(at);
        core::mem::swap(&mut self.outstanding, &mut table);
    }

    /// Gives out the next message id and moves the counter on by one.
    pub fn next_message_id(&mut self) -> (id: u32)
        requires
            old(self)@.next_id < u32::MAX,
        ensures
            final(self).wf(),
            id == old(self)@.next_id,
            final(self)@.next_id == id + 1,
            final(self)@.outstanding == old(self)@.outstanding,
            final(self)@.connected == old(self)@.connected,
            final(self).spec_config() == old(self).spec_config(),
    {
        proof {
            use_type_invariant(&*self);
        }
        let current_id = self.message_id;
        self.message_id = self.message_id + 1;
        current_id
    }

    /// Begins a verb: gives its request the next message id, builds the request,
    /// and enters it in the table of outstanding requests if the verb is
    /// answered. Once the receive loop has ended, every verb is refused with
    /// `Disconnected`, and nothing changes.
    pub fn begin(&mut self, verb: Verb) -> (r: Result<LlrpMessage, LlrpError>)
        requires
            old(self).spec_can_begin(verb),
        ensures
            final(self).wf(),
            final(self)@ == old(self)@.begin(verb),
            final(self).spec_config() == old(self).spec_config(),
            match r {
                Ok(m) => old(self)@.connected && m@ == spec_request(
                    verb,
                    old(self)@.next_id,
                    old(self).spec_config(),
                ) && m@.wf(),
                Err(e) => !old(self)@.connected && e == LlrpError::Disconnected,
            },
    {
        proof {
            use_type_invariant(&*self);
        }
        if !self.connected {
            return Err(LlrpError::Disconnected);
        }
        let message_id = self.next_message_id();
        let message = build_request(verb, message_id, &self.config);
        let expected = expected_response(verb);
        match expected {
            LlrpMessageType::NoMessage => {},
            _ => {
                self.enter(Pending { message_id, expected });
            },
        }
        Ok(message)
    }

    /// Says where an inbound message goes. A message that answers an
    /// outstanding request takes the request out of the table.
    pub fn dispatch(&mut self, response: &LlrpResponse) -> (d: Dispatch)
        ensures
            final(self).wf(),
            d == old(self)@.dispatch(response@).0,
            final(self)@ == old(self)@.dispatch(response@).1,
            final(self).spec_config() == old(self).spec_config(),
    {
        proof {
            use_type_invariant(&*self);
        }
        match route(response.message_type) {
            Route::Report => Dispatch::Report,
            Route::Dropped => Dispatch::Dropped,
            Route::Correlate => {
                let mut i: usize = 0;
                while i < self.outstanding.len()
                    invariant
                        self.wf(),
                        *self == *old(self),
                        i <= self.outstanding@.len(),
                        forall|k: int| 0 <= k < i ==> !self@.answered_by(response@, k),
                    decreases self.outstanding@.len() - i,
                {
                    let p = self.outstanding[i];
                    if p.message_id == response.message_id && p.expected == response.message_type {
                        assert(self@.answered_by(response@, i as int));
                        self.take_out(i);
                        return Dispatch::Deliver;
                    }
                    i = i + 1;
                }
                Dispatch::Unmatched
            },
        }
    }

    /// Gives up the request of the given id, after a timeout or when its verb is
    /// cancelled: it leaves the table. A response that comes for it later finds
    /// no request and is skipped.
    pub fn abandon(&mut self, message_id: u32)
        ensures
            final(self).wf(),
            final(self)@ == old(self)@.abandon(message_id),
            final(self).spec_config() == old(self).spec_config(),
            !final(self)@.is_outstanding(message_id),
    {
        proof {
            use_type_invariant(&*self);
        }
        let mut i: usize = 0;
        while i < self.outstanding.len()
            invariant
                self.wf(),
                *self == *old(self),
                i <= self.outstanding@.len(),
                forall|k: int| 0 <= k < i ==> (#[trigger] self@.outstanding[k]).message_id != message_id,
            decreases self.outstanding@.len() - i,
        {
            if self.outstanding[i].message_id == message_id {
                self.take_out(i);
                return ;
            }
            i = i + 1;
        }
    }

    /// Records that the receive loop has ended. The table is emptied, and the
    /// ids of the requests that were outstanding are returned, oldest first:
    /// each of them fails with `Disconnected`. From now on no verb can begin.
    pub fn disconnect(&mut self) -> (ids: Vec<u32>)
        ensures
            final(self).wf(),
            final(self)@ == old(self)@.disconnect(),
            final(self).spec_config() == old(self).spec_config(),
            ids@ == old(self)@.outstanding_ids(),
    {
        proof {
            use_type_invariant(&*self);
        }
        let mut ids: Vec<u32> = Vec::new();
        let mut i: usize = 0;
        while i < self.outstanding.len()
            invariant
                *self == *old(self),
                i <= self.outstanding@.len(),
                ids@ == self@.outstanding_ids().take(i as int),
            decreases self.outstanding@.len() - i,
        {
            ids.push(self.outstanding[i].message_id);
            i = i + 1;
        }
        self.outstanding = Vec::new();
        self.connected = false;
        ids
    }

    /// The line that is logged when a response has arrived: the name of its
    /// type, where the configuration asks for such lines, the verb is answered
    /// and the response is of the type that was expected.
    pub fn acknowledgment(
        &self,
        expected_response_type: LlrpMessageType,
        response_type: LlrpMessageType,
    ) -> (line: Option<&'static str>)
        ensures
            line is Some <==> (self.spec_config().log_response_ack && expected_response_type
                != LlrpMessageType::NoMessage && expected_response_type == response_type),
            line matches Some(name) ==> name@ == spec_message_type_str(
                expected_response_type.spec_value(),
            ),
    {
        if self.config.log_response_ack && expected_response_type != LlrpMessageType::NoMessage
            && expected_response_type == response_type {
            Some(get_message_type_str(expected_response_type.value()))
        } else {
            None
        }
    }
}

/// What happens to a verb that waits for its response.
#[derive(Debug, Clone, PartialEq, Eq)]
pub enum WaitEvent {
    /// The response was delivered to it.
    Delivered(LlrpResponse),
    /// Its slot was closed without a response: the receive loop has ended.
    SlotClosed,
    /// Its timer fired: the response timeout has passed since it registered.
    TimerFired,
}

/// What a waiting verb makes of what happens to it: the response where one was
/// delivered, `Disconnected` where its slot was closed, `TimedOut` where its
/// timer fired.
pub fn wait_outcome(event: WaitEvent) -> (r: Result<LlrpResponse, LlrpError>)
    ensures
        r == (match event {
            WaitEvent::Delivered(response) => Ok::<LlrpResponse, LlrpError>(response),
            WaitEvent::SlotClosed => Err::<LlrpResponse, LlrpError>(LlrpError::Disconnected),
            WaitEvent::TimerFired => Err::<LlrpResponse, LlrpError>(LlrpError::TimedOut),
        }),
{
    match event {
        WaitEvent::Delivered(response) => Ok(response),
        WaitEvent::SlotClosed => Err(LlrpError::Disconnected),
        WaitEvent::TimerFired => Err(LlrpError::TimedOut),
    }
}

/// What a verb returns for the outcome of its wait: the response, or the error.
/// `CloseConnection` is done as well as can be, and never fails: where its wait
/// ended in an error, it returns without a response.
pub fn verb_outcome(verb: Verb, waited: Result<LlrpResponse, LlrpError>) -> (r: Result<
    Option<LlrpResponse>,
    LlrpError,
>)
    ensures
        r == (match waited {
            Ok(response) => Ok::<Option<LlrpResponse>, LlrpError>(Some(response)),
            Err(e) => if verb is CloseConnection {
                Ok::<Option<LlrpResponse>, LlrpError>(None)
            } else {
                Err::<Option<LlrpResponse>, LlrpError>(e)
            },
        }),
{
    match waited {
        Ok(response) => Ok(Some(response)),
        Err(e) => match verb {
            Verb::CloseConnection => Ok(None),
            _ => Err(e),
        },
    }
}

/// What happens to a subscriber that waits for a tag report.
#[derive(Debug, Clone, PartialEq, Eq)]
pub enum ReportEvent {
    /// A report came.
    Report(LlrpResponse),
    /// The subscriber fell behind, and this many reports were lost to it.
    Lagged(u64),
    /// The report channel was closed: the receive loop has ended.
    Closed,
    /// The timer fired.
    TimerFired,
}

/// What a subscriber does next.
#[derive(Debug, Clone, PartialEq, Eq)]
pub enum ReportOutcome {
    /// It hands the decoded report to its callback and returns.
    Deliver(LlrpResponseData),
    /// It goes on waiting, from the newest report on.
    Continue,
    /// It returns with an error.
    Fail(LlrpError),
}

/// What a subscriber does next, with its lists as sequences.
pub open spec fn spec_report_outcome(event: ReportEvent) -> Result<
    Option<LlrpResponseDataView>,
    LlrpError,
> {
    match event {
        ReportEvent::Report(response) => match spec_decode_response(response@) {
            Ok(data) => Ok(Some(data)),
            Err(e) => Err(e),
        },
        ReportEvent::Lagged(_) => Ok(None),
        ReportEvent::Closed => Err(LlrpError::Disconnected),
        ReportEvent::TimerFired => Err(LlrpError::TimedOut),
    }
}

/// The outcome as `spec_report_outcome` gives it: the data to deliver, nothing
/// where the subscriber goes on, or the error.
pub open spec fn spec_outcome_view(outcome: ReportOutcome) -> Result<
    Option<LlrpResponseDataView>,
    LlrpError,
> {
    match outcome {
        ReportOutcome::Deliver(data) => Ok(Some(data@)),
        ReportOutcome::Continue => Ok(None),
        ReportOutcome::Fail(e) => Err(e),
    }
}

/// What a subscriber that waits for a tag report makes of what happens to it: a
/// report is decoded, and delivered or failed with its error; a notice of lost
/// reports lets it go on; a closed channel is `Disconnected`, a fired timer
/// `TimedOut`.
pub fn report_outcome(event: ReportEvent) -> (outcome: ReportOutcome)
    ensures
        spec_outcome_view(outcome) == spec_report_outcome(event),
{
    match event {
        ReportEvent::Report(response) => match response.decode() {
            Ok(data) => ReportOutcome::Deliver(data),
            Err(e) => ReportOutcome::Fail(e),
        },
        ReportEvent::Lagged(_) => ReportOutcome::Continue,
        ReportEvent::Closed => ReportOutcome::Fail(LlrpError::Disconnected),
        ReportEvent::TimerFired => ReportOutcome::Fail(LlrpError::TimedOut),
    }
}

/// How long a wait that began `elapsed_ms` ago may still last, in milliseconds;
/// `None` where the timeout has passed. The wait never ends before the timeout:
/// the time left and the time gone make up the timeout.
pub fn remaining_wait(timeout_ms: u64, elapsed_ms: u64) -> (left: Option<u64>)
    ensures
        left is None <==> elapsed_ms >= timeout_ms,
        left matches Some(ms) ==> ms > 0 && ms + elapsed_ms == timeout_ms,
{
    if elapsed_ms >= timeout_ms {
        None
    } else {
        Some(timeout_ms - elapsed_ms)
    }
}

/// The state after the verbs of a list have begun, one after the other.
pub open spec fn spec_begin_all(s: SessionView, verbs: Seq<Verb>) -> SessionView
    decreases verbs.len(),
{
    if verbs.len() == 0 {
        s
    } else {
        spec_begin_all(s, verbs.drop_last()).begin(verbs.last())
    }
}

/// The id that the request of the `k`-th verb of a list gets.
pub open spec fn spec_emitted_id(s: SessionView, verbs: Seq<Verb>, k: int) -> u32 {
    spec_begin_all(s, verbs.take(k)).next_id
}

/// Each verb that begins moves the counter on by one.
pub proof fn lemma_begin_all_counts(s: SessionView, verbs: Seq<Verb>)
    requires
        s.connected,
        s.next_id + verbs.len() <= u32::MAX,
    ensures
        spec_begin_all(s, verbs).connected,
        spec_begin_all(s, verbs).next_id == s.next_id + verbs.len(),
    decreases verbs.len(),
{
    if verbs.len() > 0 {
        lemma_begin_all_counts(s, verbs.drop_last());
    }
}

/// The message ids that a session gives out while its receive loop lives are
/// strictly increasing: of two requests, the later has the greater id. The
/// first request of a new session has the id 1001.
pub proof fn lemma_message_ids_strictly_increase(
    s: SessionView,
    verbs: Seq<Verb>,
    i: int,
    j: int,
)
    requires
        s.connected,
        s.next_id + verbs.len() <= u32::MAX,
        0 <= i < j < verbs.len(),
    ensures
        spec_emitted_id(s, verbs, i) < spec_emitted_id(s, verbs, j),
        spec_emitted_id(s, verbs, i) == s.next_id + i,
        spec_emitted_id(s, verbs, j) == s.next_id + j,
        spec_emitted_id(SessionView::initial(), verbs, 0) == 1001,
{
    lemma_begin_all_counts(s, verbs.take(i));
    lemma_begin_all_counts(s, verbs.take(j));
}

/// Dispatching a message keeps the table well formed.
pub proof fn lemma_dispatch_keeps_wf(s: SessionView, response: ResponseView)
    requires
        s.wf(),
    ensures
        s.dispatch(response).1.wf(),
{
}

/// A response that answers an outstanding request is delivered. The request
/// leaves the table; every other request stays, and is still answered by what
/// answered it before.
pub proof fn lemma_dispatch_delivers(s: SessionView, response: ResponseView, other: ResponseView)
    requires
        s.wf(),
        s.answers(response),
    ensures
        s.dispatch(response).0 == Dispatch::Deliver,
        s.dispatch(response).1.outstanding.len() == s.outstanding.len() - 1,
        !s.dispatch(response).1.is_outstanding(response.message_id),
        other.message_id != response.message_id && s.answers(other) ==> s.dispatch(
            response,
        ).1.answers(other),
{
    let n = choose|n: int| s.answered_by(response, n);
    let t = s.dispatch(response).1;
    if other.message_id != response.message_id && s.answers(other) {
        let m = choose|m: int| s.answered_by(other, m);
        if m < n {
            assert(t.answered_by(other, m));
        } else {
            assert(t.answered_by(other, m - 1));
        }
    }
}

/// The state after the messages of a list have been dispatched, one after the
/// other.
pub open spec fn spec_dispatch_all(s: SessionView, responses: Seq<ResponseView>) -> SessionView
    decreases responses.len(),
{
    if responses.len() == 0 {
        s
    } else {
        spec_dispatch_all(s, responses.drop_last()).dispatch(responses.last()).1
    }
}

/// What becomes of the `k`-th message of a list that is dispatched in order.
pub open spec fn spec_dispatched(s: SessionView, responses: Seq<ResponseView>, k: int) -> Dispatch {
    spec_dispatch_all(s, responses.take(k)).dispatch(responses[k]).0
}

/// Each of the responses answers an outstanding request, and no two of them
/// have the same id.
pub open spec fn spec_answers_of(s: SessionView, responses: Seq<ResponseView>) -> bool {
    &&& forall|i: int| 0 <= i < responses.len() ==> s.answers(#[trigger] responses[i])
    &&& forall|i: int, j: int|
        0 <= i < j < responses.len() ==> (#[trigger] responses[i]).message_id != (
        #[trigger] responses[j]).message_id
}

/// After the first `k` responses have been dispatched, the table is well formed
/// and the others still answer outstanding requests.
proof fn lemma_dispatch_all_keeps_answers(s: SessionView, responses: Seq<ResponseView>, k: int)
    requires
        s.wf(),
        spec_answers_of(s, responses),
        0 <= k <= responses.len(),
    ensures
        spec_dispatch_all(s, responses.take(k)).wf(),
        forall|i: int|
            k <= i < responses.len() ==> spec_dispatch_all(s, responses.take(k)).answers(
                #[trigger] responses[i],
            ),
    decreases k,
{
    if k > 0 {
        lemma_dispatch_all_keeps_answers(s, responses, k - 1);
        let before = spec_dispatch_all(s, responses.take(k - 1));
        assert(responses.take(k).drop_last() =~= responses.take(k - 1));
        let after = spec_dispatch_all(s, responses.take(k));
        lemma_dispatch_keeps_wf(before, responses[k - 1]);
        assert forall|i: int| k <= i < responses.len() implies after.answers(
            #[trigger] responses[i],
        ) by {
            lemma_dispatch_delivers(before, responses[k - 1], responses[i]);
        }
    }
}

/// Responses to outstanding requests reach their requests in whatever order they
/// come: each one is delivered to the request of its id.
pub proof fn lemma_responses_in_any_order(s: SessionView, responses: Seq<ResponseView>, k: int)
    requires
        s.wf(),
        spec_answers_of(s, responses),
        0 <= k < responses.len(),
    ensures
        spec_dispatched(s, responses, k) == Dispatch::Deliver,
        spec_dispatch_all(s, responses).outstanding.len() == s.outstanding.len() - responses.len(),
{
    lemma_dispatch_all_keeps_answers(s, responses, k);
    let before = spec_dispatch_all(s, responses.take(k));
    lemma_dispatch_delivers(before, responses[k], responses[k]);
    lemma_dispatch_all_shrinks(s, responses, responses.len() as int);
    assert(responses.take(responses.len() as int) =~= responses);
}

/// Each response to an outstanding request takes one request out of the table.
proof fn lemma_dispatch_all_shrinks(s: SessionView, responses: Seq<ResponseView>, k: int)
    requires
        s.wf(),
        spec_answers_of(s, responses),
        0 <= k <= responses.len(),
    ensures
        spec_dispatch_all(s, responses.take(k)).outstanding.len() == s.outstanding.len() - k,
    decreases k,
{
    if k > 0 {
        lemma_dispatch_all_shrinks(s, responses, k - 1);
        lemma_dispatch_all_keeps_answers(s, responses, k - 1);
        let before = spec_dispatch_all(s, responses.take(k - 1));
        assert(responses.take(k).drop_last() =~= responses.take(k - 1));
        lemma_dispatch_delivers(before, responses[k - 1], responses[k - 1]);
    }
}

/// A request that has been given up does not stand in the way of a later verb:
/// the later verb's request is entered in the table, and its response is
/// delivered to it.
pub proof fn lemma_abandoned_request_does_not_block(
    s: SessionView,
    abandoned: u32,
    verb: Verb,
    response: ResponseView,
)
    requires
        s.wf(),
        s.connected,
        s.next_id < u32::MAX,
        spec_expected_response(verb) != LlrpMessageType::NoMessage,
        response.message_id == s.next_id,
        response.message_type == spec_expected_response(verb),
    ensures
        s.abandon(abandoned).wf(),
        !s.abandon(abandoned).is_outstanding(abandoned),
        s.abandon(abandoned).begin(verb).wf(),
        s.abandon(abandoned).begin(verb).dispatch(response).0 == Dispatch::Deliver,
{
    let a = s.abandon(abandoned);
    lemma_abandon_removes(s, abandoned);
    let b = a.begin(verb);
    assert(b.answered_by(response, a.outstanding.len() as int));
}

/// Giving up a request takes it out of the table, and nothing else.
pub proof fn lemma_abandon_removes(s: SessionView, message_id: u32)
    requires
        s.wf(),
    ensures
        s.abandon(message_id).wf(),
        !s.abandon(message_id).is_outstanding(message_id),
        s.abandon(message_id).next_id == s.next_id,
        s.abandon(message_id).connected == s.connected,
        s.abandon(message_id).outstanding.len() == s.outstanding.len() - (if s.is_outstanding(
            message_id,
        ) {
            1int
        } else {
            0int
        }),
        forall|other: u32|
            other != message_id ==> (s.abandon(message_id).is_outstanding(other)
                <==> s.is_outstanding(other)),
{
    let t = s.abandon(message_id);
    if s.is_outstanding(message_id) {
        let n = choose|n: int|
            0 <= n < s.outstanding.len() && (#[trigger] s.outstanding[n]).message_id == message_id;
        assert forall|other: u32| other != message_id implies (t.is_outstanding(other)
            <==> s.is_outstanding(other)) by {
            if s.is_outstanding(other) {
                let m = choose|m: int|
                    0 <= m < s.outstanding.len() && (#[trigger] s.outstanding[m]).message_id
                        == other;
                if m < n {
                    assert(t.outstanding[m].message_id == other);
                } else {
                    assert(t.outstanding[m - 1].message_id == other);
                }
            }
        }
    }
}

/// What happens in a session.
pub enum SessionEvent {
    /// A verb begins.
    Begin(Verb),
    /// A message comes in.
    Inbound(ResponseView),
    /// The request of this id is given up.
    Abandon(u32),
    /// The receive loop ends.
    Disconnect,
}

/// The state after an event.
pub open spec fn spec_after(s: SessionView, event: SessionEvent) -> SessionView {
    match event {
        SessionEvent::Begin(verb) => s.begin(verb),
        SessionEvent::Inbound(response) => s.dispatch(response).1,
        SessionEvent::Abandon(message_id) => s.abandon(message_id),
        SessionEvent::Disconnect => s.disconnect(),
    }
}

/// The number of waiters that the event makes: one where a verb that is
/// answered begins while the receive loop lives.
pub open spec fn spec_starts_waiters(s: SessionView, event: SessionEvent) -> int {
    match event {
        SessionEvent::Begin(verb) => if s.connected && spec_expected_response(verb)
            != LlrpMessageType::NoMessage {
            1
        } else {
            0
        },
        _ => 0,
    }
}

/// The number of waiters that the event ends: one where a response is
/// delivered or a request that was outstanding is given up, and all of them
/// where the receive loop ends.
pub open spec fn spec_ends_waiters(s: SessionView, event: SessionEvent) -> int {
    match event {
        SessionEvent::Begin(_) => 0,
        SessionEvent::Inbound(response) => if s.dispatch(response).0 == Dispatch::Deliver {
            1
        } else {
            0
        },
        SessionEvent::Abandon(message_id) => if s.is_outstanding(message_id) {
            1
        } else {
            0
        },
        SessionEvent::Disconnect => s.outstanding.len() as int,
    }
}

/// The state after the events of a list, in order.
pub open spec fn spec_after_all(s: SessionView, events: Seq<SessionEvent>) -> SessionView
    decreases events.len(),
{
    if events.len() == 0 {
        s
    } else {
        spec_after(spec_after_all(s, events.drop_last()), events.last())
    }
}

/// The waiters that the events of a list leave: those that they make, less
/// those that they end.
pub open spec fn spec_live_waiters(s: SessionView, events: Seq<SessionEvent>) -> int
    decreases events.len(),
{
    if events.len() == 0 {
        0
    } else {
        spec_live_waiters(s, events.drop_last()) + spec_starts_waiters(
            spec_after_all(s, events.drop_last()),
            events.last(),
        ) - spec_ends_waiters(spec_after_all(s, events.drop_last()), events.last())
    }
}

/// The table of outstanding requests holds one entry for each live waiter and no
/// other: whatever happens in a session, the table has grown by the waiters
/// that were made and have not ended.
pub proof fn lemma_outstanding_is_bounded_by_live_waiters(
    s: SessionView,
    events: Seq<SessionEvent>,
)
    requires
        s.wf(),
        s.next_id + events.len() <= u32::MAX,
    ensures
        spec_after_all(s, events).wf(),
        spec_after_all(s, events).next_id <= s.next_id + events.len(),
        spec_after_all(s, events).outstanding.len() == s.outstanding.len() + spec_live_waiters(
            s,
            events,
        ),
    decreases events.len(),
{
    if events.len() > 0 {
        lemma_outstanding_is_bounded_by_live_waiters(s, events.drop_last());
        let before = spec_after_all(s, events.drop_last());
        match events.last() {
            SessionEvent::Begin(verb) => {},
            SessionEvent::Inbound(response) => {
                lemma_dispatch_keeps_wf(before, response);
                if before.answers(response) {
                    lemma_dispatch_delivers(before, response, response);
                }
            },
            SessionEvent::Abandon(message_id) => {
                lemma_abandon_removes(before, message_id);
            },
            SessionEvent::Disconnect => {},
        }
    }
}

} // verus!
