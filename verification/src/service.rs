//! The snapshot service: which capabilities it answers, and the decisions of
//! one snapshot call.
//!
//! The call is a state machine. Its caller does the outside work (resolves
//! the ticket, runs the encoder, writes to the channel) and reports each
//! outcome as an [`Event`]; [`SnapshotCall::step`] answers with the next
//! [`Action`].

use vstd::prelude::*;
use vstd::string::StringExecFns;
use crate::batch::{BatchView, ColumnarBatch};
use crate::encode::{EncodingError, encoded};
use crate::model::{Entity, entity_views};
use crate::stream::{Message, MessageView, message_views, snapshot_messages, snapshot_stream};

verus! {

/// The entry points of the service surface.
#[derive(Debug, Clone, Copy, PartialEq, Eq, Structural)]
pub enum Capability {
    Handshake,
    ListFlights,
    GetFlightInfo,
    PollFlightInfo,
    GetSchema,
    DoGet,
    DoPut,
    DoExchange,
    DoAction,
    ListActions,
}

/// How a call ended, where it did not end well.
#[derive(Debug, Clone, Copy, PartialEq, Eq, Structural)]
pub enum StatusCode {
    /// The capability is not offered.
    Unimplemented,
    /// The call failed inside the service.
    Internal,
}

/// A status with its message.
#[derive(Debug, Clone, PartialEq, Eq)]
pub struct Status {
    pub code: StatusCode,
    pub message: String,
}

impl Capability {
    /// Only the snapshot stream is offered.
    pub open spec fn is_supported(self) -> bool {
        self == Capability::DoGet
    }

    /// The name of the entry point.
    pub open spec fn name_text(self) -> Seq<char> {
        match self {
            Capability::Handshake => "handshake"@,
            Capability::ListFlights => "list_flights"@,
            Capability::GetFlightInfo => "get_flight_info"@,
            Capability::PollFlightInfo => "poll_flight_info"@,
            Capability::GetSchema => "get_schema"@,
            Capability::DoGet => "do_get"@,
            Capability::DoPut => "do_put"@,
            Capability::DoExchange => "do_exchange"@,
            Capability::DoAction => "do_action"@,
            Capability::ListActions => "list_actions"@,
        }
    }

    /// The name of the entry point.
    pub fn name(self) -> (name: &'static str)
        ensures
            name@ == self.name_text(),
    {
        match self {
            Capability::Handshake => "handshake",
            Capability::ListFlights => "list_flights",
            Capability::GetFlightInfo => "get_flight_info",
            Capability::PollFlightInfo => "poll_flight_info",
            Capability::GetSchema => "get_schema",
            Capability::DoGet => "do_get",
            Capability::DoPut => "do_put",
            Capability::DoExchange => "do_exchange",
            Capability::DoAction => "do_action",
            Capability::ListActions => "list_actions",
        }
    }

    /// The answer to a call of an entry point that is not offered: the
    /// status `Unimplemented`, with the entry point's name in the message.
    /// `None` for the snapshot stream, which is offered.
    pub fn rejection(self) -> (status: Option<Status>)
        ensures
            status is None <==> self.is_supported(),
            status matches Some(s) ==> {
                &&& s.code == StatusCode::Unimplemented
                &&& s.message@ == self.name_text() + " not implemented"@
            },
    {
        match self {
            Capability::DoGet => None,
            _ => {
                let mut message = String::from_str(self.name());
                message.append(" not implemented");
                Some(Status { code: StatusCode::Unimplemented, message })
            },
        }
    }
}

/// The status of a call whose entities could not be encoded.
pub open spec fn encoding_failure_text() -> Seq<char> {
    "the entities could not be encoded"@
}

/// What a snapshot call hands out for an outcome of the encoder: the stream
/// of the batch, or the status `Internal` where the encoder failed or the
/// columns of the batch differ in length.
pub fn snapshot_from(outcome: Result<ColumnarBatch, EncodingError>, max_rows: usize) -> (r: Result<Vec<Message>, Status>)
    ensures
        match outcome {
            Ok(batch) if batch.wf() => r matches Ok(messages) && message_views(messages@)
                == snapshot_stream(batch@, max_rows as int),
            _ => r matches Err(status) && status.code == StatusCode::Internal && status.message@
                == encoding_failure_text(),
        },
{
    match outcome {
        Ok(batch) => {
            if batch.is_well_formed() {
                Ok(snapshot_messages(batch, max_rows))
            } else {
                Err(
                    Status {
                        code: StatusCode::Internal,
                        message: String::from_str("the entities could not be encoded"),
                    },
                )
            }
        },
        Err(_) => Err(
            Status {
                code: StatusCode::Internal,
                message: String::from_str("the entities could not be encoded"),
            },
        ),
    }
}

/// The whole stream of a snapshot of `entities`: the layout, then the rows
/// in input order, in runs of at most `max_rows` rows (zero: no limit).
///
/// Every input has its stream: the result is always `Ok`.
pub fn snapshot(entities: &[Entity], max_rows: usize) -> (r: Result<Vec<Message>, Status>)
    ensures
        r matches Ok(messages) && message_views(messages@) == snapshot_stream(
            encoded(entity_views(entities@)),
            max_rows as int,
        ),
{
    snapshot_from(Entity::to_record_batch(entities), max_rows)
}

/// Where a snapshot call stands.
#[derive(Debug, Clone, Copy, PartialEq, Eq, Structural)]
pub enum CallState {
    /// The ticket has not arrived yet.
    Received,
    /// The ticket is being resolved to entities.
    Resolving,
    /// The entities are being encoded.
    Encoding,
    /// Messages are being written to the channel.
    Streaming,
    /// Every message was written and the channel is closed.
    Completed,
    /// The call ended without a complete stream.
    Failed,
}

impl CallState {
    /// A call in a terminal state does nothing more.
    pub open spec fn is_terminal(self) -> bool {
        self == CallState::Completed || self == CallState::Failed
    }
}

/// What the caller reports to the call.
#[derive(Debug, PartialEq, Eq)]
pub enum Event {
    /// The ticket arrived.
    Ticket,
    /// The ticket was resolved to entities.
    Resolved,
    /// The encoder returned.
    Encoded(Result<ColumnarBatch, EncodingError>),
    /// The channel took the message that was last handed to it.
    Sent,
    /// The client is gone, or the call was cancelled.
    Disconnected,
}

/// What an [`Event`] is, mathematically.
pub enum EventView {
    Ticket,
    Resolved,
    Encoded(Result<BatchView, EncodingError>),
    Sent,
    Disconnected,
}

impl View for Event {
    type V = EventView;

    open spec fn view(&self) -> EventView {
        match self {
            Event::Ticket => EventView::Ticket,
            Event::Resolved => EventView::Resolved,
            Event::Encoded(Ok(batch)) => EventView::Encoded(Ok(batch@)),
            Event::Encoded(Err(e)) => EventView::Encoded(Err(*e)),
            Event::Sent => EventView::Sent,
            Event::Disconnected => EventView::Disconnected,
        }
    }
}

/// What the caller is to do next.
#[derive(Debug, Clone, Copy, PartialEq, Eq, Structural)]
pub enum Action {
    /// Resolve the ticket to entities, then report `Resolved`.
    Resolve,
    /// Run the encoder on the entities, then report `Encoded`.
    Encode,
    /// Write the message with this index to the channel, waiting while the
    /// channel is full, then report `Sent`.
    Send(usize),
    /// Close the channel: the stream is complete.
    Close,
    /// End the call with this status.
    Fail(StatusCode),
    /// Drop the channel and write nothing more.
    Release,
    /// Nothing to do: the event does not belong to the state.
    Ignore,
}

/// One snapshot call: its state, the messages of its stream while it streams,
/// and the index of the message that is being written.
#[derive(Debug, Clone, PartialEq, Eq)]
pub struct SnapshotCall {
    pub state: CallState,
    pub messages: Vec<Message>,
    pub cursor: usize,
    pub max_rows: usize,
}

/// What a [`SnapshotCall`] is, mathematically.
pub struct CallView {
    pub state: CallState,
    pub messages: Seq<MessageView>,
    pub cursor: int,
    pub max_rows: int,
}

impl CallView {
    /// While the call streams, the cursor points at one of its messages;
    /// otherwise it holds no message.
    pub open spec fn wf(self) -> bool {
        &&& self.max_rows >= 0
        &&& self.state == CallState::Streaming ==> 0 <= self.cursor < self.messages.len()
        &&& self.state != CallState::Streaming ==> self.cursor == 0 && self.messages.len() == 0
    }

    /// The call in another state, with no message held.
    pub open spec fn moved_to(self, state: CallState) -> CallView {
        CallView { state, messages: Seq::empty(), cursor: 0, max_rows: self.max_rows }
    }
}

impl View for SnapshotCall {
    type V = CallView;

    open spec fn view(&self) -> CallView {
        CallView {
            state: self.state,
            messages: message_views(self.messages@),
            cursor: self.cursor as int,
            max_rows: self.max_rows as int,
        }
    }
}

/// The transition of a call: the state after `event`, and the action that
/// answers it.
///
/// A call goes from `Received` through `Resolving` and `Encoding` to
/// `Streaming`, where it sends its messages in the order of the stream, one
/// after each `Sent`, and completes after the last. A failed encoding, or a
/// batch whose columns differ in length, fails the call with `Internal`.
/// `Disconnected` ends a call that has not ended. Every other pair of state
/// and event changes nothing.
pub open spec fn transition(call: CallView, event: EventView) -> (CallView, Action) {
    match (call.state, event) {
        (CallState::Received, EventView::Ticket) => (
            call.moved_to(CallState::Resolving),
            Action::Resolve,
        ),
        (CallState::Resolving, EventView::Resolved) => (
            call.moved_to(CallState::Encoding),
            Action::Encode,
        ),
        (CallState::Encoding, EventView::Encoded(Ok(batch))) => if batch.wf() {
            (
                CallView {
                    state: CallState::Streaming,
                    messages: snapshot_stream(batch, call.max_rows),
                    cursor: 0,
                    max_rows: call.max_rows,
                },
                Action::Send(0),
            )
        } else {
            (call.moved_to(CallState::Failed), Action::Fail(StatusCode::Internal))
        },
        (CallState::Encoding, EventView::Encoded(Err(_))) => (
            call.moved_to(CallState::Failed),
            Action::Fail(StatusCode::Internal),
        ),
        (CallState::Streaming, EventView::Sent) => if call.cursor + 1 < call.messages.len() {
            (
                CallView { cursor: call.cursor + 1, ..call },
                Action::Send((call.cursor + 1) as usize),
            )
        } else {
            (call.moved_to(CallState::Completed), Action::Close)
        },
        (_, EventView::Disconnected) => if call.state.is_terminal() {
            (call, Action::Ignore)
        } else {
            (call.moved_to(CallState::Failed), Action::Release)
        },
        _ => (call, Action::Ignore),
    }
}

impl SnapshotCall {
    /// See [`CallView::wf`].
    pub open spec fn wf(&self) -> bool {
        self@.wf()
    }

    /// A call whose ticket has not arrived, with the limit on the rows of
    /// one data message (zero: no limit).
    pub fn new(max_rows: usize) -> (call: SnapshotCall)
        ensures
            call@ == (CallView {
                state: CallState::Received,
                messages: Seq::empty(),
                cursor: 0,
                max_rows: max_rows as int,
            }),
            call.wf(),
    {
        let call = SnapshotCall { state: CallState::Received, messages: Vec::new(), cursor: 0, max_rows };
        assert(call@.messages =~= Seq::empty());
        call
    }

    /// Whether the call is well-formed.
    pub fn is_well_formed(&self) -> (ok: bool)
        ensures
            ok == self.wf(),
    {
        match self.state {
            CallState::Streaming => self.cursor < self.messages.len(),
            _ => self.cursor == 0 && self.messages.len() == 0,
        }
    }

    /// The state of the call.
    pub fn state(&self) -> (state: CallState)
        ensures
            state == self@.state,
    {
        self.state
    }

    /// The message with this index, while the call streams.
    pub fn message(&self, index: usize) -> (message: Option<&Message>)
        ensures
            index < self.messages@.len() ==> message == Some(&self.messages@[index as int]),
            index >= self.messages@.len() ==> message is None,
    {
        if index < self.messages.len() {
            Some(&self.messages[index])
        } else {
            None
        }
    }

    /// Puts the call into `state` and drops its messages.
    fn move_to(&mut self, state: CallState)
        ensures
            final(self)@ == old(self)@.moved_to(state),
    {
        self.state = state;
        self.messages = Vec::new();
        self.cursor = 0;
        assert(self@.messages =~= Seq::empty());
    }

    /// Takes one event and decides what comes next, as [`transition`] says.
    pub fn step(&mut self, event: Event) -> (action: Action)
        requires
            old(self).wf(),
        ensures
            (final(self)@, action) == transition(old(self)@, event@),
            final(self).wf(),
    {
        match (self.state, event) {
            (CallState::Received, Event::Ticket) => {
                self.move_to(CallState::Resolving);
                Action::Resolve
            },
            (CallState::Resolving, Event::Resolved) => {
                self.move_to(CallState::Encoding);
                Action::Encode
            },
            (CallState::Encoding, Event::Encoded(Ok(batch))) => {
                if batch.is_well_formed() {
                    proof {
                        crate::stream::stream_starts_with_schema(batch@, self.max_rows as int);
                    }
                    self.messages = snapshot_messages(batch, self.max_rows);
                    self.state = CallState::Streaming;
                    self.cursor = 0;
                    Action::Send(0)
                } else {
                    self.move_to(CallState::Failed);
                    Action::Fail(StatusCode::Internal)
                }
            },
            (CallState::Encoding, Event::Encoded(Err(_))) => {
                self.move_to(CallState::Failed);
                Action::Fail(StatusCode::Internal)
            },
            (CallState::Streaming, Event::Sent) => {
                let count = self.messages.len();
                if self.cursor + 1 < count {
                    self.cursor = self.cursor + 1;
                    Action::Send(self.cursor)
                } else {
                    self.move_to(CallState::Completed);
                    Action::Close
                }
            },
            (state, Event::Disconnected) => {
                match state {
                    CallState::Completed | CallState::Failed => Action::Ignore,
                    _ => {
                        self.move_to(CallState::Failed);
                        Action::Release
                    },
                }
            },
            _ => Action::Ignore,
        }
    }
}

/// A call that has ended stays as it is and asks for nothing, whatever is
/// reported to it: no message is sent after the end.
pub proof fn ended_call_sends_nothing(call: CallView, event: EventView)
    requires
        call.wf(),
        call.state.is_terminal(),
    ensures
        transition(call, event) == (call, Action::Ignore),
{
}

/// When the client disconnects, a call that has not ended fails at once: it
/// drops its messages and its channel, and sends nothing from then on.
pub proof fn disconnect_ends_call(call: CallView, later: EventView)
    requires
        call.wf(),
        !call.state.is_terminal(),
    ensures
        transition(call, EventView::Disconnected) == (call.moved_to(CallState::Failed), Action::Release),
        call.moved_to(CallState::Failed).wf(),
        transition(call.moved_to(CallState::Failed), later).1 == Action::Ignore,
{
}

/// Messages leave in the order of the stream: the layout is sent first, and
/// each `Sent` is answered with the next index until the last message is
/// out; then the channel is closed.
pub proof fn messages_leave_in_order(call: CallView, batch: BatchView)
    requires
        call.wf(),
    ensures
        call.state == CallState::Encoding && batch.wf() ==> {
            &&& transition(call, EventView::Encoded(Ok(batch))).1 == Action::Send(0)
            &&& transition(call, EventView::Encoded(Ok(batch))).0.messages[0]
                == MessageView::Schema(crate::schema::standard_schema())
            &&& transition(call, EventView::Encoded(Ok(batch))).0.wf()
        },
        call.state == CallState::Streaming && call.cursor + 1 < call.messages.len() ==>
            transition(call, EventView::Sent).1 == Action::Send((call.cursor + 1) as usize),
        call.state == CallState::Streaming && call.cursor + 1 == call.messages.len() ==>
            transition(call, EventView::Sent) == (call.moved_to(CallState::Completed), Action::Close),
{
    if call.state == CallState::Encoding && batch.wf() {
        crate::stream::stream_starts_with_schema(batch, call.max_rows);
    }
}

} // verus!
