//! The datagram transport: one local socket, and one remote endpoint that
//! every datagram goes to and that alone is listened to.

use crate::endpoint::Endpoint;
use crate::error::Error;
use crate::message::{default_message, message_view, MessageView};
use crate::wire::{
    decode, decode_spec, encodable, encode, frame_of, survives_the_wire, CodecError, Decoded,
    DecodedView,
};
use repomon::Message;
use vstd::prelude::*;

verus! {

/// The codec of the datagram transport. The payload of one datagram is
/// one frame.
pub struct Bytes;

/// The message that the payload of an accepted datagram stands for: the
/// message in it, the placeholder where the codec cannot read it, and
/// none where the payload is empty.
pub open spec fn payload_message(payload: Seq<u8>) -> Option<MessageView> {
    match decode_spec(payload) {
        DecodedView::Nothing => None,
        DecodedView::Message(message) => Some(message),
        DecodedView::Malformed => Some(MessageView::placeholder()),
    }
}

/// The view of a message that may be there.
pub open spec fn message_option_view(message: Option<Message>) -> Option<MessageView> {
    match message {
        Some(m) => Some(message_view(m)),
        None => None,
    }
}

impl Bytes {
    /// Decodes the payload of a datagram that came from `addr`. The
    /// address is handed back with the message. A payload that the codec
    /// cannot read gives the placeholder message, an empty payload none.
    pub fn decode(&mut self, addr: &Endpoint, buf: &[u8]) -> (received: (Endpoint, Option<Message>))
        ensures
            received.0 == *addr,
            message_option_view(received.1) == payload_message(buf@),
    {
        match decode(buf) {
            Decoded::Nothing => (*addr, None),
            Decoded::Message(message) => (*addr, Some(message)),
            Decoded::Malformed(_) => (*addr, Some(default_message())),
        }
    }

    /// Puts the frame of the message behind what `into` holds, and hands
    /// back the address that the datagram goes to. Where the message has
    /// no frame, `into` stays as it is and the failure comes back too.
    pub fn encode(&mut self, out: (Endpoint, Message), into: &mut Vec<u8>) -> (sent: (
        Endpoint,
        Option<CodecError>,
    ))
        ensures
            final(into)@ == old(into)@ + frame_of(message_view(out.1)),
            sent.0 == out.0,
            sent.1 is None <==> encodable(message_view(out.1)),
    {
        let mut frame = encode(&out.1);
        into.append(&mut frame.bytes);
        (out.0, frame.failure)
    }
}

/// A frame with the endpoint that it goes to or came from.
#[derive(Debug)]
pub struct Envelope {
    /// The other end: the destination of a datagram that is sent, the
    /// source of one that was received.
    pub peer: Endpoint,
    /// The payload.
    pub frame: Vec<u8>,
}

/// An envelope as a mathematical value.
pub ghost struct EnvelopeView {
    pub peer: Endpoint,
    pub frame: Seq<u8>,
}

impl View for Envelope {
    type V = EnvelopeView;

    open spec fn view(&self) -> EnvelopeView {
        EnvelopeView { peer: self.peer, frame: self.frame@ }
    }
}

/// Where a datagram session stands.
#[derive(Clone, Copy, Debug, PartialEq, Eq, Structural)]
pub enum State {
    /// The socket is bound. Receiving goes on until the session closes;
    /// forwarding goes on while `forwarding` holds.
    Open { forwarding: bool },
    /// The session is over, for good.
    Closed,
}

/// What happened on the socket or on the input queue.
#[derive(Debug)]
pub enum Event {
    /// The input bridge handed over a message to send.
    Outgoing(Message),
    /// The input bridge closed its queue.
    InputClosed,
    /// Sending a datagram failed.
    WriteFailed,
    /// A datagram arrived.
    Incoming(Envelope),
    /// The local socket was closed.
    SocketClosed,
    /// Receiving failed.
    ReadFailed,
}

/// What is to be done next.
#[derive(Debug)]
pub enum Action {
    /// Nothing.
    Idle,
    /// Send this datagram. Where the message had no frame, the payload
    /// is empty and there is a failure to log.
    Send { envelope: Envelope, failure: Option<CodecError> },
    /// Hand this message to the forwarding driver.
    Deliver(Message),
    /// Close the socket; the session ended this way.
    Close(Result<(), Error>),
}

/// An event as a mathematical value.
pub ghost enum EventView {
    Outgoing(MessageView),
    InputClosed,
    WriteFailed,
    Incoming(EnvelopeView),
    SocketClosed,
    ReadFailed,
}

/// An action as a mathematical value.
pub ghost enum ActionView {
    Idle,
    Send { envelope: EnvelopeView, failed: bool },
    Deliver(MessageView),
    Close(Result<(), Error>),
}

impl View for Event {
    type V = EventView;

    open spec fn view(&self) -> EventView {
        match self {
            Event::Outgoing(message) => EventView::Outgoing(message_view(*message)),
            Event::InputClosed => EventView::InputClosed,
            Event::WriteFailed => EventView::WriteFailed,
            Event::Incoming(envelope) => EventView::Incoming(envelope@),
            Event::SocketClosed => EventView::SocketClosed,
            Event::ReadFailed => EventView::ReadFailed,
        }
    }
}

impl View for Action {
    type V = ActionView;

    open spec fn view(&self) -> ActionView {
        match self {
            Action::Idle => ActionView::Idle,
            Action::Send { envelope, failure } => ActionView::Send {
                envelope: envelope@,
                failed: failure is Some,
            },
            Action::Deliver(message) => ActionView::Deliver(message_view(*message)),
            Action::Close(outcome) => ActionView::Close(*outcome),
        }
    }
}

/// What one datagram that arrived leads to, for a session with `remote`:
/// nothing at all unless it came from `remote`, and then the message of
/// its payload.
pub open spec fn received(remote: Endpoint, envelope: EnvelopeView) -> ActionView {
    if envelope.peer == remote {
        match payload_message(envelope.frame) {
            Some(message) => ActionView::Deliver(message),
            None => ActionView::Idle,
        }
    } else {
        ActionView::Idle
    }
}

/// The next state and the action, for a session with `remote`, a state
/// and an event.
///
/// An open session sends what the input bridge hands over to `remote`,
/// for as long as the bridge's queue is open, and takes in the datagrams
/// that come from `remote`. It closes cleanly when the socket is closed,
/// and with an error when receiving or sending fails. A closed session
/// does nothing.
pub open spec fn step_spec(remote: Endpoint, state: State, event: EventView) -> (State, ActionView) {
    match state {
        State::Open { forwarding } => match event {
            EventView::Outgoing(message) => if forwarding {
                (
                    state,
                    ActionView::Send {
                        envelope: EnvelopeView { peer: remote, frame: frame_of(message) },
                        failed: !encodable(message),
                    },
                )
            } else {
                (state, ActionView::Idle)
            },
            EventView::InputClosed => (State::Open { forwarding: false }, ActionView::Idle),
            EventView::WriteFailed => (State::Closed, ActionView::Close(Err(Error::WriteFailure))),
            EventView::Incoming(envelope) => (state, received(remote, envelope)),
            EventView::SocketClosed => (State::Closed, ActionView::Close(Ok(()))),
            EventView::ReadFailed => (State::Closed, ActionView::Close(Err(Error::ReadFailure))),
        },
        State::Closed => (state, ActionView::Idle),
    }
}

/// A session of the datagram transport with one remote endpoint.
#[derive(Debug)]
pub struct Datagram {
    remote: Endpoint,
    state: State,
}

impl Datagram {
    /// The endpoint that the session talks to.
    pub closed spec fn spec_remote(&self) -> Endpoint {
        self.remote
    }

    /// Where the session stands.
    pub closed spec fn spec_state(&self) -> State {
        self.state
    }

    /// The endpoint that the session talks to.
    #[verifier::when_used_as_spec(spec_remote)]
    pub fn remote(&self) -> (remote: Endpoint)
        ensures
            remote == self.spec_remote(),
    {
        self.remote
    }

    /// Where the session stands.
    #[verifier::when_used_as_spec(spec_state)]
    pub fn state(&self) -> (state: State)
        ensures
            state == self.spec_state(),
    {
        self.state
    }

    /// The local endpoint to bind the socket to: any address and any
    /// port, in the family of the remote endpoint.
    pub fn local(&self) -> (local: Endpoint)
        ensures
            local == Endpoint::unspecified(self.spec_remote().spec_family()),
    {
        self.remote.bind_address()
    }

    /// Whether a datagram from `source` is taken in: only the remote
    /// endpoint is listened to.
    pub fn accepts(&self, source: &Endpoint) -> (accepted: bool)
        ensures
            accepted == (*source == self.spec_remote()),
    {
        *source == self.remote
    }

    /// Takes one event: moves to the next state and says what to do.
    pub fn step(&mut self, event: Event) -> (action: Action)
        ensures
            final(self).spec_remote() == old(self).spec_remote(),
            (final(self).spec_state(), action@) == step_spec(
                old(self).spec_remote(),
                old(self).spec_state(),
                event@,
            ),
    {
        match self.state {
            State::Open { forwarding } => match event {
                Event::Outgoing(message) => {
                    if forwarding {
                        let mut codec = Bytes;
                        let mut frame: Vec<u8> = Vec::new();
                        let sent = codec.encode((self.remote, message), &mut frame);
                        assert(frame@ =~= frame_of(message_view(message)));
                        Action::Send {
                            envelope: Envelope { peer: sent.0, frame },
                            failure: sent.1,
                        }
                    } else {
                        Action::Idle
                    }
                },
                Event::InputClosed => {
                    self.state = State::Open { forwarding: false };
                    Action::Idle
                },
                Event::WriteFailed => {
                    self.state = State::Closed;
                    Action::Close(Err(Error::WriteFailure))
                },
                Event::Incoming(envelope) => {
                    if self.accepts(&envelope.peer) {
                        let mut codec = Bytes;
                        let received = codec.decode(&envelope.peer, envelope.frame.as_slice());
                        match received.1 {
                            Some(message) => Action::Deliver(message),
                            None => Action::Idle,
                        }
                    } else {
                        Action::Idle
                    }
                },
                Event::SocketClosed => {
                    self.state = State::Closed;
                    Action::Close(Ok(()))
                },
                Event::ReadFailed => {
                    self.state = State::Closed;
                    Action::Close(Err(Error::ReadFailure))
                },
            },
            State::Closed => Action::Idle,
        }
    }
}

/// Opens a session of the datagram transport with the given endpoint. The
/// caller binds a socket to the session's local endpoint.
pub fn connect(addr: &Endpoint) -> (datagram: Datagram)
    ensures
        datagram.spec_remote() == *addr,
        datagram.spec_state() == (State::Open { forwarding: true }),
{
    Datagram { remote: *addr, state: State::Open { forwarding: true } }
}

/// The state of a session after a run of events.
pub open spec fn state_after(remote: Endpoint, state: State, events: Seq<EventView>) -> State
    decreases events.len(),
{
    if events.len() == 0 {
        state
    } else {
        state_after(remote, step_spec(remote, state, events.first()).0, events.drop_first())
    }
}

/// The messages that a session hands to the forwarding driver over a run
/// of events, first delivered first.
pub open spec fn delivered(remote: Endpoint, state: State, events: Seq<EventView>) -> Seq<
    MessageView,
>
    decreases events.len(),
{
    if events.len() == 0 {
        Seq::empty()
    } else {
        let (next, action) = step_spec(remote, state, events.first());
        let later = delivered(remote, next, events.drop_first());
        match action {
            ActionView::Deliver(message) => seq![message] + later,
            _ => later,
        }
    }
}

/// The datagrams that a session sends over a run of events, first sent
/// first.
pub open spec fn sent(remote: Endpoint, state: State, events: Seq<EventView>) -> Seq<EnvelopeView>
    decreases events.len(),
{
    if events.len() == 0 {
        Seq::empty()
    } else {
        let (next, action) = step_spec(remote, state, events.first());
        let later = sent(remote, next, events.drop_first());
        match action {
            ActionView::Send { envelope, .. } => seq![envelope] + later,
            _ => later,
        }
    }
}

/// The datagrams for the messages that the input bridge hands over in a
/// run of events before it closes its queue, in the order of handing
/// over: each holds the frame of its message and goes to `remote`. With
/// `forwarding` false the queue counts as closed from the start.
pub open spec fn outbound(remote: Endpoint, forwarding: bool, events: Seq<EventView>) -> Seq<
    EnvelopeView,
>
    decreases events.len(),
{
    if events.len() == 0 {
        Seq::empty()
    } else {
        match events.first() {
            EventView::Outgoing(message) => if forwarding {
                seq![EnvelopeView { peer: remote, frame: frame_of(message) }] + outbound(
                    remote,
                    forwarding,
                    events.drop_first(),
                )
            } else {
                outbound(remote, forwarding, events.drop_first())
            },
            EventView::InputClosed => outbound(remote, false, events.drop_first()),
            _ => outbound(remote, forwarding, events.drop_first()),
        }
    }
}

/// The messages of the datagrams in a run of events that come from
/// `remote`, in the order of arrival.
pub open spec fn heard(remote: Endpoint, events: Seq<EventView>) -> Seq<MessageView>
    decreases events.len(),
{
    if events.len() == 0 {
        Seq::empty()
    } else {
        let later = heard(remote, events.drop_first());
        match events.first() {
            EventView::Incoming(envelope) => if envelope.peer == remote {
                match payload_message(envelope.frame) {
                    Some(message) => seq![message] + later,
                    None => later,
                }
            } else {
                later
            },
            _ => later,
        }
    }
}

/// Whether an event leaves an open session open.
pub open spec fn keeps_open(event: EventView) -> bool {
    !(event is WriteFailed || event is SocketClosed || event is ReadFailed)
}

/// Whether an event is a datagram from `remote`.
pub open spec fn comes_from(remote: Endpoint, event: EventView) -> bool {
    event matches EventView::Incoming(envelope) && envelope.peer == remote
}

/// A datagram from any other endpoint than the remote one changes
/// nothing and reaches nobody, whatever its payload.
pub proof fn lemma_foreign_datagram_is_dropped(
    remote: Endpoint,
    state: State,
    envelope: EnvelopeView,
)
    requires
        envelope.peer != remote,
    ensures
        step_spec(remote, state, EventView::Incoming(envelope)) == (state, ActionView::Idle),
{
}

/// Over any run of events in which no datagram comes from the remote
/// endpoint, the driver gets no message.
pub proof fn lemma_only_the_remote_is_heard(remote: Endpoint, state: State, events: Seq<EventView>)
    requires
        forall|i: int| 0 <= i < events.len() ==> !comes_from(remote, #[trigger] events[i]),
    ensures
        delivered(remote, state, events) == Seq::<MessageView>::empty(),
    decreases events.len(),
{
    if events.len() > 0 {
        let rest = events.drop_first();
        assert(!comes_from(remote, events[0]));
        assert forall|i: int| 0 <= i < rest.len() implies !comes_from(
            remote,
            #[trigger] rest[i],
        ) by {
            assert(rest[i] == events[i + 1]);
        }
        lemma_only_the_remote_is_heard(remote, step_spec(remote, state, events.first()).0, rest);
    }
}

/// While the socket is open, the driver gets the messages of the
/// datagrams from the remote endpoint in the order of their arrival, and
/// the datagrams go out in the order in which the input bridge handed the
/// messages over; neither direction changes the other.
pub proof fn lemma_keeps_the_order(remote: Endpoint, forwarding: bool, events: Seq<EventView>)
    requires
        forall|i: int| 0 <= i < events.len() ==> keeps_open(#[trigger] events[i]),
    ensures
        delivered(remote, State::Open { forwarding }, events) == heard(remote, events),
        sent(remote, State::Open { forwarding }, events) == outbound(remote, forwarding, events),
        state_after(remote, State::Open { forwarding }, events) is Open,
    decreases events.len(),
{
    if events.len() > 0 {
        let state = State::Open { forwarding };
        let rest = events.drop_first();
        assert(keeps_open(events[0]));
        assert forall|i: int| 0 <= i < rest.len() implies keeps_open(#[trigger] rest[i]) by {
            assert(rest[i] == events[i + 1]);
        }
        let next = step_spec(remote, state, events.first()).0;
        assert(next is Open);
        lemma_keeps_the_order(remote, next->forwarding, rest);
    }
}

/// A closed session stays closed and delivers nothing, whatever comes.
pub proof fn lemma_closed_is_final(remote: Endpoint, events: Seq<EventView>)
    ensures
        state_after(remote, State::Closed, events) == State::Closed,
        delivered(remote, State::Closed, events) == Seq::<MessageView>::empty(),
        sent(remote, State::Closed, events) == Seq::<EnvelopeView>::empty(),
    decreases events.len(),
{
    if events.len() > 0 {
        lemma_closed_is_final(remote, events.drop_first());
    }
}

/// No datagram that arrives closes the session: a payload that the codec
/// cannot read stands for the placeholder message, an empty one for none.
pub proof fn lemma_datagram_is_not_fatal(remote: Endpoint, state: State, envelope: EnvelopeView)
    ensures
        step_spec(remote, state, EventView::Incoming(envelope)).0 == state,
        !(step_spec(remote, state, EventView::Incoming(envelope)).1 is Close),
        envelope.frame.len() == 0 ==> step_spec(remote, state, EventView::Incoming(envelope)).1
            is Idle,
{
}

/// The datagram that a session sends for a message goes to the remote
/// endpoint, and the same payload coming from the remote endpoint is
/// taken in as that message, for every message that the wire format
/// gives back from its own bytes.
pub proof fn lemma_sent_datagram_is_delivered(
    remote: Endpoint,
    message: MessageView,
    forwarding: bool,
)
    requires
        survives_the_wire(message),
    ensures
        step_spec(remote, State::Open { forwarding: true }, EventView::Outgoing(message)).1 == (
        ActionView::Send {
            envelope: EnvelopeView { peer: remote, frame: frame_of(message) },
            failed: false,
        }),
        step_spec(
            remote,
            State::Open { forwarding },
            EventView::Incoming(EnvelopeView { peer: remote, frame: frame_of(message) }),
        ).1 == ActionView::Deliver(message),
{
}

} // verus!
