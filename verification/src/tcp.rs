//! The stream transport: one connection to the remote endpoint, with the
//! wire codec on both of its halves.

use crate::buffer::{buffered, extend};
use crate::endpoint::Endpoint;
use crate::error::Error;
use crate::message::{message_view, MessageView};
use crate::wire::{
    decode, decode_spec, encodable, encode, frame_of, survives_the_wire, CodecError, Decoded,
    DecodedView,
};
use bytes::BytesMut;
use repomon::Message;
use vstd::prelude::*;

verus! {

/// The codec of the stream transport. Whatever one read has put in the
/// buffer is one frame.
pub struct Bytes;

/// Whether a frame can be put behind what a buffer holds.
pub open spec fn fits(held: Seq<u8>, frame: Seq<u8>) -> bool {
    held.len() + frame.len() <= usize::MAX
}

/// What a buffer holds after a message was encoded into it.
pub open spec fn appended(held: Seq<u8>, message: MessageView) -> Seq<u8> {
    if fits(held, frame_of(message)) {
        held + frame_of(message)
    } else {
        held
    }
}

impl Bytes {
    /// Takes everything out of the buffer and decodes it as one frame.
    /// The buffer is empty afterwards, whatever it held.
    pub fn decode(&mut self, buf: &mut BytesMut) -> (decoded: Decoded)
        ensures
            buffered(*final(buf)) == Seq::<u8>::empty(),
            decoded@ == decode_spec(buffered(*old(buf))),
    {
        if buf.is_empty() {
            Decoded::Nothing
        } else {
            let len = buf.len();
            let bytes = buf.split_to(len);
            assert(buffered(bytes) =~= buffered(*old(buf)));
            assert(buffered(*buf) =~= Seq::<u8>::empty());
            decode(bytes.as_ref())
        }
    }

    /// Puts the frame of the message behind what the buffer holds. Where
    /// the message has no frame, or the frame does not fit, the buffer
    /// stays as it is and the failure is handed back for the caller to
    /// log. No frame is longer than a buffer can be.
    pub fn encode(&mut self, data: Message, buf: &mut BytesMut) -> (failure: Option<CodecError>)
        ensures
            buffered(*final(buf)) == appended(buffered(*old(buf)), message_view(data)),
            failure is None <==> encodable(message_view(data)) && fits(
                buffered(*old(buf)),
                frame_of(message_view(data)),
            ),
            frame_of(message_view(data)).len() <= usize::MAX,
    {
        let frame = encode(&data);
        match frame.failure {
            Some(error) => Some(error),
            None => {
                if frame.bytes.len() <= usize::MAX - buf.len() {
                    extend(buf, &frame.bytes);
                    None
                } else {
                    Some(CodecError { report: "frame does not fit the buffer".to_string() })
                }
            },
        }
    }
}

/// Where a stream session stands.
#[derive(Clone, Copy, Debug, PartialEq, Eq, Structural)]
pub enum State {
    /// The connection has been asked for and is not there yet.
    Connecting,
    /// The connection stands. Receiving goes on until the session closes;
    /// forwarding goes on while `forwarding` holds.
    Connected { forwarding: bool },
    /// The session is over, for good.
    Closed,
}

/// What happened on the connection or on the input queue.
#[derive(Debug)]
pub enum Event {
    /// The connection was made.
    Connected,
    /// The connection could not be made.
    ConnectFailed,
    /// The input bridge handed over a message to send.
    Outgoing(Message),
    /// The input bridge closed its queue.
    InputClosed,
    /// A write to the connection failed.
    WriteFailed,
    /// One read from the connection gave these bytes.
    Incoming(BytesMut),
    /// The remote closed the connection.
    PeerClosed,
    /// A read from the connection failed.
    ReadFailed,
}

/// What is to be done next.
#[derive(Debug)]
pub enum Action {
    /// Nothing.
    Idle,
    /// Write this frame to the connection. Where the message had no
    /// frame, there is nothing to write and a failure to log.
    Send { frame: BytesMut, failure: Option<CodecError> },
    /// Hand this message to the forwarding driver.
    Deliver(Message),
    /// Report this failure on the diagnostic channel.
    Report(CodecError),
    /// Shut both directions; the session ended this way.
    Close(Result<(), Error>),
}

/// An event as a mathematical value.
pub ghost enum EventView {
    Connected,
    ConnectFailed,
    Outgoing(MessageView),
    InputClosed,
    WriteFailed,
    Incoming(Seq<u8>),
    PeerClosed,
    ReadFailed,
}

/// An action as a mathematical value.
pub ghost enum ActionView {
    Idle,
    Send { frame: Seq<u8>, failed: bool },
    Deliver(MessageView),
    Report,
    Close(Result<(), Error>),
}

impl View for Event {
    type V = EventView;

    open spec fn view(&self) -> EventView {
        match self {
            Event::Connected => EventView::Connected,
            Event::ConnectFailed => EventView::ConnectFailed,
            Event::Outgoing(message) => EventView::Outgoing(message_view(*message)),
            Event::InputClosed => EventView::InputClosed,
            Event::WriteFailed => EventView::WriteFailed,
            Event::Incoming(bytes) => EventView::Incoming(buffered(*bytes)),
            Event::PeerClosed => EventView::PeerClosed,
            Event::ReadFailed => EventView::ReadFailed,
        }
    }
}

impl View for Action {
    type V = ActionView;

    open spec fn view(&self) -> ActionView {
        match self {
            Action::Idle => ActionView::Idle,
            Action::Send { frame, failure } => ActionView::Send {
                frame: buffered(*frame),
                failed: failure is Some,
            },
            Action::Deliver(message) => ActionView::Deliver(message_view(*message)),
            Action::Report(_) => ActionView::Report,
            Action::Close(outcome) => ActionView::Close(*outcome),
        }
    }
}

/// What one buffer that was read leads to.
pub open spec fn received(bytes: Seq<u8>) -> ActionView {
    match decode_spec(bytes) {
        DecodedView::Nothing => ActionView::Idle,
        DecodedView::Message(message) => ActionView::Deliver(message),
        DecodedView::Malformed => ActionView::Report,
    }
}

/// The next state and the action, for a state and an event.
///
/// A session that is connecting waits for the connection; a failure to
/// connect closes it with that error. A connected session sends what the
/// input bridge hands over, for as long as the bridge's queue is open,
/// and decodes each buffer that is read as one frame. It closes cleanly
/// when the remote closes, and with an error when a read or a write
/// fails. A closed session does nothing.
pub open spec fn step_spec(state: State, event: EventView) -> (State, ActionView) {
    match state {
        State::Connecting => match event {
            EventView::Connected => (State::Connected { forwarding: true }, ActionView::Idle),
            EventView::ConnectFailed => (
                State::Closed,
                ActionView::Close(Err(Error::ConnectionFailure)),
            ),
            _ => (state, ActionView::Idle),
        },
        State::Connected { forwarding } => match event {
            EventView::Outgoing(message) => if forwarding {
                (
                    state,
                    ActionView::Send {
                        frame: frame_of(message),
                        failed: !encodable(message),
                    },
                )
            } else {
                (state, ActionView::Idle)
            },
            EventView::InputClosed => (State::Connected { forwarding: false }, ActionView::Idle),
            EventView::WriteFailed => (State::Closed, ActionView::Close(Err(Error::WriteFailure))),
            EventView::Incoming(bytes) => (state, received(bytes)),
            EventView::PeerClosed => (State::Closed, ActionView::Close(Ok(()))),
            EventView::ReadFailed => (State::Closed, ActionView::Close(Err(Error::ReadFailure))),
            _ => (state, ActionView::Idle),
        },
        State::Closed => (state, ActionView::Idle),
    }
}

/// A session of the stream transport with one remote endpoint.
#[derive(Debug)]
pub struct Stream {
    remote: Endpoint,
    state: State,
}

impl Stream {
    /// The endpoint that the session connects to.
    pub closed spec fn spec_remote(&self) -> Endpoint {
        self.remote
    }

    /// Where the session stands.
    pub closed spec fn spec_state(&self) -> State {
        self.state
    }

    /// The endpoint that the session connects to.
    #[verifier::when_used_as_spec(spec_remote)]
    pub fn remote(&self) -> (remote: Endpoint)
        ensures
            remote == self.spec_remote(),
    {
        self.remote
    }

    /// Where the session stands.
    #[verifier::when_used_as_spec(spec_state)]
    pub fn state(&self) -> (state: State)
        ensures
            state == self.spec_state(),
    {
        self.state
    }

    /// Takes one event: moves to the next state and says what to do.
    pub fn step(&mut self, event: Event) -> (action: Action)
        ensures
            final(self).spec_remote() == old(self).spec_remote(),
            (final(self).spec_state(), action@) == step_spec(old(self).spec_state(), event@),
    {
        match self.state {
            State::Connecting => match event {
                Event::Connected => {
                    self.state = State::Connected { forwarding: true };
                    Action::Idle
                },
                Event::ConnectFailed => {
                    self.state = State::Closed;
                    Action::Close(Err(Error::ConnectionFailure))
                },
                _ => Action::Idle,
            },
            State::Connected { forwarding } => match event {
                Event::Outgoing(message) => {
                    if forwarding {
                        let mut codec = Bytes;
                        let mut frame = BytesMut::new();
                        let failure = codec.encode(message, &mut frame);
                        assert(buffered(frame) =~= frame_of(message_view(message)));
                        Action::Send { frame, failure }
                    } else {
                        Action::Idle
                    }
                },
                Event::InputClosed => {
                    self.state = State::Connected { forwarding: false };
                    Action::Idle
                },
                Event::WriteFailed => {
                    self.state = State::Closed;
                    Action::Close(Err(Error::WriteFailure))
                },
                Event::Incoming(bytes) => {
                    let mut codec = Bytes;
                    let mut bytes = bytes;
                    match codec.decode(&mut bytes) {
                        Decoded::Nothing => Action::Idle,
                        Decoded::Message(message) => Action::Deliver(message),
                        Decoded::Malformed(error) => Action::Report(error),
                    }
                },
                Event::PeerClosed => {
                    self.state = State::Closed;
                    Action::Close(Ok(()))
                },
                Event::ReadFailed => {
                    self.state = State::Closed;
                    Action::Close(Err(Error::ReadFailure))
                },
                _ => Action::Idle,
            },
            State::Closed => Action::Idle,
        }
    }
}

/// Opens a session of the stream transport with the given endpoint. The
/// session is connecting: the caller makes the connection and tells the
/// session how that went.
pub fn connect(addr: &Endpoint) -> (stream: Stream)
    ensures
        stream.spec_remote() == *addr,
        stream.spec_state() == State::Connecting,
{
    Stream { remote: *addr, state: State::Connecting }
}

/// The state of a session after a run of events.
pub open spec fn state_after(state: State, events: Seq<EventView>) -> State
    decreases events.len(),
{
    if events.len() == 0 {
        state
    } else {
        state_after(step_spec(state, events.first()).0, events.drop_first())
    }
}

/// The messages that a session hands to the forwarding driver over a run
/// of events, first delivered first.
pub open spec fn delivered(state: State, events: Seq<EventView>) -> Seq<MessageView>
    decreases events.len(),
{
    if events.len() == 0 {
        Seq::empty()
    } else {
        let (next, action) = step_spec(state, events.first());
        let later = delivered(next, events.drop_first());
        match action {
            ActionView::Deliver(message) => seq![message] + later,
            _ => later,
        }
    }
}

/// The messages in a run of buffers, each taken as one frame: the first
/// buffer's message first, and nothing for a buffer without one.
pub open spec fn surfaced(frames: Seq<Seq<u8>>) -> Seq<MessageView>
    decreases frames.len(),
{
    if frames.len() == 0 {
        Seq::empty()
    } else {
        let later = surfaced(frames.drop_first());
        match decode_spec(frames.first()).message() {
            Some(message) => seq![message] + later,
            None => later,
        }
    }
}

/// The buffers that were read in a run of events, in the order of reading.
pub open spec fn inbound(events: Seq<EventView>) -> Seq<Seq<u8>>
    decreases events.len(),
{
    if events.len() == 0 {
        Seq::empty()
    } else {
        let later = inbound(events.drop_first());
        match events.first() {
            EventView::Incoming(bytes) => seq![bytes] + later,
            _ => later,
        }
    }
}

/// The frames that a session writes over a run of events, first written
/// first. A message without a frame counts with its empty frame.
pub open spec fn sent(state: State, events: Seq<EventView>) -> Seq<Seq<u8>>
    decreases events.len(),
{
    if events.len() == 0 {
        Seq::empty()
    } else {
        let (next, action) = step_spec(state, events.first());
        let later = sent(next, events.drop_first());
        match action {
            ActionView::Send { frame, .. } => seq![frame] + later,
            _ => later,
        }
    }
}

/// The frames of the messages that the input bridge hands over in a run
/// of events before it closes its queue, in the order of handing over.
/// With `forwarding` false the queue counts as closed from the start.
pub open spec fn outbound(forwarding: bool, events: Seq<EventView>) -> Seq<Seq<u8>>
    decreases events.len(),
{
    if events.len() == 0 {
        Seq::empty()
    } else {
        match events.first() {
            EventView::Outgoing(message) => if forwarding {
                seq![frame_of(message)] + outbound(forwarding, events.drop_first())
            } else {
                outbound(forwarding, events.drop_first())
            },
            EventView::InputClosed => outbound(false, events.drop_first()),
            _ => outbound(forwarding, events.drop_first()),
        }
    }
}

/// Whether an event leaves a connected session connected.
pub open spec fn keeps_open(event: EventView) -> bool {
    !(event is WriteFailed || event is PeerClosed || event is ReadFailed)
}

/// While the connection stands, the driver gets the messages of the
/// frames in the order in which the frames were read, whatever happens in
/// the other direction meanwhile.
pub proof fn lemma_delivers_in_wire_order(forwarding: bool, events: Seq<EventView>)
    requires
        forall|i: int| 0 <= i < events.len() ==> keeps_open(#[trigger] events[i]),
    ensures
        delivered(State::Connected { forwarding }, events) == surfaced(inbound(events)),
        state_after(State::Connected { forwarding }, events) is Connected,
    decreases events.len(),
{
    if events.len() > 0 {
        let state = State::Connected { forwarding };
        let first = events.first();
        let rest = events.drop_first();
        assert(keeps_open(events[0]));
        assert forall|i: int| 0 <= i < rest.len() implies keeps_open(#[trigger] rest[i]) by {
            assert(rest[i] == events[i + 1]);
        }
        let next = step_spec(state, first).0;
        assert(next is Connected);
        lemma_delivers_in_wire_order(next->forwarding, rest);
        match first {
            EventView::Incoming(bytes) => {
                let frames = inbound(events);
                assert(frames == seq![bytes] + inbound(rest));
                assert(frames.first() == bytes);
                assert(frames.drop_first() =~= inbound(rest));
            },
            _ => {},
        }
    }
}

/// While the connection stands, the frames go out in the order in which
/// the input bridge handed the messages over, whatever comes in
/// meanwhile.
pub proof fn lemma_sends_in_input_order(forwarding: bool, events: Seq<EventView>)
    requires
        forall|i: int| 0 <= i < events.len() ==> keeps_open(#[trigger] events[i]),
    ensures
        sent(State::Connected { forwarding }, events) == outbound(forwarding, events),
    decreases events.len(),
{
    if events.len() > 0 {
        let state = State::Connected { forwarding };
        let rest = events.drop_first();
        assert(keeps_open(events[0]));
        assert forall|i: int| 0 <= i < rest.len() implies keeps_open(#[trigger] rest[i]) by {
            assert(rest[i] == events[i + 1]);
        }
        let next = step_spec(state, events.first()).0;
        assert(next is Connected);
        lemma_sends_in_input_order(next->forwarding, rest);
    }
}

/// Three frames that arrive in a row, each with a message, reach the
/// driver as those three messages in that order.
pub proof fn lemma_three_frames_in_order(
    forwarding: bool,
    f1: Seq<u8>,
    f2: Seq<u8>,
    f3: Seq<u8>,
    m1: MessageView,
    m2: MessageView,
    m3: MessageView,
)
    requires
        decode_spec(f1) == DecodedView::Message(m1),
        decode_spec(f2) == DecodedView::Message(m2),
        decode_spec(f3) == DecodedView::Message(m3),
    ensures
        delivered(
            State::Connected { forwarding },
            seq![EventView::Incoming(f1), EventView::Incoming(f2), EventView::Incoming(f3)],
        ) == seq![m1, m2, m3],
{
    let state = State::Connected { forwarding };
    let e3 = seq![EventView::Incoming(f3)];
    let e2 = seq![EventView::Incoming(f2), EventView::Incoming(f3)];
    let e1 = seq![EventView::Incoming(f1), EventView::Incoming(f2), EventView::Incoming(f3)];
    assert(e3.drop_first() =~= Seq::<EventView>::empty());
    assert(e2.drop_first() =~= e3);
    assert(e1.drop_first() =~= e2);
    assert(delivered(state, e3.drop_first()) == Seq::<MessageView>::empty());
    assert(delivered(state, e3) =~= seq![m3]);
    assert(delivered(state, e2) =~= seq![m2, m3]);
    assert(delivered(state, e1) =~= seq![m1, m2, m3]);
}

/// A closed session stays closed and delivers nothing, whatever comes.
pub proof fn lemma_closed_is_final(events: Seq<EventView>)
    ensures
        state_after(State::Closed, events) == State::Closed,
        delivered(State::Closed, events) == Seq::<MessageView>::empty(),
        sent(State::Closed, events) == Seq::<Seq<u8>>::empty(),
    decreases events.len(),
{
    if events.len() > 0 {
        lemma_closed_is_final(events.drop_first());
    }
}

/// A buffer that the codec cannot read, and an empty one, leave the
/// session as it is: no message is delivered and nothing is closed.
pub proof fn lemma_unreadable_frame_is_not_fatal(state: State, bytes: Seq<u8>)
    requires
        decode_spec(bytes).message() is None,
    ensures
        step_spec(state, EventView::Incoming(bytes)).0 == state,
        !(step_spec(state, EventView::Incoming(bytes)).1 is Deliver),
        !(step_spec(state, EventView::Incoming(bytes)).1 is Close),
{
}

/// What one session sends for a message, another session takes in as
/// that message, for every message that the wire format gives back from
/// its own bytes.
pub proof fn lemma_sent_frame_is_delivered(message: MessageView, forwarding: bool)
    requires
        survives_the_wire(message),
    ensures
        step_spec(State::Connected { forwarding: true }, EventView::Outgoing(message)).1
            == (ActionView::Send { frame: frame_of(message), failed: false }),
        step_spec(State::Connected { forwarding }, EventView::Incoming(frame_of(message))).1
            == ActionView::Deliver(message),
{
}

} // verus!
