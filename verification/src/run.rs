//! The runtime of the relay: what the command line asks for, the input
//! bridge that feeds the transport, and the forwarding driver that writes
//! what the transport delivers.

use crate::endpoint::Endpoint;
use crate::error::Error;
use crate::message::{category_of, default_message, display_of, display_text, message_view};
use crate::message::{Category, MessageView};
use crate::tcp;
use crate::udp;
use repomon::Message;
use vstd::prelude::*;

verus! {

/// The remote endpoint where the command line names none.
pub const DEFAULT_ADDRESS: &'static str = "127.0.0.1:8080";

/// The number of bytes that the input bridge asks for in one read.
pub const CHUNK_SIZE: usize = 1024;

/// How much the forwarding driver writes: each level lets through what is
/// at least as grave as itself.
#[derive(Clone, Copy, Debug, PartialEq, Eq, Structural)]
pub enum Level {
    /// Only what ends the program.
    Critical,
    /// Errors too.
    Error,
    /// Warnings too.
    Warning,
    /// Information too: the level without `-v` and `-q`.
    Info,
    /// Details for debugging too.
    Debug,
    /// Everything.
    Trace,
}

/// The transport that carries a session.
#[derive(Clone, Copy, Debug, PartialEq, Eq, Structural)]
pub enum Transport {
    /// One connection.
    Stream,
    /// Single datagrams.
    Datagram,
}

impl Level {
    /// The place of a level, from the gravest, 0, to the most talkative.
    pub open spec fn rank(self) -> int {
        match self {
            Level::Critical => 0,
            Level::Error => 1,
            Level::Warning => 2,
            Level::Info => 3,
            Level::Debug => 4,
            Level::Trace => 5,
        }
    }

    /// Whether output at the level `self` lets a record of the level
    /// `record` through.
    pub open spec fn admits_spec(self, record: Level) -> bool {
        record.rank() <= self.rank()
    }

    fn place(self) -> (place: u8)
        ensures
            place == self.rank(),
    {
        match self {
            Level::Critical => 0,
            Level::Error => 1,
            Level::Warning => 2,
            Level::Info => 3,
            Level::Debug => 4,
            Level::Trace => 5,
        }
    }

    /// Whether output at the level `self` lets a record of the level
    /// `record` through.
    #[verifier::when_used_as_spec(admits_spec)]
    pub fn admits(self, record: Level) -> (admitted: bool)
        ensures
            admitted == self.admits_spec(record),
    {
        record.place() <= self.place()
    }
}

/// The output level for the counts of `-v` and `-q` on the command line.
/// Without either it is `Info`. Each `-v` makes it more talkative, down
/// to `Trace`; any `-q` overrides that and makes it graver, up to
/// `Critical`.
pub open spec fn level_for(verbose: u64, quiet: u64) -> Level {
    if quiet == 0 {
        if verbose == 0 {
            Level::Info
        } else if verbose == 1 {
            Level::Debug
        } else {
            Level::Trace
        }
    } else if quiet == 1 {
        Level::Warning
    } else if quiet == 2 {
        Level::Error
    } else {
        Level::Critical
    }
}

/// The transport for the flag `--udp`: datagrams with it, a stream
/// without.
pub open spec fn transport_for(udp: bool) -> Transport {
    if udp {
        Transport::Datagram
    } else {
        Transport::Stream
    }
}

/// The level at which a message of a category is written: a branch that
/// is up to date is worth a trace, anything else is information.
pub open spec fn level_of(category: Category) -> Level {
    match category {
        Category::UpToDate => Level::Trace,
        _ => Level::Info,
    }
}

/// What is written for one message: a line that announces it, then its
/// display form and the end of that line.
pub open spec fn rendered(message: MessageView) -> Seq<char> {
    "New Message\n"@ + display_text(message) + "\n"@
}

/// What the command line asked for.
#[derive(Clone, Copy, Debug)]
pub struct Options {
    /// The remote endpoint, where the address that was given resolves to
    /// one.
    pub address: Option<Endpoint>,
    /// Whether `--udp` was given.
    pub udp: bool,
    /// How often `-v` was given.
    pub verbose: u64,
    /// How often `-q` was given.
    pub quiet: u64,
}

/// A session with a remote endpoint, over the one transport or the other.
#[derive(Debug)]
pub enum Session {
    /// A session over one connection.
    Stream(tcp::Stream),
    /// A session over single datagrams.
    Datagram(udp::Datagram),
}

/// The forwarding driver: it opens the session that the options ask for
/// and writes what the session delivers.
#[derive(Clone, Copy, Debug)]
pub struct Driver {
    remote: Endpoint,
    transport: Transport,
    level: Level,
}

impl Driver {
    /// The remote endpoint.
    pub closed spec fn spec_remote(&self) -> Endpoint {
        self.remote
    }

    /// The transport that was chosen.
    pub closed spec fn spec_transport(&self) -> Transport {
        self.transport
    }

    /// The output level.
    pub closed spec fn spec_level(&self) -> Level {
        self.level
    }

    /// The remote endpoint.
    #[verifier::when_used_as_spec(spec_remote)]
    pub fn remote(&self) -> (remote: Endpoint)
        ensures
            remote == self.spec_remote(),
    {
        self.remote
    }

    /// The transport that was chosen.
    #[verifier::when_used_as_spec(spec_transport)]
    pub fn transport(&self) -> (transport: Transport)
        ensures
            transport == self.spec_transport(),
    {
        self.transport
    }

    /// The output level.
    #[verifier::when_used_as_spec(spec_level)]
    pub fn level(&self) -> (level: Level)
        ensures
            level == self.spec_level(),
    {
        self.level
    }

    /// Opens the session with the remote endpoint, over the transport
    /// that was chosen.
    pub fn connect(&self) -> (session: Session)
        ensures
            match session {
                Session::Stream(stream) => self.spec_transport() == Transport::Stream
                    && stream.spec_remote() == self.spec_remote() && stream.spec_state()
                    == tcp::State::Connecting,
                Session::Datagram(datagram) => self.spec_transport() == Transport::Datagram
                    && datagram.spec_remote() == self.spec_remote() && datagram.spec_state() == (
                    udp::State::Open { forwarding: true }),
            },
    {
        match self.transport {
            Transport::Stream => Session::Stream(tcp::connect(&self.remote)),
            Transport::Datagram => Session::Datagram(udp::connect(&self.remote)),
        }
    }

    /// What to write to the output for a message that the session
    /// delivered, and to flush at once: the rendered message where the
    /// output level lets a message of its category through, and nothing
    /// where it does not.
    pub fn on_message(&self, message: &Message) -> (output: Option<String>)
        ensures
            output is Some <==> self.spec_level().admits_spec(
                level_of(message_view(*message).category),
            ),
            output matches Some(text) ==> text@ == rendered(message_view(*message)),
    {
        let record = match category_of(message) {
            Category::UpToDate => Level::Trace,
            _ => Level::Info,
        };
        if self.level.admits(record) {
            let mut text = String::from_str("New Message\n");
            text.append(display_of(message).as_str());
            text.append("\n");
            Some(text)
        } else {
            None
        }
    }
}

/// Turns what the command line asked for into a forwarding driver. It
/// fails, before anything is opened, exactly where the address did not
/// resolve.
pub fn run(options: &Options) -> (driver: Result<Driver, Error>)
    ensures
        match driver {
            Ok(driver) => options.address == Some(driver.spec_remote())
                && driver.spec_transport() == transport_for(options.udp) && driver.spec_level()
                == level_for(options.verbose, options.quiet),
            Err(error) => options.address is None && error == Error::AddressResolution,
        },
{
    let remote = match options.address {
        Some(remote) => remote,
        None => { return Err(Error::AddressResolution); },
    };
    let mut level = match options.verbose {
        0 => Level::Info,
        1 => Level::Debug,
        _ => Level::Trace,
    };
    level = match options.quiet {
        0 => level,
        1 => Level::Warning,
        2 => Level::Error,
        _ => Level::Critical,
    };
    let transport = if options.udp {
        Transport::Datagram
    } else {
        Transport::Stream
    };
    Ok(Driver { remote, transport, level })
}

/// Where the input bridge stands.
#[derive(Clone, Copy, Debug, PartialEq, Eq, Structural)]
pub enum Bridge {
    /// A read from the local input is under way.
    Reading,
    /// A message is held out to the transport, which has not taken it.
    Offering,
    /// The bridge has stopped and its queue is closed.
    Closed,
}

/// What happened to the input bridge.
#[derive(Clone, Copy, Debug, PartialEq, Eq, Structural)]
pub enum BridgeEvent {
    /// The read came back with this many bytes.
    ReadDone(usize),
    /// The read failed.
    ReadFailed,
    /// The transport took the message that was held out.
    Accepted,
    /// The transport is gone.
    Rejected,
}

/// What the input bridge does next.
#[derive(Debug)]
pub enum BridgeAction {
    /// Read up to this many bytes from the local input, and block until
    /// they are there.
    Read(usize),
    /// Hold this message out to the transport, and block until it is
    /// taken.
    Offer(Message),
    /// Go on waiting for what is under way.
    Wait,
    /// Close the queue and end.
    Stop,
}

/// An action of the input bridge as a mathematical value.
pub ghost enum BridgeActionView {
    Read(usize),
    Offer(MessageView),
    Wait,
    Stop,
}

impl View for BridgeAction {
    type V = BridgeActionView;

    open spec fn view(&self) -> BridgeActionView {
        match self {
            BridgeAction::Read(limit) => BridgeActionView::Read(*limit),
            BridgeAction::Offer(message) => BridgeActionView::Offer(message_view(*message)),
            BridgeAction::Wait => BridgeActionView::Wait,
            BridgeAction::Stop => BridgeActionView::Stop,
        }
    }
}

/// The next state and the action of the input bridge, for a state and an
/// event.
///
/// Every read that brings bytes makes one message, the placeholder, which
/// is held out to the transport; the next read is asked for only when
/// the transport has taken it. The end of the input, a failed read and
/// the loss of the transport stop the bridge, which never starts again.
pub open spec fn bridge_step(state: Bridge, event: BridgeEvent) -> (Bridge, BridgeActionView) {
    match state {
        Bridge::Reading => match event {
            BridgeEvent::ReadDone(n) => if n > 0 {
                (Bridge::Offering, BridgeActionView::Offer(MessageView::placeholder()))
            } else {
                (Bridge::Closed, BridgeActionView::Stop)
            },
            BridgeEvent::ReadFailed => (Bridge::Closed, BridgeActionView::Stop),
            BridgeEvent::Accepted => (Bridge::Reading, BridgeActionView::Wait),
            BridgeEvent::Rejected => (Bridge::Closed, BridgeActionView::Stop),
        },
        Bridge::Offering => match event {
            BridgeEvent::Accepted => (Bridge::Reading, BridgeActionView::Read(CHUNK_SIZE)),
            BridgeEvent::Rejected => (Bridge::Closed, BridgeActionView::Stop),
            _ => (Bridge::Offering, BridgeActionView::Wait),
        },
        Bridge::Closed => (Bridge::Closed, BridgeActionView::Stop),
    }
}

/// Starts the input bridge: it is reading, and its first action is a read
/// of one chunk.
pub fn read_stdin() -> (start: (Bridge, BridgeAction))
    ensures
        start.0 == Bridge::Reading,
        start.1@ == BridgeActionView::Read(CHUNK_SIZE),
{
    (Bridge::Reading, BridgeAction::Read(CHUNK_SIZE))
}

impl Bridge {
    /// Takes one event: gives the next state and says what to do.
    pub fn step(self, event: BridgeEvent) -> (next: (Bridge, BridgeAction))
        ensures
            (next.0, next.1@) == bridge_step(self, event),
    {
        match self {
            Bridge::Reading => match event {
                BridgeEvent::ReadDone(n) => {
                    if n > 0 {
                        (Bridge::Offering, BridgeAction::Offer(default_message()))
                    } else {
                        (Bridge::Closed, BridgeAction::Stop)
                    }
                },
                BridgeEvent::ReadFailed => (Bridge::Closed, BridgeAction::Stop),
                BridgeEvent::Accepted => (Bridge::Reading, BridgeAction::Wait),
                BridgeEvent::Rejected => (Bridge::Closed, BridgeAction::Stop),
            },
            Bridge::Offering => match event {
                BridgeEvent::Accepted => (Bridge::Reading, BridgeAction::Read(CHUNK_SIZE)),
                BridgeEvent::Rejected => (Bridge::Closed, BridgeAction::Stop),
                _ => (Bridge::Offering, BridgeAction::Wait),
            },
            Bridge::Closed => (Bridge::Closed, BridgeAction::Stop),
        }
    }
}

/// The number of messages that the bridge holds out over a run of
/// events.
pub open spec fn offered(state: Bridge, events: Seq<BridgeEvent>) -> nat
    decreases events.len(),
{
    if events.len() == 0 {
        0
    } else {
        let (next, action) = bridge_step(state, events.first());
        let later = offered(next, events.drop_first());
        if action is Offer {
            1 + later
        } else {
            later
        }
    }
}

/// The number of reads that the bridge asks for over a run of events.
pub open spec fn reads_asked(state: Bridge, events: Seq<BridgeEvent>) -> nat
    decreases events.len(),
{
    if events.len() == 0 {
        0
    } else {
        let (next, action) = bridge_step(state, events.first());
        let later = reads_asked(next, events.drop_first());
        if action is Read {
            1 + later
        } else {
            later
        }
    }
}

/// The number of times that the transport took a message in a run of
/// events.
pub open spec fn taken(events: Seq<BridgeEvent>) -> nat
    decreases events.len(),
{
    if events.len() == 0 {
        0
    } else if events.first() is Accepted {
        1 + taken(events.drop_first())
    } else {
        taken(events.drop_first())
    }
}

/// The bridge never runs ahead of the transport by more than one message:
/// what it has held out is at most one more than what was taken, and
/// after the first read it asks for a read only when a message was taken.
pub proof fn lemma_bridge_keeps_step(state: Bridge, events: Seq<BridgeEvent>)
    ensures
        offered(state, events) <= taken(events) + (if state is Reading {
            1nat
        } else {
            0nat
        }),
        reads_asked(state, events) <= taken(events),
    decreases events.len(),
{
    if events.len() > 0 {
        lemma_bridge_keeps_step(bridge_step(state, events.first()).0, events.drop_first());
    }
}

/// Where the transport never takes a message, the bridge holds out one
/// message at most and asks for no further read: it stands still and
/// buffers nothing.
pub proof fn lemma_backpressure(events: Seq<BridgeEvent>)
    requires
        forall|i: int| 0 <= i < events.len() ==> !(#[trigger] events[i] is Accepted),
    ensures
        offered(Bridge::Reading, events) <= 1,
        reads_asked(Bridge::Reading, events) == 0,
{
    lemma_none_taken(events);
    lemma_bridge_keeps_step(Bridge::Reading, events);
}

proof fn lemma_none_taken(events: Seq<BridgeEvent>)
    requires
        forall|i: int| 0 <= i < events.len() ==> !(#[trigger] events[i] is Accepted),
    ensures
        taken(events) == 0,
    decreases events.len(),
{
    if events.len() > 0 {
        let rest = events.drop_first();
        assert(!(events[0] is Accepted));
        assert forall|i: int| 0 <= i < rest.len() implies !(#[trigger] rest[i] is Accepted) by {
            assert(rest[i] == events[i + 1]);
        }
        lemma_none_taken(rest);
    }
}

/// A bridge that has stopped stays stopped: it holds out nothing and asks
/// for nothing, whatever comes.
pub proof fn lemma_bridge_never_restarts(events: Seq<BridgeEvent>)
    ensures
        offered(Bridge::Closed, events) == 0,
        reads_asked(Bridge::Closed, events) == 0,
    decreases events.len(),
{
    if events.len() > 0 {
        lemma_bridge_never_restarts(events.drop_first());
    }
}

} // verus!
