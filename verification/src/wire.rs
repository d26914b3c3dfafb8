//! The wire codec: one message to one frame of bytes, and back.
//!
//! The byte layout belongs to `bincode` and to the message type. This
//! module fixes the framing policy around it: a whole buffer is one frame,
//! an empty buffer is no frame, and neither direction ever fails the relay.

use crate::message::{message_view, MessageView};
use bincode::ErrorKind;
use repomon::Message;
use vstd::prelude::*;

verus! {

/// The error type of `bincode`, carried through as it is.
#[verifier::external_type_specification]
#[verifier::external_body]
pub struct ExErrorKind(ErrorKind);

/// What `bincode::serialize` makes of a message without a size limit:
/// the bytes, or none where it fails.
pub uninterp spec fn serialized(message: MessageView) -> Option<Seq<u8>>;

/// What `bincode::deserialize` makes of a buffer read as one message: the
/// message, or none where it fails.
pub uninterp spec fn deserialized(bytes: Seq<u8>) -> Option<MessageView>;

/// `bincode::serialize` with the limit `Infinite`. Whether it succeeds,
/// and with which bytes, depends on the fields of the message alone.
/// Nothing is said of the error.
#[verifier::external_body]
fn serialize(message: &Message) -> (result: Result<Vec<u8>, Box<ErrorKind>>)
    ensures
        match result {
            Ok(bytes) => serialized(message_view(*message)) == Some(bytes@),
            Err(_) => serialized(message_view(*message)) is None,
        },
{
    bincode::serialize(message, bincode::Infinite)
}

/// `bincode::deserialize` into a message. It reads from the front of the
/// slice; whether it succeeds, and with which message, depends on the
/// bytes alone. Nothing is said of the error.
#[verifier::external_body]
fn deserialize(bytes: &[u8]) -> (result: Result<Message, Box<ErrorKind>>)
    ensures
        match result {
            Ok(message) => deserialized(bytes@) == Some(message_view(message)),
            Err(_) => deserialized(bytes@) is None,
        },
{
    bincode::deserialize(bytes)
}

/// The `Display` form of a `bincode` error. Nothing is said of the text.
#[verifier::external_body]
fn describe(error: &ErrorKind) -> (text: String) {
    format!("{}", error)
}

/// A failure of the codec on one message or one frame. It is never fatal:
/// it is there to be reported.
#[derive(Debug)]
pub struct CodecError {
    /// What the codec said.
    pub report: String,
}

/// The outcome of encoding one message.
#[derive(Debug)]
pub struct Frame {
    /// The bytes to put on the wire: none where the message could not be
    /// encoded.
    pub bytes: Vec<u8>,
    /// Why there are none, for the caller to log.
    pub failure: Option<CodecError>,
}

/// The outcome of decoding one buffer.
#[derive(Debug)]
pub enum Decoded {
    /// The buffer was empty: there is no message.
    Nothing,
    /// The buffer held this message.
    Message(Message),
    /// The buffer held no message that the codec could read: there is no
    /// message, and a failure to report.
    Malformed(CodecError),
}

/// The outcome of decoding one buffer, as a mathematical value.
pub ghost enum DecodedView {
    Nothing,
    Message(MessageView),
    Malformed,
}

impl View for Decoded {
    type V = DecodedView;

    open spec fn view(&self) -> DecodedView {
        match self {
            Decoded::Nothing => DecodedView::Nothing,
            Decoded::Message(message) => DecodedView::Message(message_view(*message)),
            Decoded::Malformed(_) => DecodedView::Malformed,
        }
    }
}

impl DecodedView {
    /// The message that is handed on, if there is one.
    pub open spec fn message(self) -> Option<MessageView> {
        match self {
            DecodedView::Message(message) => Some(message),
            _ => None,
        }
    }
}

/// The frame of a message: its serialized bytes, and no bytes where it
/// cannot be serialized.
pub open spec fn frame_of(message: MessageView) -> Seq<u8> {
    match serialized(message) {
        Some(bytes) => bytes,
        None => Seq::empty(),
    }
}

/// Whether a message can be encoded.
pub open spec fn encodable(message: MessageView) -> bool {
    serialized(message) is Some
}

/// What a buffer decodes to, taken whole as one frame.
pub open spec fn decode_spec(bytes: Seq<u8>) -> DecodedView {
    if bytes.len() == 0 {
        DecodedView::Nothing
    } else {
        match deserialized(bytes) {
            Some(message) => DecodedView::Message(message),
            None => DecodedView::Malformed,
        }
    }
}

/// Encodes one message as one frame. Where the message cannot be
/// serialized the frame is empty and the failure is handed back with it.
pub fn encode(message: &Message) -> (frame: Frame)
    ensures
        frame.bytes@ == frame_of(message_view(*message)),
        frame.failure is None <==> encodable(message_view(*message)),
{
    match serialize(message) {
        Ok(bytes) => Frame { bytes, failure: None },
        Err(error) => {
            let report = describe(&*error);
            Frame { bytes: Vec::new(), failure: Some(CodecError { report }) }
        },
    }
}

/// Decodes one buffer, taken whole as one frame. An empty buffer gives no
/// message and no failure; a buffer that the codec cannot read gives no
/// message and the failure to report.
pub fn decode(bytes: &[u8]) -> (decoded: Decoded)
    ensures
        decoded@ == decode_spec(bytes@),
        bytes@.len() == 0 ==> decoded is Nothing,
        bytes@.len() > 0 && deserialized(bytes@) is None ==> decoded is Malformed,
        decoded is Message <==> bytes@.len() > 0 && deserialized(bytes@) is Some,
{
    if bytes.len() == 0 {
        Decoded::Nothing
    } else {
        match deserialize(bytes) {
            Ok(message) => Decoded::Message(message),
            Err(error) => {
                let report = describe(&*error);
                Decoded::Malformed(CodecError { report })
            },
        }
    }
}

impl Decoded {
    /// The message that is handed on, if there is one.
    pub fn message(self) -> (message: Option<Message>)
        ensures
            match message {
                Some(m) => self@.message() == Some(message_view(m)),
                None => self@.message() is None,
            },
    {
        match self {
            Decoded::Message(message) => Some(message),
            _ => None,
        }
    }
}

/// Whether the wire format gives a message back from its own bytes: the
/// message can be serialized, to at least one byte, and those bytes are
/// deserialized to the same message.
pub open spec fn survives_the_wire(message: MessageView) -> bool {
    serialized(message) matches Some(bytes) && bytes.len() > 0 && deserialized(bytes) == Some(
        message,
    )
}

/// Decoding the frame of a message gives that message, for every message
/// that the wire format itself gives back from its own bytes. The framing
/// adds nothing to a frame and takes nothing from it.
pub proof fn lemma_decode_inverts_encode(message: MessageView)
    requires
        survives_the_wire(message),
    ensures
        decode_spec(frame_of(message)) == DecodedView::Message(message),
        encodable(message),
{
}

/// An empty buffer never gives a message, and is no failure.
pub proof fn lemma_empty_buffer_gives_nothing(bytes: Seq<u8>)
    requires
        bytes.len() == 0,
    ensures
        decode_spec(bytes) == DecodedView::Nothing,
        decode_spec(bytes).message() is None,
{
}

/// A buffer that the wire format cannot read never gives a message.
pub proof fn lemma_malformed_buffer_gives_no_message(bytes: Seq<u8>)
    requires
        deserialized(bytes) is None,
    ensures
        decode_spec(bytes).message() is None,
{
}

/// A message that cannot be serialized has the empty frame, which in turn
/// decodes to nothing: what cannot be sent is never received.
pub proof fn lemma_unencodable_message_is_dropped(message: MessageView)
    requires
        !encodable(message),
    ensures
        frame_of(message) == Seq::<u8>::empty(),
        decode_spec(frame_of(message)) == DecodedView::Nothing,
{
}

} // verus!
