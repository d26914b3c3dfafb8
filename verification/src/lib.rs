//! A relay between a local byte source and sink and one remote peer, over
//! a stream transport or a datagram transport that share one wire
//! encoding of messages.

pub mod buffer;
pub mod endpoint;
pub mod error;
pub mod message;
pub mod run;
pub mod tcp;
pub mod udp;
pub mod wire;
