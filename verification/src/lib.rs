//! Orchard: a small rendezvous probe for finding out how a node's public
//! address and port differ from those of its local socket.
//!
//! The crate holds the wire format of the two probe messages, with an encoder
//! and a decoder that are proved to agree with one another, and the decisions
//! of the probe loop that waits on one socket and one timer.

pub mod address;
pub mod buffer;
pub mod message;
pub mod laws;
pub mod probe_loop;

pub use address::{Endpoint, IpAddress};
pub use message::{Decoded, OrchardMessage, ParseError};
pub use probe_loop::{
    EventKey, Fatal, LoopAction, LoopState, ProbeLoop, Reaction, WaitOutcome,
};
