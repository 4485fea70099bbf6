//! WebSocket messages and the server side of the opening handshake.
//!
//! The framed transport itself (reading and writing frames on the upgraded
//! connection) is carried by the runner outside this crate; here live the
//! message shape and the handshake response computation.

use vstd::prelude::*;

pub mod upgrade;

verus! {

/// One WebSocket message, independent of the wire framing library.
#[derive(Clone, Debug, PartialEq, Eq)]
pub enum Message {
    Text(String),
    Binary(Vec<u8>),
    Ping(Vec<u8>),
    Pong(Vec<u8>),
    Close(Option<CloseFrame>),
}

/// The payload of a close message: a status code and a reason.
#[derive(Clone, Debug, PartialEq, Eq)]
pub struct CloseFrame {
    pub code: u16,
    pub reason: String,
}

impl Message {
    /// True exactly for the variant that ends a session.
    pub fn is_close(&self) -> (r: bool)
        ensures
            r == (self matches Message::Close(_)),
    {
        match self {
            Message::Close(_) => true,
            _ => false,
        }
    }
}

} // verus!
