//! One message of the peer, reduced to what the exchange is steered by.
//!
//! A datagram holds one message after another. Each starts with a header that
//! gives the message's own length and a set of flags, and carries one of a few
//! kinds of payload. The caller decodes a message and writes it down as a
//! [`Message`]; the records in it are of whatever type the exchange is about.

use vstd::prelude::*;

verus! {

/// Set on every message that asks the kernel for something.
pub const NLM_F_REQUEST: u16 = 1;

/// Set on each part of a reply that comes in several parts.
pub const NLM_F_MULTIPART: u16 = 2;

/// Asks the kernel to acknowledge the request.
pub const NLM_F_ACK: u16 = 4;

/// Asks for every entry of a table instead of one.
pub const NLM_F_DUMP: u16 = 768;

/// What a message carries.
#[derive(Clone, Debug, PartialEq, Eq)]
pub enum Payload<R> {
    /// The end of a reply in several parts.
    Done,
    /// Attribute groups, decoded into records, in the order they stood in.
    Data(Vec<R>),
    /// An error envelope with its status code. Zero is no error but the
    /// acknowledgement of the request.
    Error(i32),
    /// Any other kind. It means nothing to this protocol.
    Other,
}

/// A decoded message.
#[derive(Clone, Debug, PartialEq, Eq)]
pub struct Message<R> {
    /// The length that the header declares for the whole message, in bytes.
    pub length: u32,
    /// The header's flags.
    pub flags: u16,
    /// The payload.
    pub payload: Payload<R>,
}

impl<R> Message<R> {
    /// Whether the header marks the message as one part of several.
    pub open spec fn multipart(self) -> bool {
        self.flags & NLM_F_MULTIPART != 0
    }

    /// Whether the header marks the message as one part of several.
    pub fn is_multipart(&self) -> (b: bool)
        ensures
            b == self.multipart(),
    {
        self.flags & NLM_F_MULTIPART != 0
    }
}

} // verus!
