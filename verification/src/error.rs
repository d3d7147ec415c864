//! The failures an operation can end in.

use vstd::prelude::*;

verus! {

/// Why an operation failed.
#[derive(Clone, Copy, Debug, PartialEq, Eq, Structural)]
pub enum Error {
    /// The socket failed to send the request or to receive a reply. The value
    /// is the errno of the call that failed, where it reported one.
    Transport(Option<i32>),
    /// The kernel knows no family of the requested name: support for the
    /// subsystem is not built in, or its module is not loaded.
    NotFound,
    /// The peer answered with an error envelope. The value is the errno it
    /// reported, as a positive number.
    Peer(u32),
    /// A received message, or an attribute group in it, could not be decoded.
    Decode,
    /// The reply does not have the shape the operation calls for: a record of
    /// the wrong variant, or the wrong number of records.
    Protocol,
}

/// The errno that the status code of an error envelope stands for: its
/// magnitude. The kernel reports errors as negated errno values.
pub open spec fn errno_of(code: i32) -> u32 {
    if code < 0 {
        (-(code as int)) as u32
    } else {
        code as u32
    }
}

/// Computes [`errno_of`]. Every status code has a magnitude that fits, the
/// most negative one included.
pub fn errno(code: i32) -> (n: u32)
    ensures
        n == errno_of(code),
{
    if code >= 0 {
        code as u32
    } else if code == i32::MIN {
        0x8000_0000u32
    } else {
        (-code) as u32
    }
}

} // verus!
