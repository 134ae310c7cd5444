//! The error type of the library.

use vstd::prelude::*;

verus! {

/// Why a frame could not be made or opened.
#[derive(Debug, Clone, Copy, PartialEq, Eq, Structural)]
pub enum Error {
    /// The bytes are not one well-stuffed frame, or what they unstuff to has
    /// no room for a checksum or does not fit the working buffer.
    CobsDecode,
    /// The frame unstuffed, but its payload is not a value of the expected
    /// type.
    JsonDecode,
    /// The payload is a value, but the checksum carried by the frame is not
    /// the checksum of the payload.
    CrcInvalid,
    /// The payload and its checksum do not fit the working buffer.
    CapacityExceeded,
}

} // verus!
