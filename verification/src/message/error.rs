use vstd::prelude::*;

verus! {

/// Why a message could not be written or read.
#[derive(Debug, Clone, Copy, PartialEq, Eq, Structural)]
pub enum MessageError {
    /// The encoded message does not fit in one frame.
    TooLong,
    /// The frame is shorter than a message header.
    Truncated,
    /// The frame names a message type that does not exist: its code.
    UnknownType(u8),
}

} // verus!
