use vstd::prelude::*;

verus! {

/// The protocol version this client speaks.
pub const MESSAGE_VERSION_V1: u8 = 1;

} // verus!
