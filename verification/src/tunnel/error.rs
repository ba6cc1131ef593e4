use crate::message::error::MessageError;
use vstd::prelude::*;

verus! {

/// The kinds of I/O failure that the client tells apart.
#[derive(Debug, Clone, Copy, PartialEq, Eq, Structural)]
pub enum IoErrorKind {
    BrokenPipe,
    ConnectionReset,
    UnexpectedEof,
    Other,
}

/// Why a connection to the tunnel server ended.
#[derive(Debug, Clone, Copy, PartialEq, Eq, Structural)]
pub enum TunnelError {
    MessageError(MessageError),
    IoError(IoErrorKind),
    InvalidDnsNameError,
    /// The server closed the connection.
    ServerClosed,
}

impl From<MessageError> for TunnelError {
    fn from(error: MessageError) -> (r: Self) {
        TunnelError::MessageError(error)
    }
}

impl vstd::std_specs::convert::FromSpecImpl<MessageError> for TunnelError {
    open spec fn obeys_from_spec() -> bool {
        true
    }

    open spec fn from_spec(error: MessageError) -> Self {
        TunnelError::MessageError(error)
    }
}

/// A failure that ends a connection in the ordinary way: the peer went away.
pub open spec fn is_expected_disconnect(kind: IoErrorKind) -> bool {
    match kind {
        IoErrorKind::BrokenPipe | IoErrorKind::ConnectionReset | IoErrorKind::UnexpectedEof => true,
        IoErrorKind::Other => false,
    }
}

/// Whether `kind` ends a connection in the ordinary way (broken pipe,
/// connection reset, unexpected end of stream).
pub fn expected_disconnect(kind: IoErrorKind) -> (r: bool)
    ensures
        r == is_expected_disconnect(kind),
{
    match kind {
        IoErrorKind::BrokenPipe | IoErrorKind::ConnectionReset | IoErrorKind::UnexpectedEof => true,
        IoErrorKind::Other => false,
    }
}

} // verus!
