use vstd::prelude::*;
use vstd::string::*;

verus! {

/// The kinds of message between client and server.
#[derive(Debug, Clone, Copy, PartialEq, Eq, Structural)]
pub enum MessageType {
    Empty,
    Heartbeat,
    Service,
    Proxy,
    Close,
    Error,
}

/// One message: protocol version, kind, and payload bytes.
pub struct Message {
    pub version: u8,
    pub message_type: MessageType,
    pub message_payload: Vec<u8>,
}

impl Message {
    /// A message whose payload is the UTF-8 encoding of `payload`.
    pub fn new(version: u8, message_type: MessageType, payload: &str) -> (r: Message)
        ensures
            r.version == version,
            r.message_type == message_type,
            r.message_payload@ == payload.spec_bytes(),
    {
        Message { version, message_type, message_payload: payload.as_bytes_vec() }
    }
}

/// How the client logs in to the server.
pub enum ServiceAuth {
    Token { token: String },
    Password { username: String, password: String },
}

/// The client's request to open a tunnel for its service.
pub struct ServiceMessage {
    pub auth: ServiceAuth,
}

/// The client's claim of one external connection.
pub struct ProxyMessage {
    pub proxy_id: String,
}

/// The server's answer to a service request: the shared secret (base64) and
/// the public port of the tunnel.
pub struct ClientServiceMessage {
    pub secret: String,
    pub port: u16,
}

} // verus!
