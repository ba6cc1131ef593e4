use vstd::prelude::*;

verus! {

/// The addresses of a tunnel: the tunnel server (`host_addr:host_port`) and
/// the local service it exposes (`service_addr:service_port`).
pub struct Args {
    pub host_addr: String,
    pub host_port: u16,
    pub service_addr: String,
    pub service_port: u16,
}

/// The port of the tunnel server where none is given.
pub const DEFAULT_HOST_PORT: u16 = 51000;

} // verus!
