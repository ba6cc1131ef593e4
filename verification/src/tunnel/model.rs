use vstd::prelude::*;

verus! {

/// What the tunnel connections need to know of the configuration.
pub struct TunnelConfig {
    pub tunnel_host: String,
    pub tunnel_host_port: u16,
    pub tunnel_service: String,
    pub tunnel_service_port: u16,
    pub tunnel_username: Option<String>,
    pub tunnel_password: Option<String>,
    pub tunnel_token: Option<String>,
}

} // verus!
