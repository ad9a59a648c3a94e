use vstd::prelude::*;

verus! {

/// Server settings, read once at startup.
#[derive(Clone, Debug)]
pub struct Config {
    pub general: ConfigGeneral,
    pub networking: ConfigNetworking,
}

#[derive(Clone, Debug)]
pub struct ConfigGeneral {
    /// The map clients are told to load.
    pub map: String,
}

#[derive(Clone, Debug)]
pub struct ConfigNetworking {
    pub tcp_port: u16,
    /// The server's UDP port; clients are expected to send from the one above.
    pub udp_port: u16,
    /// Advertised to clients in the server information.
    pub http_port: u16,
}

impl Config {
    /// Settings the server can run with: a UDP port that leaves room for the
    /// client port above it.
    pub open spec fn wf(&self) -> bool {
        self.networking.udp_port < u16::MAX
    }

    /// Whether the settings are ones the server can run with.
    pub fn is_usable(&self) -> (r: bool)
        ensures
            r == self.wf(),
    {
        self.networking.udp_port < u16::MAX
    }
}

} // verus!
