use vstd::prelude::*;

verus! {

/// Transport protocol of one configured name server.
#[derive(Clone, Copy, Debug, PartialEq, Eq, Structural)]
pub enum Protocol {
    Udp,
    Tcp,
    /// Recognized in configuration, but no transport implementation exists;
    /// dispatch to such a server fails fast instead of panicking.
    Tls,
}

impl Protocol {
    /// A transport implementation exists for this protocol.
    pub open spec fn supported(self) -> bool {
        self is Udp || self is Tcp
    }

    pub fn is_supported(&self) -> (r: bool)
        ensures
            r == self.supported(),
    {
        match self {
            Protocol::Udp => true,
            Protocol::Tcp => true,
            Protocol::Tls => false,
        }
    }
}

/// One upstream endpoint: IP address (IPv4 or IPv6, held as its 128-bit
/// integer form) and port. The core never interprets the address; the
/// embedding converts it to and from its socket types.
#[derive(Clone, Copy, Debug, PartialEq, Eq, Structural)]
pub struct SocketEndpoint {
    pub ip: u128,
    pub port: u16,
}

/// Address and protocol of one configured name server. Immutable for the
/// lifetime of the server: it is the server's identity.
#[derive(Clone, Copy, Debug, PartialEq, Eq, Structural)]
pub struct ServerConfig {
    pub socket_addr: SocketEndpoint,
    pub protocol: Protocol,
}

/// The list of upstream servers configured for one resolver instance.
#[derive(Clone, Debug)]
pub struct ResolverConfig {
    pub name_servers: Vec<ServerConfig>,
}

impl ResolverConfig {
    pub fn name_servers(&self) -> (r: &Vec<ServerConfig>)
        ensures
            r == &self.name_servers,
    {
        &self.name_servers
    }
}

/// Opaque bag of resolver tuning knobs. The pool stores it and passes it
/// through; nothing in this core interprets it.
#[derive(Clone, Copy, Debug, PartialEq, Eq, Structural)]
pub struct ResolverOptions {}

} // verus!
