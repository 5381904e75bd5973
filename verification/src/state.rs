//! The shared runtime context: the connection registry for the bridge, the
//! relay's shared socket and configured peer port, and the handle to the
//! supervised peer process. One value of this, passed into every operation;
//! the I/O layer guards it with its own lock.

use vstd::prelude::*;
use crate::frames::Ipv4;
use crate::registry::Registry;

verus! {

/// The two ports a socket initialization request names.
#[derive(Clone, Copy, PartialEq, Eq, Structural, Debug)]
pub struct SocketConfig {
    pub bind_port: u16,
    pub udp_port: u16,
}

/// The ports the context was last configured with.
#[derive(Clone, Copy, PartialEq, Eq, Structural, Debug)]
pub struct PortalConfig {
    pub bind_port: u16,
    pub udp_port: u16,
}

/// The local address of the relay's shared UDP socket.
#[derive(Clone, Copy, PartialEq, Eq, Structural, Debug)]
pub struct SocketInfo {
    pub ip: Ipv4,
    pub port: u16,
}

/// The context's state. The socket and process themselves live with the I/O
/// layer; this tracks what exists and what was configured.
pub struct PortalState {
    /// Live bridge sessions and the port allocator.
    pub registry: Registry,
    /// The port the WebSocket bridge server listens on.
    pub ws_port: u16,
    /// The peer process's UDP port, set by initialization; relay calls are
    /// refused until it is.
    pub udp_port: Option<u16>,
    /// The relay's shared socket, when bound.
    pub socket: Option<SocketInfo>,
    /// The configuration stored by socket initialization.
    pub config: Option<PortalConfig>,
    /// Whether a peer process handle exists.
    pub process_present: bool,
    /// Whether the peer process was started and not yet stopped.
    pub process_running: bool,
}

impl PortalState {
    pub fn new(starting_port: u16, ws_port: u16) -> (r: PortalState)
        ensures
            r.registry.wf(),
            r.registry.next() == starting_port,
            r.registry.history() == Seq::<u16>::empty(),
            r.registry.contents() == Map::<u16, crate::registry::Connection>::empty(),
            r.ws_port == ws_port,
            r.udp_port is None,
            r.socket is None,
            r.config is None,
            !r.process_present,
            !r.process_running,
    {
        PortalState {
            registry: Registry::new(starting_port),
            ws_port,
            udp_port: None,
            socket: None,
            config: None,
            process_present: false,
            process_running: false,
        }
    }
}

} // verus!
