//! The portal operations: socket initialization, peer-process lifecycle, the
//! JSON-RPC relay call, and the request dispatch behind the HTTP surface.
//! Every outside effect (binding, spawning, sending, receiving) happens in
//! the I/O layer; these functions take the effect's outcome as an argument
//! and decide everything else.

use vstd::prelude::*;
use vstd::slice::slice_to_vec;
use vstd::string::StringExecFns;
use vstd::string::StringSliceAdditionalSpecFns;
use crate::frames::dotted_quad;
use crate::frames::push_all;
use crate::numfmt::dec_bytes;
use crate::numfmt::push_dec_u16;
use crate::relay::RpcCall;
use crate::state::PortalConfig;
use crate::state::PortalState;
use crate::state::SocketConfig;
use crate::state::SocketInfo;

verus! {

/// Everything a portal operation can fail with. Every failure is reported to
/// the caller as a human-readable string; `message` renders it.
#[derive(Debug)]
pub enum PortalError {
    /// Binding the relay's shared socket failed, reported with its prefix.
    BindFailure(String),
    /// Binding failed, reported as the bind error alone.
    BindError(String),
    /// A relay call was made before a peer port was configured.
    PortNotInitialized,
    /// Full initialization was requested while a shared socket is already
    /// held: a duplicate initialize is refused.
    AlreadyInitialized,
    /// A send or receive was attempted before the shared socket existed.
    SocketNotInitialized,
    /// No reply arrived within the bounded wait.
    Timeout,
    /// The reply was not JSON; carries the parse error's rendering.
    ProtocolError(String),
    /// The datagram could not be sent.
    SendFailure(String),
    /// Receiving failed with an error other than the timeout.
    ReceiveFailure(String),
    /// The peer process could not be spawned.
    SpawnFailure(String),
    /// The peer binary is not where the supervisor expects it.
    BinaryMissing,
    /// Stopping the peer process failed.
    StopFailure(String),
    /// A relay request named no RPC method.
    MissingMethod,
    /// An initialization request named no usable bind port.
    MissingBindPort,
    /// An initialization request named no usable peer port.
    MissingUdpPort,
    /// The request named a method the dispatch does not know.
    UnknownMethod,
}

/// The string each failure is reported as.
pub open spec fn spec_message(e: PortalError) -> Seq<char> {
    match e {
        PortalError::BindFailure(m) => "Failed to bind initial socket: "@ + m@,
        PortalError::BindError(m) => m@,
        PortalError::PortNotInitialized => "UDP port not initialized"@,
        PortalError::AlreadyInitialized => "Portal already initialized"@,
        PortalError::SocketNotInitialized => "Socket not initialized"@,
        PortalError::Timeout => "Receive timeout"@,
        PortalError::ProtocolError(m) => "Failed to parse response: "@ + m@,
        PortalError::SendFailure(m) => "Failed to send bytes: "@ + m@,
        PortalError::ReceiveFailure(m) => "Failed to receive bytes: "@ + m@,
        PortalError::SpawnFailure(m) => "Failed to start portal process: "@ + m@,
        PortalError::BinaryMissing => "Portal client binary not found. Please ensure the binary is built."@,
        PortalError::StopFailure(m) => "Failed to stop portal process: "@ + m@,
        PortalError::MissingMethod => "Missing RPC method in params"@,
        PortalError::MissingBindPort => "Missing or invalid bind_port parameter"@,
        PortalError::MissingUdpPort => "Missing or invalid udp_port parameter"@,
        PortalError::UnknownMethod => "Unknown method"@,
    }
}

impl PortalError {
    /// Renders the failure as the string the caller sees.
    pub fn message(&self) -> (r: String)
        ensures
            r@ == spec_message(*self),
    {
        match self {
            PortalError::BindFailure(m) => {
                let mut s = String::from_str("Failed to bind initial socket: ");
                s.append(m.as_str());
                s
            },
            PortalError::BindError(m) => m.clone(),
            PortalError::PortNotInitialized => String::from_str("UDP port not initialized"),
            PortalError::AlreadyInitialized => String::from_str("Portal already initialized"),
            PortalError::SocketNotInitialized => String::from_str("Socket not initialized"),
            PortalError::Timeout => String::from_str("Receive timeout"),
            PortalError::ProtocolError(m) => {
                let mut s = String::from_str("Failed to parse response: ");
                s.append(m.as_str());
                s
            },
            PortalError::SendFailure(m) => {
                let mut s = String::from_str("Failed to send bytes: ");
                s.append(m.as_str());
                s
            },
            PortalError::ReceiveFailure(m) => {
                let mut s = String::from_str("Failed to receive bytes: ");
                s.append(m.as_str());
                s
            },
            PortalError::SpawnFailure(m) => {
                let mut s = String::from_str("Failed to start portal process: ");
                s.append(m.as_str());
                s
            },
            PortalError::BinaryMissing => String::from_str(
                "Portal client binary not found. Please ensure the binary is built.",
            ),
            PortalError::StopFailure(m) => {
                let mut s = String::from_str("Failed to stop portal process: ");
                s.append(m.as_str());
                s
            },
            PortalError::MissingMethod => String::from_str("Missing RPC method in params"),
            PortalError::MissingBindPort => String::from_str(
                "Missing or invalid bind_port parameter",
            ),
            PortalError::MissingUdpPort => String::from_str(
                "Missing or invalid udp_port parameter",
            ),
            PortalError::UnknownMethod => String::from_str("Unknown method"),
        }
    }
}

/// The decimal digits of `n` as characters, most significant first.
pub open spec fn dec_chars(n: nat) -> Seq<char>
    decreases n,
{
    if n < 10 {
        seq![digit_char(n)]
    } else {
        dec_chars(n / 10).push(digit_char(n % 10))
    }
}

pub open spec fn digit_char(n: nat) -> char {
    if n == 0 {
        '0'
    } else if n == 1 {
        '1'
    } else if n == 2 {
        '2'
    } else if n == 3 {
        '3'
    } else if n == 4 {
        '4'
    } else if n == 5 {
        '5'
    } else if n == 6 {
        '6'
    } else if n == 7 {
        '7'
    } else if n == 8 {
        '8'
    } else {
        '9'
    }
}

fn digit_str(n: u16) -> (r: &'static str)
    requires
        n < 10,
    ensures
        r@ == seq![digit_char(n as nat)],
{
    proof {
        reveal_strlit("0");
        reveal_strlit("1");
        reveal_strlit("2");
        reveal_strlit("3");
        reveal_strlit("4");
        reveal_strlit("5");
        reveal_strlit("6");
        reveal_strlit("7");
        reveal_strlit("8");
        reveal_strlit("9");
    }
    if n == 0 {
        let r = "0";
        assert(r@ =~= seq![digit_char(n as nat)]);
        r
    } else if n == 1 {
        let r = "1";
        assert(r@ =~= seq![digit_char(n as nat)]);
        r
    } else if n == 2 {
        let r = "2";
        assert(r@ =~= seq![digit_char(n as nat)]);
        r
    } else if n == 3 {
        let r = "3";
        assert(r@ =~= seq![digit_char(n as nat)]);
        r
    } else if n == 4 {
        let r = "4";
        assert(r@ =~= seq![digit_char(n as nat)]);
        r
    } else if n == 5 {
        let r = "5";
        assert(r@ =~= seq![digit_char(n as nat)]);
        r
    } else if n == 6 {
        let r = "6";
        assert(r@ =~= seq![digit_char(n as nat)]);
        r
    } else if n == 7 {
        let r = "7";
        assert(r@ =~= seq![digit_char(n as nat)]);
        r
    } else if n == 8 {
        let r = "8";
        assert(r@ =~= seq![digit_char(n as nat)]);
        r
    } else {
        let r = "9";
        assert(r@ =~= seq![digit_char(n as nat)]);
        r
    }
}

/// Appends the decimal rendering of `n` to `s`.
pub fn push_dec_chars(s: &mut String, n: u16)
    ensures
        final(s)@ == old(s)@ + dec_chars(n as nat),
    decreases n,
{
    if n < 10 {
        s.append(digit_str(n));
        assert(final(s)@ =~= old(s)@ + dec_chars(n as nat));
    } else {
        push_dec_chars(s, n / 10);
        s.append(digit_str(n % 10));
        assert(final(s)@ =~= old(s)@ + dec_chars(n as nat));
    }
}

/// The URL a browser connects to for the bridge.
pub open spec fn websocket_url_chars(ws_port: u16) -> Seq<char> {
    "ws://localhost:"@ + dec_chars(ws_port as nat) + "/portal"@
}

pub fn get_websocket_url(state: &crate::state::PortalState) -> (r: String)
    ensures
        r@ == websocket_url_chars(state.ws_port),
{
    let mut s = String::from_str("ws://localhost:");
    push_dec_chars(&mut s, state.ws_port);
    s.append("/portal");
    assert(s@ =~= websocket_url_chars(state.ws_port));
    s
}

/// The registry key of a session: the session's port under a fixed prefix.
pub open spec fn connection_id_chars(port: u16) -> Seq<char> {
    "conn_"@ + dec_chars(port as nat)
}

pub fn connection_id(port: u16) -> (r: String)
    ensures
        r@ == connection_id_chars(port),
{
    let mut s = String::from_str("conn_");
    push_dec_chars(&mut s, port);
    s
}

/// Where relay datagrams go: the peer process on the loopback interface.
pub open spec fn relay_target_chars(port: u16) -> Seq<char> {
    "127.0.0.1:"@ + dec_chars(port as nat)
}

pub fn relay_target_addr(port: u16) -> (r: String)
    ensures
        r@ == relay_target_chars(port),
{
    let mut s = String::from_str("127.0.0.1:");
    push_dec_chars(&mut s, port);
    s
}

/// Appends the bytes of a literal to `out`.
fn push_lit(out: &mut Vec<u8>, s: &str)
    ensures
        final(out)@ == old(out)@ + s.spec_bytes(),
{
    let v = slice_to_vec(s.as_bytes());
    push_all(out, &v);
}

/// The outcome of binding (or looking up) the relay's shared UDP socket.
pub enum SocketEvent {
    /// A socket is bound at this local address.
    Bound(SocketInfo),
    /// Binding failed; carries the error's rendering.
    BindFailed(String),
}

/// The outcome of starting the peer process.
pub enum SpawnEvent {
    Started,
    BinaryMissing,
    SpawnFailed(String),
}

/// The outcome of stopping the peer process.
pub enum StopEvent {
    Stopped,
    StopFailed(String),
}

/// What initialization reports on success:
/// `{"bindPort":B,"udpPort":U,"dynamicPort":D,"status":"initialized","socketAddress":"A.B.C.D:D"}`.
pub open spec fn init_response_bytes(bind_port: u16, udp_port: u16, info: SocketInfo) -> Seq<u8> {
    "{\"bindPort\":".spec_bytes() + dec_bytes(bind_port as nat) + ",\"udpPort\":".spec_bytes()
        + dec_bytes(udp_port as nat) + ",\"dynamicPort\":".spec_bytes() + dec_bytes(
        info.port as nat,
    ) + ",\"status\":\"initialized\",\"socketAddress\":\"".spec_bytes() + dotted_quad(info.ip)
        + seq![58u8] + dec_bytes(info.port as nat) + "\"}".spec_bytes()
}

/// Builds the initialization report.
pub fn build_init_response(bind_port: u16, udp_port: u16, info: SocketInfo) -> (r: Vec<u8>)
    ensures
        r@ == init_response_bytes(bind_port, udp_port, info),
{
    let mut out: Vec<u8> = Vec::new();
    push_lit(&mut out, "{\"bindPort\":");
    push_dec_u16(&mut out, bind_port);
    push_lit(&mut out, ",\"udpPort\":");
    push_dec_u16(&mut out, udp_port);
    push_lit(&mut out, ",\"dynamicPort\":");
    push_dec_u16(&mut out, info.port);
    push_lit(&mut out, ",\"status\":\"initialized\",\"socketAddress\":\"");
    push_dec_u16(&mut out, info.ip.a as u16);
    out.push(46);
    push_dec_u16(&mut out, info.ip.b as u16);
    out.push(46);
    push_dec_u16(&mut out, info.ip.c as u16);
    out.push(46);
    push_dec_u16(&mut out, info.ip.d as u16);
    out.push(58);
    push_dec_u16(&mut out, info.port);
    push_lit(&mut out, "\"}");
    assert(out@ =~= init_response_bytes(bind_port, udp_port, info));
    out
}

/// What shutdown reports: `{"status":"stopped"}`.
pub open spec fn shutdown_response_bytes() -> Seq<u8> {
    "{\"status\":\"stopped\"}".spec_bytes()
}

pub fn build_shutdown_response() -> (r: Vec<u8>)
    ensures
        r@ == shutdown_response_bytes(),
{
    let mut out: Vec<u8> = Vec::new();
    push_lit(&mut out, "{\"status\":\"stopped\"}");
    assert(out@ =~= shutdown_response_bytes());
    out
}

/// Stores the shared socket's address. A socket already held is returned
/// unchanged and the bind outcome is not consulted — full initialization
/// refuses that case before ever binding (`initialize_portal_guard`).
pub fn apply_socket_bind(state: &mut PortalState, bind: SocketEvent) -> (r: Result<
    SocketInfo,
    PortalError,
>)
    ensures
        match old(state).socket {
            Some(info) => *final(state) == *old(state) && (r matches Ok(i) && i == info),
            None => match bind {
                SocketEvent::Bound(info) => {
                    &&& r matches Ok(i) && i == info
                    &&& final(state).socket == Some(info)
                    &&& final(state).udp_port == old(state).udp_port
                    &&& final(state).config == old(state).config
                    &&& final(state).process_present == old(state).process_present
                    &&& final(state).process_running == old(state).process_running
                    &&& final(state).registry == old(state).registry
                    &&& final(state).ws_port == old(state).ws_port
                },
                SocketEvent::BindFailed(m) => *final(state) == *old(state) && (r matches Err(e) && e
                    == PortalError::BindFailure(m)),
            },
        },
{
    match state.socket {
        Some(info) => Ok(info),
        None => match bind {
            SocketEvent::Bound(info) => {
                state.socket = Some(info);
                Ok(info)
            },
            SocketEvent::BindFailed(m) => Err(PortalError::BindFailure(m)),
        },
    }
}

/// Socket initialization under a configuration: a no-op when a socket is
/// already held; otherwise the configuration is stored first, then the bind
/// outcome is applied, its error reported verbatim.
pub fn initialize_socket_inner(state: &mut PortalState, config: SocketConfig, bind: SocketEvent)
    -> (r: Result<(), PortalError>)
    ensures
        match old(state).socket {
            Some(_) => *final(state) == *old(state) && r is Ok,
            None => {
                &&& final(state).config == Some(
                    PortalConfig { bind_port: config.bind_port, udp_port: config.udp_port },
                )
                &&& final(state).udp_port == old(state).udp_port
                &&& final(state).process_present == old(state).process_present
                &&& final(state).process_running == old(state).process_running
                &&& final(state).registry == old(state).registry
                &&& final(state).ws_port == old(state).ws_port
                &&& match bind {
                    SocketEvent::Bound(info) => final(state).socket == Some(info) && r is Ok,
                    SocketEvent::BindFailed(m) => final(state).socket is None && (r matches Err(e)
                        && e == PortalError::BindError(m)),
                }
            },
        },
{
    if state.socket.is_some() {
        return Ok(());
    }
    state.config = Some(PortalConfig { bind_port: config.bind_port, udp_port: config.udp_port });
    match bind {
        SocketEvent::Bound(info) => {
            state.socket = Some(info);
            Ok(())
        },
        SocketEvent::BindFailed(m) => Err(PortalError::BindError(m)),
    }
}

/// The earlier socket initialization, without a configuration: a no-op when
/// a socket is held; otherwise the bind outcome is applied.
pub fn initialize_socket_inner_old(state: &mut PortalState, bind: SocketEvent) -> (r: Result<
    (),
    PortalError,
>)
    ensures
        match old(state).socket {
            Some(_) => *final(state) == *old(state) && r is Ok,
            None => match bind {
                SocketEvent::Bound(info) => {
                    &&& final(state).socket == Some(info)
                    &&& final(state).udp_port == old(state).udp_port
                    &&& final(state).config == old(state).config
                    &&& final(state).process_present == old(state).process_present
                    &&& final(state).process_running == old(state).process_running
                    &&& final(state).registry == old(state).registry
                    &&& final(state).ws_port == old(state).ws_port
                    &&& r is Ok
                },
                SocketEvent::BindFailed(m) => *final(state) == *old(state) && (r matches Err(e) && e
                    == PortalError::BindError(m)),
            },
        },
{
    if state.socket.is_some() {
        return Ok(());
    }
    match bind {
        SocketEvent::Bound(info) => {
            state.socket = Some(info);
            Ok(())
        },
        SocketEvent::BindFailed(m) => Err(PortalError::BindError(m)),
    }
}

/// Whether full initialization may proceed: a duplicate initialize, while a
/// shared socket is already held, is refused. The I/O layer asks this before
/// binding or spawning anything.
pub fn initialize_portal_guard(state: &PortalState) -> (r: Result<(), PortalError>)
    ensures
        state.socket is None ==> r is Ok,
        state.socket is Some ==> (r matches Err(e) && e == PortalError::AlreadyInitialized),
{
    match state.socket {
        None => Ok(()),
        Some(_) => Err(PortalError::AlreadyInitialized),
    }
}

/// Full initialization: bind the shared socket, record the peer's UDP port,
/// and start the peer process. Initializing twice is refused and changes
/// nothing; a bind failure aborts before anything is recorded; a spawn
/// failure leaves the port and socket recorded, with the process handle
/// present but nothing running.
pub fn initialize_portal_inner(
    state: &mut PortalState,
    bind_port: u16,
    udp_port: u16,
    bind: SocketEvent,
    spawn: SpawnEvent,
) -> (r: Result<Vec<u8>, PortalError>)
    ensures
        old(state).socket is Some ==> *final(state) == *old(state) && (r matches Err(e) && e
            == PortalError::AlreadyInitialized),
        old(state).socket is None ==> match bind {
            SocketEvent::BindFailed(m) => *final(state) == *old(state) && (r matches Err(e) && e
                == PortalError::BindFailure(m)),
            SocketEvent::Bound(info) => {
                &&& final(state).socket == Some(info)
                &&& final(state).udp_port == Some(udp_port)
                &&& final(state).process_present
                &&& final(state).config == old(state).config
                &&& final(state).registry == old(state).registry
                &&& final(state).ws_port == old(state).ws_port
                &&& match spawn {
                    SpawnEvent::Started => final(state).process_running && (r matches Ok(v) && v@
                        == init_response_bytes(bind_port, udp_port, info)),
                    SpawnEvent::BinaryMissing => !final(state).process_running && (r matches Err(e)
                        && e == PortalError::BinaryMissing),
                    SpawnEvent::SpawnFailed(m) => !final(state).process_running && (r matches Err(
                        e,
                    ) && e == PortalError::SpawnFailure(m)),
                }
            },
        },
{
    if let Err(e) = initialize_portal_guard(state) {
        return Err(e);
    }
    let bound = apply_socket_bind(state, bind);
    match bound {
        Err(e) => Err(e),
        Ok(info) => {
            state.udp_port = Some(udp_port);
            state.process_present = true;
            match spawn {
                SpawnEvent::Started => {
                    state.process_running = true;
                    Ok(build_init_response(bind_port, udp_port, info))
                },
                SpawnEvent::BinaryMissing => {
                    state.process_running = false;
                    Err(PortalError::BinaryMissing)
                },
                SpawnEvent::SpawnFailed(m) => {
                    state.process_running = false;
                    Err(PortalError::SpawnFailure(m))
                },
            }
        },
    }
}

/// Shutdown: stop the peer process, then release the socket and forget the
/// peer port. A stop failure is reported and leaves the rest in place; the
/// process is no longer running either way.
pub fn shutdown_portal_inner(state: &mut PortalState, stop: StopEvent) -> (r: Result<
    Vec<u8>,
    PortalError,
>)
    ensures
        match stop {
            StopEvent::StopFailed(m) => old(state).process_present ==> {
                &&& r matches Err(e) && e == PortalError::StopFailure(m)
                &&& final(state).process_present
                &&& !final(state).process_running
                &&& final(state).socket == old(state).socket
                &&& final(state).udp_port == old(state).udp_port
                &&& final(state).config == old(state).config
                &&& final(state).registry == old(state).registry
                &&& final(state).ws_port == old(state).ws_port
            },
            StopEvent::Stopped => true,
        },
        (!old(state).process_present || stop matches StopEvent::Stopped) ==> {
            &&& r matches Ok(v) && v@ == shutdown_response_bytes()
            &&& !final(state).process_present
            &&& !final(state).process_running
            &&& final(state).socket is None
            &&& final(state).udp_port is None
            &&& final(state).config == old(state).config
            &&& final(state).registry == old(state).registry
            &&& final(state).ws_port == old(state).ws_port
        },
{
    if state.process_present {
        state.process_running = false;
        match stop {
            StopEvent::StopFailed(m) => {
                return Err(PortalError::StopFailure(m));
            },
            StopEvent::Stopped => {},
        }
    }
    state.process_present = false;
    state.process_running = false;
    state.socket = None;
    state.udp_port = None;
    Ok(build_shutdown_response())
}

/// A request on the HTTP surface, as far as the dispatch reads it: the outer
/// method, the two ports when the params carried them as numbers, and the
/// nested JSON-RPC fields for a relay call.
pub struct PortalRequest {
    pub method: String,
    pub bind_port: Option<u64>,
    pub udp_port: Option<u64>,
    pub rpc: RpcCall,
}

/// Where the dispatch sends a request.
pub enum RoutedCall {
    /// Run full initialization with these bind and peer ports.
    Initialize(u16, u16),
    /// Run shutdown.
    Shutdown,
    /// Run a relay call with the request's nested RPC fields.
    Relay,
    /// Answer with this failure.
    Reject(PortalError),
}

/// Decides what a request asks for. Initialization wants both ports, each
/// taken modulo 2^16 as the original surface did; an unknown method is
/// rejected as such.
pub fn route_portal_request(req: &PortalRequest) -> (r: RoutedCall)
    ensures
        req.method@ == "initialize_portal"@ ==> match (req.bind_port, req.udp_port) {
            (Some(b), Some(u)) => r == RoutedCall::Initialize(
                (b % 0x10000) as u16,
                (u % 0x10000) as u16,
            ),
            (None, _) => r == RoutedCall::Reject(PortalError::MissingBindPort),
            (Some(_), None) => r == RoutedCall::Reject(PortalError::MissingUdpPort),
        },
        req.method@ == "shutdown_portal"@ ==> r == RoutedCall::Shutdown,
        req.method@ == "portal_request"@ ==> r == RoutedCall::Relay,
        req.method@ != "initialize_portal"@ && req.method@ != "shutdown_portal"@ && req.method@
            != "portal_request"@ ==> r == RoutedCall::Reject(PortalError::UnknownMethod),
{
    proof {
        reveal_strlit("initialize_portal");
        reveal_strlit("shutdown_portal");
        reveal_strlit("portal_request");
        assert("initialize_portal"@.len() == 17);
        assert("shutdown_portal"@.len() == 15);
        assert("portal_request"@.len() == 14);
    }
    if req.method.eq(&String::from_str("initialize_portal")) {
        match req.bind_port {
            None => RoutedCall::Reject(PortalError::MissingBindPort),
            Some(b) => match req.udp_port {
                None => RoutedCall::Reject(PortalError::MissingUdpPort),
                Some(u) => RoutedCall::Initialize((b % 0x10000) as u16, (u % 0x10000) as u16),
            },
        }
    } else if req.method.eq(&String::from_str("shutdown_portal")) {
        RoutedCall::Shutdown
    } else if req.method.eq(&String::from_str("portal_request")) {
        RoutedCall::Relay
    } else {
        RoutedCall::Reject(PortalError::UnknownMethod)
    }
}

/// The body the HTTP surface answers with.
pub struct PortalResponse {
    pub result: Option<Vec<u8>>,
    pub error: Option<String>,
}

/// Shapes an operation's outcome for the HTTP surface: the result under
/// status 200, or the failure's string under status 400.
pub fn portal_response_of(r: Result<Vec<u8>, PortalError>) -> (resp: (u16, PortalResponse))
    ensures
        r matches Ok(v) ==> resp.0 == 200 && (resp.1.result matches Some(b) && b@ == v@)
            && resp.1.error is None,
        r matches Err(e) ==> resp.0 == 400 && resp.1.result is None && (resp.1.error matches Some(
            m,
        ) && m@ == spec_message(e)),
{
    match r {
        Ok(v) => (200, PortalResponse { result: Some(v), error: None }),
        Err(e) => (400, PortalResponse { result: None, error: Some(e.message()) }),
    }
}

} // verus!
