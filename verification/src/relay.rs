//! The JSON-RPC/UDP relay: one outbound call to the fixed local peer,
//! correlated with its reply under a bounded wait. The shared socket is held
//! exclusively for the whole round trip, which is what keeps replies from
//! crossing between calls; the I/O layer performs the send and the receive
//! and hands their outcomes in.

use vstd::prelude::*;
use vstd::utf8::encode_utf8;
use crate::jsonrpc::{build_envelope, default_params, envelope_bytes};
use crate::portal::PortalError;
use crate::state::PortalState;

verus! {

/// How long the relay waits for a reply, in milliseconds.
pub const RELAY_TIMEOUT_MS: u64 = 10000;

/// What a relay caller asks: the RPC method, when the request named one as a
/// string, and the call's params rendered as JSON, when present.
pub struct RpcCall {
    pub method: Option<String>,
    pub params: Option<Vec<u8>>,
}

/// A prepared call: the datagram to send and the peer port to send it to.
pub struct RelayRequest {
    pub target_port: u16,
    pub datagram: Vec<u8>,
}

/// The outcome of sending the datagram.
pub enum SendEvent {
    Sent,
    SendFailed(String),
}

/// The outcome of the bounded wait for the reply.
pub enum RecvEvent {
    Reply(Vec<u8>),
    TimedOut,
    RecvFailed(String),
}

/// Whether `b` parses as JSON. Stands for the verdict of
/// `serde_json::from_slice::<serde_json::Value>`, which depends on the bytes
/// alone.
pub uninterp spec fn json_valid(b: Seq<u8>) -> bool;

/// Relies on serde_json::from_slice::<Value>: returns nothing when the bytes
/// parse as JSON, and the parse error's rendering when they do not.
#[verifier::external_body]
fn json_check(b: &Vec<u8>) -> (r: Option<String>)
    ensures
        r is None <==> json_valid(b@),
{
    match serde_json::from_slice::<serde_json::Value>(b) {
        Ok(_) => None,
        Err(e) => Some(e.to_string()),
    }
}

/// The params spliced into the envelope: the request's own rendering, or the
/// empty array when the request carried none.
pub open spec fn effective_params(call: RpcCall) -> Seq<u8> {
    match call.params {
        Some(p) => p@,
        None => seq![91u8, 93u8],
    }
}

/// Builds the datagram for one relay call and names its destination.
/// Refused before a peer port is configured, and without an RPC method.
pub fn portal_request_prepare(state: &PortalState, call: &RpcCall) -> (r: Result<
    RelayRequest,
    PortalError,
>)
    ensures
        state.udp_port is None ==> (r matches Err(e) && e == PortalError::PortNotInitialized),
        state.udp_port matches Some(p) ==> match call.method {
            None => (r matches Err(e) && e == PortalError::MissingMethod),
            Some(m) => (r matches Ok(req) && req.target_port == p && req.datagram@
                == envelope_bytes(encode_utf8(m@), effective_params(*call))),
        },
{
    match state.udp_port {
        None => Err(PortalError::PortNotInitialized),
        Some(p) => match &call.method {
            None => Err(PortalError::MissingMethod),
            Some(m) => {
                let d = default_params();
                let pj = match &call.params {
                    Some(v) => v,
                    None => &d,
                };
                let datagram = build_envelope(m.as_str(), pj);
                Ok(RelayRequest { target_port: p, datagram })
            },
        },
    }
}

/// The relay can only use a socket that exists; before one is bound, sending
/// and receiving are refused.
pub fn relay_socket_check(state: &PortalState) -> (r: Result<(), PortalError>)
    ensures
        state.socket is Some ==> (r matches Ok(u) && u == ()),
        state.socket is None ==> (r matches Err(e) && e == PortalError::SocketNotInitialized),
{
    match state.socket {
        Some(_) => Ok(()),
        None => Err(PortalError::SocketNotInitialized),
    }
}

/// Turns the send and receive outcomes into the call's result: the reply
/// verbatim when it is JSON, the matching failure otherwise. No semantic
/// validation: a reply carrying an embedded error object is still returned.
pub fn portal_request_finish(send: SendEvent, recv: RecvEvent) -> (r: Result<Vec<u8>, PortalError>)
    ensures
        send matches SendEvent::SendFailed(m) ==> (r matches Err(e) && e
            == PortalError::SendFailure(m)),
        send matches SendEvent::Sent ==> match recv {
            RecvEvent::TimedOut => (r matches Err(e) && e == PortalError::Timeout),
            RecvEvent::RecvFailed(m) => (r matches Err(e) && e == PortalError::ReceiveFailure(m)),
            RecvEvent::Reply(b) => {
                &&& json_valid(b@) ==> (r matches Ok(v) && v@ == b@)
                &&& !json_valid(b@) ==> (r matches Err(e) && e matches PortalError::ProtocolError(_))
            },
        },
{
    match send {
        SendEvent::SendFailed(m) => Err(PortalError::SendFailure(m)),
        SendEvent::Sent => match recv {
            RecvEvent::TimedOut => Err(PortalError::Timeout),
            RecvEvent::RecvFailed(m) => Err(PortalError::ReceiveFailure(m)),
            RecvEvent::Reply(b) => match json_check(&b) {
                None => Ok(b),
                Some(m) => Err(PortalError::ProtocolError(m)),
            },
        },
    }
}

/// The relay's verdict on one call, with the reply it accepts.
pub enum RelayVerdict {
    Accepted(Seq<u8>),
    NoPort,
    NoMethod,
    NoSocket,
    SendFault,
    TimedOut,
    RecvFault,
    Malformed,
}

/// What one relay call comes to, given the state it runs against and what
/// the socket did. The state is only read: a relay call never changes it,
/// whatever the outcome.
pub open spec fn relay_verdict(
    state: PortalState,
    call: RpcCall,
    send: SendEvent,
    recv: RecvEvent,
) -> RelayVerdict {
    if state.udp_port is None {
        RelayVerdict::NoPort
    } else if call.method is None {
        RelayVerdict::NoMethod
    } else if state.socket is None {
        RelayVerdict::NoSocket
    } else {
        match send {
            SendEvent::SendFailed(_) => RelayVerdict::SendFault,
            SendEvent::Sent => match recv {
                RecvEvent::TimedOut => RelayVerdict::TimedOut,
                RecvEvent::RecvFailed(_) => RelayVerdict::RecvFault,
                RecvEvent::Reply(b) => if json_valid(b@) {
                    RelayVerdict::Accepted(b@)
                } else {
                    RelayVerdict::Malformed
                },
            },
        }
    }
}

/// Whether an executable result reports the verdict.
pub open spec fn verdict_matches(v: RelayVerdict, r: Result<Vec<u8>, PortalError>) -> bool {
    match v {
        RelayVerdict::Accepted(b) => r matches Ok(x) && x@ == b,
        RelayVerdict::NoPort => r matches Err(e) && e == PortalError::PortNotInitialized,
        RelayVerdict::NoMethod => r matches Err(e) && e == PortalError::MissingMethod,
        RelayVerdict::NoSocket => r matches Err(e) && e == PortalError::SocketNotInitialized,
        RelayVerdict::SendFault => r matches Err(e) && e matches PortalError::SendFailure(_),
        RelayVerdict::TimedOut => r matches Err(e) && e == PortalError::Timeout,
        RelayVerdict::RecvFault => r matches Err(e) && e matches PortalError::ReceiveFailure(_),
        RelayVerdict::Malformed => r matches Err(e) && e matches PortalError::ProtocolError(_),
    }
}

/// One relay call, start to finish, on outcomes the I/O layer hands in. The
/// state is only read, so the shared socket survives every outcome.
pub fn portal_request_inner(
    state: &PortalState,
    call: &RpcCall,
    send: SendEvent,
    recv: RecvEvent,
) -> (r: Result<Vec<u8>, PortalError>)
    ensures
        verdict_matches(relay_verdict(*state, *call, send, recv), r),
{
    let prepared = portal_request_prepare(state, call);
    match prepared {
        Err(e) => Err(e),
        Ok(_) => match relay_socket_check(state) {
            Err(e) => Err(e),
            Ok(_) => portal_request_finish(send, recv),
        },
    }
}

/// A relay call that hits the timeout reports the timeout and changes
/// nothing, so the very next call on the same state, once a well-formed
/// reply does arrive, is accepted with that reply.
pub proof fn lemma_timeout_leaves_socket_reusable(
    state: PortalState,
    call1: RpcCall,
    call2: RpcCall,
    reply: Vec<u8>,
)
    requires
        state.udp_port is Some,
        state.socket is Some,
        call1.method is Some,
        call2.method is Some,
        json_valid(reply@),
    ensures
        relay_verdict(state, call1, SendEvent::Sent, RecvEvent::TimedOut)
            == RelayVerdict::TimedOut,
        relay_verdict(state, call2, SendEvent::Sent, RecvEvent::Reply(reply))
            == RelayVerdict::Accepted(reply@),
{
}

/// Two sequential, non-overlapping relay calls each get exactly the reply
/// their own bounded wait returned: nothing crosses from one call to the
/// other.
pub proof fn lemma_sequential_relay_no_crosstalk(
    state: PortalState,
    call1: RpcCall,
    call2: RpcCall,
    reply1: Vec<u8>,
    reply2: Vec<u8>,
)
    requires
        state.udp_port is Some,
        state.socket is Some,
        call1.method is Some,
        call2.method is Some,
        json_valid(reply1@),
        json_valid(reply2@),
    ensures
        relay_verdict(state, call1, SendEvent::Sent, RecvEvent::Reply(reply1))
            == RelayVerdict::Accepted(reply1@),
        relay_verdict(state, call2, SendEvent::Sent, RecvEvent::Reply(reply2))
            == RelayVerdict::Accepted(reply2@),
{
}

} // verus!
