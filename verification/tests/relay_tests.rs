use portal_relay::frames::Ipv4;
use portal_relay::portal::PortalError;
use portal_relay::relay::{
    portal_request_finish, portal_request_inner, portal_request_prepare, relay_socket_check,
    RecvEvent, RpcCall, SendEvent, RELAY_TIMEOUT_MS,
};
use portal_relay::state::{PortalState, SocketInfo};

fn ready_state() -> PortalState {
    let mut state = PortalState::new(40000, 3000);
    state.udp_port = Some(9090);
    state.socket = Some(SocketInfo { ip: Ipv4 { a: 0, b: 0, c: 0, d: 0 }, port: 44721 });
    state
}

fn call(method: &str, params: Option<&str>) -> RpcCall {
    RpcCall {
        method: Some(method.to_string()),
        params: params.map(|p| p.as_bytes().to_vec()),
    }
}

#[test]
fn prepare_builds_a_json_rpc_envelope_with_id_one() {
    let state = ready_state();
    let req = portal_request_prepare(&state, &call("eth_getBlockByNumber", Some("[\"0x1\"]")))
        .expect("prepared");
    assert_eq!(req.target_port, 9090);
    let v: serde_json::Value = serde_json::from_slice(&req.datagram).unwrap();
    assert_eq!(v["jsonrpc"], "2.0");
    assert_eq!(v["method"], "eth_getBlockByNumber");
    assert_eq!(v["params"], serde_json::Value::Array(vec!["0x1".into()]));
    assert_eq!(v["id"], 1);
}

#[test]
fn prepare_defaults_missing_params_to_empty_array() {
    let state = ready_state();
    let req = portal_request_prepare(&state, &call("ping", None)).expect("prepared");
    let v: serde_json::Value = serde_json::from_slice(&req.datagram).unwrap();
    assert_eq!(v["params"], serde_json::Value::Array(vec![]));
}

#[test]
fn prepare_escapes_the_method_name() {
    let state = ready_state();
    let req = portal_request_prepare(&state, &call("we\"ird\\name", None)).expect("prepared");
    let v: serde_json::Value = serde_json::from_slice(&req.datagram).unwrap();
    assert_eq!(v["method"], "we\"ird\\name");
}

#[test]
fn relay_before_initialization_is_refused() {
    let state = PortalState::new(40000, 3000);
    let r = portal_request_prepare(&state, &call("ping", None));
    match r {
        Err(e) => assert_eq!(e.message(), "UDP port not initialized"),
        Ok(_) => panic!("a relay call before initialization must be refused"),
    }
}

#[test]
fn relay_without_method_is_refused() {
    let state = ready_state();
    let r = portal_request_prepare(&state, &RpcCall { method: None, params: None });
    match r {
        Err(e) => assert_eq!(e.message(), "Missing RPC method in params"),
        Ok(_) => panic!("a relay call without an RPC method must be refused"),
    }
}

#[test]
fn send_and_receive_need_the_shared_socket() {
    let mut state = ready_state();
    assert!(relay_socket_check(&state).is_ok());
    state.socket = None;
    match relay_socket_check(&state) {
        Err(e) => assert_eq!(e.message(), "Socket not initialized"),
        Ok(_) => panic!("the relay must refuse to run without a socket"),
    }
}

#[test]
fn timeout_reports_receive_timeout() {
    // No peer listening: the bounded wait expires and the call fails with
    // the timeout, after the configured bound.
    assert_eq!(RELAY_TIMEOUT_MS, 10000);
    let state = ready_state();
    let r = portal_request_inner(
        &state,
        &call("eth_getBlockByNumber", Some("[\"0x1\"]")),
        SendEvent::Sent,
        RecvEvent::TimedOut,
    );
    match r {
        Err(e) => assert_eq!(e.message(), "Receive timeout"),
        Ok(_) => panic!("an expired wait must fail with the timeout"),
    }
}

#[test]
fn timeout_leaves_the_shared_socket_reusable() {
    let state = ready_state();
    let first = portal_request_inner(&state, &call("a", None), SendEvent::Sent, RecvEvent::TimedOut);
    assert!(first.is_err());
    // The same state serves the next call once a reply arrives.
    let reply = b"{\"result\":42}".to_vec();
    let second = portal_request_inner(
        &state,
        &call("b", None),
        SendEvent::Sent,
        RecvEvent::Reply(reply.clone()),
    );
    assert_eq!(second.expect("accepted"), reply);
}

#[test]
fn sequential_calls_each_get_their_own_reply() {
    let state = ready_state();
    let reply1 = b"{\"id\":1,\"result\":\"first\"}".to_vec();
    let reply2 = b"{\"id\":1,\"result\":\"second\"}".to_vec();
    let r1 = portal_request_inner(
        &state,
        &call("one", None),
        SendEvent::Sent,
        RecvEvent::Reply(reply1.clone()),
    );
    let r2 = portal_request_inner(
        &state,
        &call("two", None),
        SendEvent::Sent,
        RecvEvent::Reply(reply2.clone()),
    );
    assert_eq!(r1.expect("first accepted"), reply1);
    assert_eq!(r2.expect("second accepted"), reply2);
}

#[test]
fn a_reply_with_an_embedded_error_is_returned_verbatim() {
    let state = ready_state();
    let reply = b"{\"error\":{\"code\":-32601,\"message\":\"nope\"}}".to_vec();
    let r = portal_request_inner(
        &state,
        &call("m", None),
        SendEvent::Sent,
        RecvEvent::Reply(reply.clone()),
    );
    assert_eq!(r.expect("returned verbatim"), reply);
}

#[test]
fn a_malformed_reply_is_a_protocol_error() {
    let r = portal_request_finish(SendEvent::Sent, RecvEvent::Reply(b"not json".to_vec()));
    match r {
        Err(e) => {
            let m = e.message();
            assert!(
                m.starts_with("Failed to parse response: "),
                "unexpected message: {}",
                m
            );
        }
        Ok(_) => panic!("bytes that are not JSON must fail the call"),
    }
}

#[test]
fn send_and_receive_failures_carry_their_errors() {
    let r = portal_request_finish(SendEvent::SendFailed("boom".to_string()), RecvEvent::TimedOut);
    match r {
        Err(e) => assert_eq!(e.message(), "Failed to send bytes: boom"),
        Ok(_) => panic!("a failed send must fail the call"),
    }
    let r = portal_request_finish(SendEvent::Sent, RecvEvent::RecvFailed("gone".to_string()));
    match r {
        Err(e) => assert_eq!(e.message(), "Failed to receive bytes: gone"),
        Ok(_) => panic!("a failed receive must fail the call"),
    }
}
