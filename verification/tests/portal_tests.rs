use portal_relay::frames::Ipv4;
use portal_relay::portal::{
    connection_id, get_websocket_url, initialize_portal_guard, initialize_portal_inner,
    initialize_socket_inner, initialize_socket_inner_old, portal_response_of, relay_target_addr,
    route_portal_request, shutdown_portal_inner, PortalError, PortalRequest, RoutedCall,
    SocketEvent, SpawnEvent, StopEvent,
};
use portal_relay::relay::RpcCall;
use portal_relay::state::{PortalState, SocketConfig, SocketInfo};

fn local(port: u16) -> SocketInfo {
    SocketInfo { ip: Ipv4 { a: 0, b: 0, c: 0, d: 0 }, port }
}

fn request(method: &str, bind_port: Option<u64>, udp_port: Option<u64>) -> PortalRequest {
    PortalRequest {
        method: method.to_string(),
        bind_port,
        udp_port,
        rpc: RpcCall { method: None, params: None },
    }
}

#[test]
fn initialize_portal_reports_the_configured_ports() {
    // HTTP initialize_portal {bind_port:8080, udp_port:9090} answers
    // {result:{bindPort:8080, udpPort:9090, status:"initialized"}}.
    let mut state = PortalState::new(40000, 3000);
    let r = initialize_portal_inner(
        &mut state,
        8080,
        9090,
        SocketEvent::Bound(local(44721)),
        SpawnEvent::Started,
    );
    let body = r.expect("initialization succeeds");
    let v: serde_json::Value = serde_json::from_slice(&body).unwrap();
    assert_eq!(v["bindPort"], 8080);
    assert_eq!(v["udpPort"], 9090);
    assert_eq!(v["status"], "initialized");
    assert_eq!(v["dynamicPort"], 44721);
    assert_eq!(v["socketAddress"], "0.0.0.0:44721");
    assert_eq!(state.udp_port, Some(9090));
    assert!(state.process_present && state.process_running);
}

#[test]
fn duplicate_initialization_is_refused() {
    let mut state = PortalState::new(40000, 3000);
    state.socket = Some(local(5151));
    match initialize_portal_guard(&state) {
        Err(e) => assert_eq!(e.message(), "Portal already initialized"),
        Ok(()) => panic!("initializing twice must be refused"),
    }
    let r = initialize_portal_inner(
        &mut state,
        1,
        2,
        SocketEvent::Bound(local(5151)),
        SpawnEvent::Started,
    );
    match r {
        Err(e) => assert_eq!(e.message(), "Portal already initialized"),
        Ok(_) => panic!("initializing twice must be refused"),
    }
    // The duplicate call changes nothing.
    assert_eq!(state.socket, Some(local(5151)));
    assert_eq!(state.udp_port, None);
    assert!(!state.process_present && !state.process_running);
}

#[test]
fn bind_failure_aborts_initialization() {
    let mut state = PortalState::new(40000, 3000);
    let r = initialize_portal_inner(
        &mut state,
        8080,
        9090,
        SocketEvent::BindFailed("address in use".to_string()),
        SpawnEvent::Started,
    );
    match r {
        Err(e) => assert_eq!(e.message(), "Failed to bind initial socket: address in use"),
        Ok(_) => panic!("a failed bind must abort initialization"),
    }
    assert_eq!(state.udp_port, None);
    assert!(!state.process_present);
}

#[test]
fn missing_binary_fails_the_spawn() {
    let mut state = PortalState::new(40000, 3000);
    let r = initialize_portal_inner(
        &mut state,
        8080,
        9090,
        SocketEvent::Bound(local(44721)),
        SpawnEvent::BinaryMissing,
    );
    match r {
        Err(e) => assert_eq!(
            e.message(),
            "Portal client binary not found. Please ensure the binary is built."
        ),
        Ok(_) => panic!("a missing binary must fail initialization"),
    }
    // The port and socket are recorded before the spawn, as the flow goes.
    assert_eq!(state.udp_port, Some(9090));
    assert!(state.process_present && !state.process_running);
}

#[test]
fn spawn_failure_carries_the_os_error() {
    let mut state = PortalState::new(40000, 3000);
    let r = initialize_portal_inner(
        &mut state,
        8080,
        9090,
        SocketEvent::Bound(local(44721)),
        SpawnEvent::SpawnFailed("no such file".to_string()),
    );
    match r {
        Err(e) => assert_eq!(e.message(), "Failed to start portal process: no such file"),
        Ok(_) => panic!("a failed spawn must fail initialization"),
    }
}

#[test]
fn shutdown_clears_the_context() {
    let mut state = PortalState::new(40000, 3000);
    initialize_portal_inner(
        &mut state,
        8080,
        9090,
        SocketEvent::Bound(local(44721)),
        SpawnEvent::Started,
    )
    .expect("initialized");
    let body = shutdown_portal_inner(&mut state, StopEvent::Stopped).expect("stops");
    assert_eq!(String::from_utf8(body).unwrap(), "{\"status\":\"stopped\"}");
    assert_eq!(state.udp_port, None);
    assert!(state.socket.is_none());
    assert!(!state.process_present && !state.process_running);
}

#[test]
fn shutdown_without_a_process_still_succeeds() {
    let mut state = PortalState::new(40000, 3000);
    let body = shutdown_portal_inner(&mut state, StopEvent::Stopped).expect("stops");
    let v: serde_json::Value = serde_json::from_slice(&body).unwrap();
    assert_eq!(v["status"], "stopped");
}

#[test]
fn failed_stop_is_reported() {
    let mut state = PortalState::new(40000, 3000);
    initialize_portal_inner(
        &mut state,
        8080,
        9090,
        SocketEvent::Bound(local(44721)),
        SpawnEvent::Started,
    )
    .expect("initialized");
    let r = shutdown_portal_inner(&mut state, StopEvent::StopFailed("kill failed".to_string()));
    match r {
        Err(e) => assert_eq!(e.message(), "Failed to stop portal process: kill failed"),
        Ok(_) => panic!("a failed stop must be reported"),
    }
    assert!(state.process_present);
    assert!(state.socket.is_some());
}

#[test]
fn socket_initialization_stores_the_configuration() {
    let mut state = PortalState::new(40000, 3000);
    let cfg = SocketConfig { bind_port: 8080, udp_port: 9090 };
    initialize_socket_inner(&mut state, cfg, SocketEvent::Bound(local(9090))).expect("binds");
    let stored = state.config.expect("configuration stored");
    assert_eq!(stored.bind_port, 8080);
    assert_eq!(stored.udp_port, 9090);
    assert!(state.socket.is_some());
    // A second initialization is a no-op.
    let cfg2 = SocketConfig { bind_port: 1, udp_port: 2 };
    initialize_socket_inner(&mut state, cfg2, SocketEvent::BindFailed("unused".to_string()))
        .expect("no-op");
    assert_eq!(state.config.expect("unchanged").bind_port, 8080);
}

#[test]
fn socket_initialization_reports_the_bind_error_verbatim() {
    let mut state = PortalState::new(40000, 3000);
    let cfg = SocketConfig { bind_port: 8080, udp_port: 9090 };
    let r = initialize_socket_inner(&mut state, cfg, SocketEvent::BindFailed("denied".to_string()));
    match r {
        Err(e) => assert_eq!(e.message(), "denied"),
        Ok(_) => panic!("a failed bind must be reported"),
    }
    let r = initialize_socket_inner_old(&mut state, SocketEvent::BindFailed("denied".to_string()));
    match r {
        Err(e) => assert_eq!(e.message(), "denied"),
        Ok(_) => panic!("a failed bind must be reported"),
    }
}

#[test]
fn routing_dispatches_by_method() {
    match route_portal_request(&request("initialize_portal", Some(8080), Some(9090))) {
        RoutedCall::Initialize(b, u) => {
            assert_eq!(b, 8080);
            assert_eq!(u, 9090);
        }
        _ => panic!("initialize_portal must route to initialization"),
    }
    assert!(matches!(
        route_portal_request(&request("shutdown_portal", None, None)),
        RoutedCall::Shutdown
    ));
    assert!(matches!(
        route_portal_request(&request("portal_request", None, None)),
        RoutedCall::Relay
    ));
}

#[test]
fn routing_rejects_missing_ports_and_unknown_methods() {
    match route_portal_request(&request("initialize_portal", None, Some(9090))) {
        RoutedCall::Reject(e) => assert_eq!(e.message(), "Missing or invalid bind_port parameter"),
        _ => panic!("a missing bind port must be rejected"),
    }
    match route_portal_request(&request("initialize_portal", Some(8080), None)) {
        RoutedCall::Reject(e) => assert_eq!(e.message(), "Missing or invalid udp_port parameter"),
        _ => panic!("a missing peer port must be rejected"),
    }
    match route_portal_request(&request("fly_to_the_moon", None, None)) {
        RoutedCall::Reject(e) => assert_eq!(e.message(), "Unknown method"),
        _ => panic!("an unknown method must be rejected"),
    }
}

#[test]
fn responses_carry_status_200_or_400() {
    let (status, body) = portal_response_of(Ok(b"{\"x\":1}".to_vec()));
    assert_eq!(status, 200);
    assert_eq!(body.result.unwrap(), b"{\"x\":1}".to_vec());
    assert!(body.error.is_none());
    let (status, body) = portal_response_of(Err(PortalError::Timeout));
    assert_eq!(status, 400);
    assert!(body.result.is_none());
    assert_eq!(body.error.unwrap(), "Receive timeout");
}

#[test]
fn helper_strings_are_exact() {
    let state = PortalState::new(40000, 3000);
    assert_eq!(get_websocket_url(&state), "ws://localhost:3000/portal");
    assert_eq!(connection_id(44721), "conn_44721");
    assert_eq!(relay_target_addr(9090), "127.0.0.1:9090");
}
