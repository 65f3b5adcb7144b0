//! End-to-end gateway scenarios: literal frames in, literal replies out.

use ripple_gateway::device_info_request::DeviceInfoRequest;
use ripple_gateway::caps::CapsRequest;
use ripple_gateway::extn_client_message::{ExtnMessage, ExtnPayload, ExtnRequest, ExtnResponse};
use ripple_gateway::json::{encode_json, JsonValue};
use ripple_gateway::ripple_contract::RippleContract;
use ripple_gateway::rpc_router::ExtnRouteOutcome;
use ripple_gateway::firebolt_gateway::{FireboltGateway, FrameOutcome};
use ripple_gateway::localization_rpc::{ContStep, LocalizationMethod, LocalizationRPCProvider};
use ripple_gateway::platform_state::PlatformState;
use ripple_gateway::rpc_gateway_api::{EffectiveTransport, Session};
use ripple_gateway::rpc_gateway_api::{ApiProtocol, CallContext, RpcRequest};
use ripple_gateway::rpc_router::{Delivery, MethodEntry, MethodKind, RouteOutcome, RpcHandler, RpcRouter};
use ripple_gateway::storage_manager::StorageProperty;
use ripple_gateway::RippleError;

fn gateway_state() -> PlatformState {
    let mut state = PlatformState::new();
    state.router_state.update_methods(LocalizationRPCProvider::provide());
    state
}

fn session() -> Session {
    Session {
        session_id: "sess-1".to_string(),
        app_id: "app-a".to_string(),
        transport: EffectiveTransport::Websocket,
    }
}

fn completed_reply(outcome: FrameOutcome) -> String {
    match outcome {
        FrameOutcome::Routed(RouteOutcome::Completed { message, .. }) => message.jsonrpc_msg,
        _ => panic!("expected a completed dispatch"),
    }
}

#[test]
fn happy_path_rpc() {
    let mut state = gateway_state();
    state
        .storage
        .set_string(StorageProperty::Locality, "US-CA".to_string());
    let reply = completed_reply(FireboltGateway::handle_frame(
        &mut state,
        "{\"jsonrpc\":\"2.0\",\"id\":7,\"method\":\"localization.locality\",\"params\":{}}",
        &session(),
    ));
    assert_eq!(reply, "{\"jsonrpc\":\"2.0\",\"id\":7,\"result\":\"US-CA\"}");
}

#[test]
fn unknown_method_answers_method_not_found() {
    let mut state = gateway_state();
    let reply = completed_reply(FireboltGateway::handle_frame(
        &mut state,
        "{\"jsonrpc\":\"2.0\",\"id\":8,\"method\":\"bogus.op\",\"params\":{}}",
        &session(),
    ));
    assert_eq!(
        reply,
        "{\"jsonrpc\":\"2.0\",\"id\":8,\"error\":{\"code\":-32601,\"message\":\"Method not found\"}}"
    );
}

#[test]
fn malformed_frames_are_dropped() {
    let mut state = gateway_state();
    assert!(matches!(
        FireboltGateway::handle_frame(&mut state, "not json at all", &session()),
        FrameOutcome::Invalid
    ));
    assert!(matches!(
        FireboltGateway::handle_frame(&mut state, "{\"id\":1,\"method\":\"x\"}", &session()),
        FrameOutcome::Invalid
    ));
}

#[test]
fn timezone_validation_rejects_unsupported_zone() {
    let mut state = gateway_state();
    let outcome = FireboltGateway::handle_frame(
        &mut state,
        "{\"jsonrpc\":\"2.0\",\"id\":9,\"method\":\"localization.setTimeZone\",\
         \"params\":{\"value\":\"Atlantis/Nowhere\"}}",
        &session(),
    );
    let pending = match outcome {
        FrameOutcome::Routed(RouteOutcome::Suspended(pc)) => pc,
        _ => panic!("setTimeZone must first ask for the available time zones"),
    };
    assert!(matches!(pending.request, DeviceInfoRequest::GetAvailableTimezones));
    let resumed = RpcRouter::resume_route(
        &mut state,
        pending.cont,
        Ok(ExtnResponse::AvailableTimezones(vec![
            "UTC".to_string(),
            "America/New_York".to_string(),
        ])),
    );
    // the unsupported zone is refused and no SetTimezone call is issued
    match resumed {
        RouteOutcome::Completed { message, result } => {
            assert!(result.is_err());
            assert_eq!(
                message.jsonrpc_msg,
                "{\"jsonrpc\":\"2.0\",\"id\":9,\"error\":{\"code\":-32000,\
                 \"message\":\"timezone_set: Unsupported timezone\"}}"
            );
        }
        RouteOutcome::Suspended(_) => panic!("a write was issued for an unsupported time zone"),
    }
}

#[test]
fn timezone_set_succeeds_and_subscribes() {
    let mut state = gateway_state();
    let outcome = FireboltGateway::handle_frame(
        &mut state,
        "{\"jsonrpc\":\"2.0\",\"id\":10,\"method\":\"localization.setTimeZone\",\
         \"params\":{\"value\":\"UTC\"}}",
        &session(),
    );
    let pending = match outcome {
        FrameOutcome::Routed(RouteOutcome::Suspended(pc)) => pc,
        _ => panic!("setTimeZone must first ask for the available time zones"),
    };
    let second = RpcRouter::resume_route(
        &mut state,
        pending.cont,
        Ok(ExtnResponse::AvailableTimezones(vec!["UTC".to_string()])),
    );
    let pending2 = match second {
        RouteOutcome::Suspended(pc) => pc,
        _ => panic!("a supported zone must be written"),
    };
    match &pending2.request {
        DeviceInfoRequest::SetTimezone(tz) => assert_eq!(tz, "UTC"),
        _ => panic!("the write must carry the requested zone"),
    }
    assert!(matches!(pending2.cont.step, ContStep::TimezoneSetFinish { .. }));
    let done = RpcRouter::resume_route(&mut state, pending2.cont, Ok(ExtnResponse::Empty));
    match done {
        RouteOutcome::Completed { message, result } => {
            assert!(result.is_ok());
            assert_eq!(message.jsonrpc_msg, "{\"jsonrpc\":\"2.0\",\"id\":10,\"result\":null}");
        }
        _ => panic!("the acknowledged write must complete the call"),
    }
    // the caller is now subscribed to time-zone changes
    assert!(state
        .listeners
        .is_listening("localization.onTimeZoneChanged", "app-a"));
}

#[test]
fn timezone_read_round_trip() {
    let mut state = gateway_state();
    let outcome = FireboltGateway::handle_frame(
        &mut state,
        "{\"jsonrpc\":\"2.0\",\"id\":11,\"method\":\"localization.timeZone\",\"params\":{}}",
        &session(),
    );
    let pending = match outcome {
        FrameOutcome::Routed(RouteOutcome::Suspended(pc)) => pc,
        _ => panic!("timeZone must ask the device"),
    };
    assert!(matches!(pending.request, DeviceInfoRequest::GetTimezone));
    let done = RpcRouter::resume_route(
        &mut state,
        pending.cont,
        Ok(ExtnResponse::String("America/New_York".to_string())),
    );
    assert_eq!(
        completed_reply(FrameOutcome::Routed(done)),
        "{\"jsonrpc\":\"2.0\",\"id\":11,\"result\":\"America/New_York\"}"
    );
}

#[test]
fn timezone_read_failure_reports_error() {
    let mut state = gateway_state();
    let outcome = FireboltGateway::handle_frame(
        &mut state,
        "{\"jsonrpc\":\"2.0\",\"id\":12,\"method\":\"localization.timeZone\",\"params\":{}}",
        &session(),
    );
    let pending = match outcome {
        FrameOutcome::Routed(RouteOutcome::Suspended(pc)) => pc,
        _ => panic!("timeZone must ask the device"),
    };
    let done = RpcRouter::resume_route(&mut state, pending.cont, Err(RippleError::Timeout));
    assert_eq!(
        completed_reply(FrameOutcome::Routed(done)),
        "{\"jsonrpc\":\"2.0\",\"id\":12,\"error\":{\"code\":-32000,\
         \"message\":\"timezone: error response TBD\"}}"
    );
}

#[test]
fn listener_lifecycle() {
    let mut state = gateway_state();
    let reply = completed_reply(FireboltGateway::handle_frame(
        &mut state,
        "{\"jsonrpc\":\"2.0\",\"id\":13,\"method\":\"localization.onLocalityChanged\",\
         \"params\":{\"listen\":true}}",
        &session(),
    ));
    assert_eq!(
        reply,
        "{\"jsonrpc\":\"2.0\",\"id\":13,\"result\":\
         {\"listening\":true,\"event\":\"localization.onLocalityChanged\"}}"
    );
    assert!(state.listeners.is_listening("localization.onLocalityChanged", "app-a"));
    let reply2 = completed_reply(FireboltGateway::handle_frame(
        &mut state,
        "{\"jsonrpc\":\"2.0\",\"id\":14,\"method\":\"localization.onLocalityChanged\",\
         \"params\":{\"listen\":false}}",
        &session(),
    ));
    assert_eq!(
        reply2,
        "{\"jsonrpc\":\"2.0\",\"id\":14,\"result\":\
         {\"listening\":false,\"event\":\"localization.onLocalityChanged\"}}"
    );
    assert!(!state.listeners.is_listening("localization.onLocalityChanged", "app-a"));
}

#[test]
fn setter_then_getter_round_trip() {
    let mut state = gateway_state();
    let set_reply = completed_reply(FireboltGateway::handle_frame(
        &mut state,
        "{\"jsonrpc\":\"2.0\",\"id\":15,\"method\":\"localization.setLocality\",\
         \"params\":{\"value\":\"Berlin\"}}",
        &session(),
    ));
    assert_eq!(set_reply, "{\"jsonrpc\":\"2.0\",\"id\":15,\"result\":null}");
    let get_reply = completed_reply(FireboltGateway::handle_frame(
        &mut state,
        "{\"jsonrpc\":\"2.0\",\"id\":16,\"method\":\"localization.locality\",\"params\":{}}",
        &session(),
    ));
    assert_eq!(get_reply, "{\"jsonrpc\":\"2.0\",\"id\":16,\"result\":\"Berlin\"}");
}

#[test]
fn missing_property_reports_unavailable() {
    let mut state = gateway_state();
    let reply = completed_reply(FireboltGateway::handle_frame(
        &mut state,
        "{\"jsonrpc\":\"2.0\",\"id\":17,\"method\":\"localization.countryCode\",\"params\":{}}",
        &session(),
    ));
    assert_eq!(
        reply,
        "{\"jsonrpc\":\"2.0\",\"id\":17,\"error\":{\"code\":-32100,\
         \"message\":\"countryCode is not available\"}}"
    );
}

#[test]
fn invalid_setter_params_are_rejected() {
    let mut state = gateway_state();
    let reply = completed_reply(FireboltGateway::handle_frame(
        &mut state,
        "{\"jsonrpc\":\"2.0\",\"id\":18,\"method\":\"localization.setLocality\",\"params\":{}}",
        &session(),
    ));
    assert_eq!(
        reply,
        "{\"jsonrpc\":\"2.0\",\"id\":18,\"error\":{\"code\":-32602,\
         \"message\":\"Invalid parameters\"}}"
    );
}

#[test]
fn postal_code_falls_back_to_namespace() {
    let mut state = gateway_state();
    state.storage.set_string_in_namespace(
        "app-a".to_string(),
        "postalCode".to_string(),
        "94111".to_string(),
    );
    let reply = completed_reply(FireboltGateway::handle_frame(
        &mut state,
        "{\"jsonrpc\":\"2.0\",\"id\":19,\"method\":\"localization.postalCode\",\"params\":{}}",
        &session(),
    ));
    assert_eq!(reply, "{\"jsonrpc\":\"2.0\",\"id\":19,\"result\":\"94111\"}");
    // the device-wide property takes precedence once present
    state
        .storage
        .set_string(StorageProperty::PostalCode, "10001".to_string());
    let reply2 = completed_reply(FireboltGateway::handle_frame(
        &mut state,
        "{\"jsonrpc\":\"2.0\",\"id\":20,\"method\":\"localization.postalCode\",\"params\":{}}",
        &session(),
    ));
    assert_eq!(reply2, "{\"jsonrpc\":\"2.0\",\"id\":20,\"result\":\"10001\"}");
}

#[test]
fn additional_info_parses_stored_map() {
    let mut state = gateway_state();
    let empty = completed_reply(FireboltGateway::handle_frame(
        &mut state,
        "{\"jsonrpc\":\"2.0\",\"id\":21,\"method\":\"localization.additionalInfo\",\"params\":{}}",
        &session(),
    ));
    assert_eq!(empty, "{\"jsonrpc\":\"2.0\",\"id\":21,\"result\":{}}");
    state.storage.set_string(
        StorageProperty::AdditionalInfo,
        "{\"region\":\"west\"}".to_string(),
    );
    let reply = completed_reply(FireboltGateway::handle_frame(
        &mut state,
        "{\"jsonrpc\":\"2.0\",\"id\":22,\"method\":\"localization.additionalInfo\",\"params\":{}}",
        &session(),
    ));
    assert_eq!(reply, "{\"jsonrpc\":\"2.0\",\"id\":22,\"result\":{\"region\":\"west\"}}");
}

#[test]
fn registration_displaces_earlier_method() {
    let mut state = gateway_state();
    state
        .storage
        .set_string(StorageProperty::Locality, "here".to_string());
    state
        .storage
        .set_string(StorageProperty::Language, "de".to_string());
    // register a custom name for the locality getter, then displace it
    state.router_state.update_methods(vec![(
        "custom.read".to_string(),
        MethodEntry {
            kind: MethodKind::Async,
            weights: vec![],
            handler: RpcHandler::Localization(LocalizationMethod::Locality),
        },
    )]);
    state.router_state.update_methods(vec![(
        "custom.read".to_string(),
        MethodEntry {
            kind: MethodKind::Async,
            weights: vec![],
            handler: RpcHandler::Localization(LocalizationMethod::Language),
        },
    )]);
    let reply = completed_reply(FireboltGateway::handle_frame(
        &mut state,
        "{\"jsonrpc\":\"2.0\",\"id\":23,\"method\":\"custom.read\",\"params\":{}}",
        &session(),
    ));
    // the most recent registration answers; no phantom routing to the old one
    assert_eq!(reply, "{\"jsonrpc\":\"2.0\",\"id\":23,\"result\":\"de\"}");
}

#[test]
fn overweight_method_is_refused_at_registration() {
    let mut state = PlatformState::new();
    state.router_state.add_resource("cpu".to_string(), 1);
    state.router_state.update_methods(vec![(
        "heavy.call".to_string(),
        MethodEntry {
            kind: MethodKind::Async,
            weights: vec![("cpu".to_string(), 2)],
            handler: RpcHandler::Localization(LocalizationMethod::Locality),
        },
    )]);
    // the entry exceeded the cap and was refused: dispatch cannot find it
    let reply = completed_reply(FireboltGateway::handle_frame(
        &mut state,
        "{\"jsonrpc\":\"2.0\",\"id\":24,\"method\":\"heavy.call\",\"params\":{}}",
        &session(),
    ));
    assert_eq!(
        reply,
        "{\"jsonrpc\":\"2.0\",\"id\":24,\"error\":{\"code\":-32601,\"message\":\"Method not found\"}}"
    );
}

#[test]
fn weighted_method_dispatches_and_returns_its_claim() {
    let mut state = PlatformState::new();
    state.router_state.add_resource("cpu".to_string(), 1);
    state
        .storage
        .set_string(StorageProperty::Locality, "x".to_string());
    state.router_state.update_methods(vec![(
        "weighted.read".to_string(),
        MethodEntry {
            kind: MethodKind::Async,
            weights: vec![("cpu".to_string(), 1)],
            handler: RpcHandler::Localization(LocalizationMethod::Locality),
        },
    )]);
    // two consecutive dispatches both succeed: the claim is given back
    for id in [25u64, 26u64] {
        let frame = format!(
            "{{\"jsonrpc\":\"2.0\",\"id\":{},\"method\":\"weighted.read\",\"params\":{{}}}}",
            id
        );
        let reply = completed_reply(FireboltGateway::handle_frame(&mut state, &frame, &session()));
        assert_eq!(reply, format!("{{\"jsonrpc\":\"2.0\",\"id\":{},\"result\":\"x\"}}", id));
    }
}

#[test]
fn bridge_sessions_route_replies_to_their_container() {
    let mut state = gateway_state();
    state
        .storage
        .set_string(StorageProperty::Locality, "US-CA".to_string());
    let bridge_session = Session {
        session_id: "sess-2".to_string(),
        app_id: "app-b".to_string(),
        transport: EffectiveTransport::Bridge("container-9".to_string()),
    };
    let req = RpcRequest {
        method: "localization.locality".to_string(),
        params: ripple_gateway::json::JsonValue::Obj(vec![]),
        ctx: CallContext {
            session_id: "sess-2".to_string(),
            request_id: "r-1".to_string(),
            app_id: "app-b".to_string(),
            call_id: 27,
            protocol: ApiProtocol::Bridge,
            method: "localization.locality".to_string(),
        },
    };
    let (outcome, delivery) = RpcRouter::route(&mut state, &req, &bridge_session);
    match delivery {
        Delivery::Bridge(container) => assert_eq!(container, "container-9"),
        Delivery::Websocket => panic!("a bridge session's reply must go to its container"),
    }
    match outcome {
        RouteOutcome::Completed { message, .. } => {
            assert_eq!(message.jsonrpc_msg, "{\"jsonrpc\":\"2.0\",\"id\":27,\"result\":\"US-CA\"}");
        }
        _ => panic!("expected a completed dispatch"),
    }
}

#[test]
fn extension_originated_calls_reply_on_the_bus() {
    let mut state = gateway_state();
    state
        .storage
        .set_string(StorageProperty::Locality, "US-CA".to_string());
    let req = RpcRequest {
        method: "localization.locality".to_string(),
        params: JsonValue::Obj(vec![]),
        ctx: CallContext {
            session_id: "bus".to_string(),
            request_id: "r-9".to_string(),
            app_id: "peer_extn".to_string(),
            call_id: 30,
            protocol: ApiProtocol::Extn,
            method: "localization.locality".to_string(),
        },
    };
    let extn_msg = ExtnMessage {
        id: 77,
        requestor: "peer_extn".to_string(),
        target: RippleContract::Caps,
        payload: ExtnPayload::Request(ExtnRequest::AuthorizedInfo(CapsRequest::Supported(vec![]))),
        callback: Some(77),
    };
    match RpcRouter::route_extn_protocol(&mut state, &req, extn_msg) {
        ExtnRouteOutcome::Reply { message: m, result } => {
            assert!(result.is_ok());
            assert_eq!(m.id, 77);
            assert!(m.callback.is_none());
            match m.payload {
                ExtnPayload::Response(ExtnResponse::Value(JsonValue::Str(s))) => {
                    assert_eq!(s, "US-CA");
                }
                _ => panic!("the handler's result must come back as a bus value"),
            }
        }
        _ => panic!("a well-shaped bus request must be answered"),
    }
}

#[test]
fn extension_calls_without_a_return_channel_are_dropped() {
    let mut state = gateway_state();
    let req = RpcRequest {
        method: "localization.locality".to_string(),
        params: JsonValue::Obj(vec![]),
        ctx: CallContext {
            session_id: "bus".to_string(),
            request_id: "r-10".to_string(),
            app_id: "peer_extn".to_string(),
            call_id: 31,
            protocol: ApiProtocol::Extn,
            method: "localization.locality".to_string(),
        },
    };
    // not a request at all
    let not_request = ExtnMessage {
        id: 78,
        requestor: "peer_extn".to_string(),
        target: RippleContract::Caps,
        payload: ExtnPayload::Response(ExtnResponse::Empty),
        callback: None,
    };
    assert!(matches!(
        RpcRouter::route_extn_protocol(&mut state, &req, not_request),
        ExtnRouteOutcome::Dropped
    ));
}

#[test]
fn extension_calls_to_unknown_methods_get_the_error_object() {
    let mut state = gateway_state();
    let req = RpcRequest {
        method: "bogus.op".to_string(),
        params: JsonValue::Obj(vec![]),
        ctx: CallContext {
            session_id: "bus".to_string(),
            request_id: "r-11".to_string(),
            app_id: "peer_extn".to_string(),
            call_id: 32,
            protocol: ApiProtocol::Extn,
            method: "bogus.op".to_string(),
        },
    };
    let extn_msg = ExtnMessage {
        id: 79,
        requestor: "peer_extn".to_string(),
        target: RippleContract::Caps,
        payload: ExtnPayload::Request(ExtnRequest::AuthorizedInfo(CapsRequest::Supported(vec![]))),
        callback: Some(79),
    };
    match RpcRouter::route_extn_protocol(&mut state, &req, extn_msg) {
        ExtnRouteOutcome::Reply { message: m, .. } => match m.payload {
            ExtnPayload::Response(ExtnResponse::Value(v)) => {
                assert_eq!(
                    encode_json(&v),
                    "{\"code\":-32601,\"message\":\"Method not found\"}"
                );
            }
            _ => panic!("the error must come back as a bus value"),
        },
        _ => panic!("an unknown method still answers on the bus"),
    }
}
