//! The per-session gateway: accepts a JSON-RPC text frame, resolves it
//! through the router, and frames the single reply for the session's
//! transport.

use vstd::prelude::*;
use crate::json::{parse_json_text, parsed_json, JsonValS, JsonValue};
use crate::platform_state::PlatformState;
use crate::rpc_gateway_api::{ApiProtocol, CallContext, RpcRequest, Session};
use crate::rpc_router::{resolve_route, spec_can_claim, spec_method_lookup, spec_reply_text,
    RouteOutcome, RpcHandler, MAX_CALL_ID};
use crate::localization_rpc::{spec_dispatch_post, DispatchOutcome, CODE_METHOD_NOT_FOUND};

verus! {

/// What the gateway got out of one frame.
#[derive(Debug)]
pub enum FrameOutcome {
    /// The frame was a call; here is where its dispatch ended.
    Routed(RouteOutcome),
    /// The frame was not a well-formed call object and was dropped.
    Invalid,
}

/// The call a well-formed JSON-RPC frame denotes: its id, its method,
/// and its params (an empty object when absent).  The frame must name
/// the protocol version, its id must be an integral the framer can echo,
/// and its method must be a string.
pub open spec fn spec_frame_call(v: JsonValS) -> Option<(int, Seq<char>, JsonValS)> {
    match v {
        JsonValS::Obj(entries) => {
            if crate::json::spec_obj_get(entries, "jsonrpc"@) != Some(JsonValS::Str("2.0"@)) {
                None
            } else {
                match (crate::json::spec_obj_get(entries, "id"@),
                       crate::json::spec_obj_get(entries, "method"@)) {
                    (Some(JsonValS::Int(id)), Some(JsonValS::Str(m))) => {
                        if 0 <= id <= MAX_CALL_ID {
                            let params = match crate::json::spec_obj_get(entries, "params"@) {
                                Some(p) => p,
                                None => JsonValS::Obj(Seq::empty()),
                            };
                            Some((id, m, params))
                        } else {
                            None
                        }
                    },
                    _ => None,
                }
            }
        },
        _ => None,
    }
}

/// The per-session acceptor.
#[derive(Debug)]
pub struct FireboltGateway;

impl FireboltGateway {
    /// Handles one text frame from a session: parses it, routes the
    /// call, and returns where the dispatch ended; a frame that is not
    /// a well-formed call is dropped.
    pub fn handle_frame(state: &mut PlatformState, text: &str, session: &Session)
        -> (r: FrameOutcome)
        requires
            old(state).router_state.wf(),
        ensures
            final(state).router_state.wf(),
            final(state).router_state.methods_view() == old(state).router_state.methods_view(),
            final(state).extn_client == old(state).extn_client,
            match parsed_json(text@) {
                None => r is Invalid && *final(state) == *old(state),
                Some(v) => match spec_frame_call(v) {
                    None => r is Invalid && *final(state) == *old(state),
                    Some((id, method, params)) => {
                        &&& r matches FrameOutcome::Routed(out)
                        &&& (out matches RouteOutcome::Completed { message, result }
                            ==> message.jsonrpc_msg@ == spec_reply_text(id, result)
                                && message.protocol == session_protocol()
                                && message.request_id == session.session_id)
                        &&& (spec_method_lookup(
                                old(state).router_state.methods_view(), method) is None
                            ==> (out matches RouteOutcome::Completed { message, result }
                                && (result matches Err(e) && e.code == CODE_METHOD_NOT_FOUND)))
                        &&& match spec_method_lookup(
                            old(state).router_state.methods_view(), method) {
                            Some(entry) => spec_can_claim(
                                old(state).router_state.resources_view(), entry.weights@)
                                ==> (entry.handler matches RpcHandler::Localization(m)
                                    && (r matches FrameOutcome::Routed(out2)
                                        && spec_dispatch_post(
                                            m,
                                            *old(state),
                                            *final(state),
                                            session.app_id,
                                            id as u64,
                                            session.session_id,
                                            session_protocol(),
                                            params,
                                            match out2 {
                                                RouteOutcome::Completed { message: _, result }
                                                    => DispatchOutcome::Done(result),
                                                RouteOutcome::Suspended(pc)
                                                    => DispatchOutcome::Pending(pc),
                                            },
                                        ))),
                            None => true,
                        }
                    },
                },
            },
    {
        let parsed = match parse_json_text(text) {
            Some(v) => v,
            None => {
                return FrameOutcome::Invalid;
            },
        };
        proof {
            reveal_strlit("jsonrpc");
            reveal_strlit("2.0");
            reveal_strlit("id");
            reveal_strlit("method");
            reveal_strlit("params");
        }
        let version_ok = match parsed.get("jsonrpc") {
            Some(v) => match v.as_str() {
                Some(s) => crate::json::str_eq(s.as_str(), "2.0"),
                None => false,
            },
            None => false,
        };
        if !version_ok {
            return FrameOutcome::Invalid;
        }
        let id = match parsed.get("id") {
            Some(v) => match v.as_int() {
                Some(i) => i,
                None => {
                    return FrameOutcome::Invalid;
                },
            },
            None => {
                return FrameOutcome::Invalid;
            },
        };
        if id < 0 {
            return FrameOutcome::Invalid;
        }
        let method = match parsed.get("method") {
            Some(v) => match v.as_str() {
                Some(s) => s.clone(),
                None => {
                    return FrameOutcome::Invalid;
                },
            },
            None => {
                return FrameOutcome::Invalid;
            },
        };
        let params = match parsed.get("params") {
            Some(p) => p.clone(),
            None => JsonValue::Obj(Vec::new()),
        };
        let ctx = CallContext {
            session_id: session.session_id.clone(),
            request_id: session.session_id.clone(),
            app_id: session.app_id.clone(),
            call_id: id as u64,
            protocol: ApiProtocol::JsonRpc,
            method: method.clone(),
        };
        let req = RpcRequest { method, params, ctx };
        FrameOutcome::Routed(resolve_route(state, &req))
    }
}

/// The protocol gateway frames carry: plain JSON-RPC.
pub open spec fn session_protocol() -> ApiProtocol {
    ApiProtocol::JsonRpc
}

} // verus!
