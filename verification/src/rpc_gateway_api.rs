//! Types travelling with a routed JSON-RPC call: the call context, the
//! request, the framed reply, and the session it returns to.

use vstd::prelude::*;
use crate::json::JsonValue;

verus! {

/// How a call reached the gateway.
#[derive(Clone, Copy, Debug, PartialEq, Eq, Structural)]
pub enum ApiProtocol {
    JsonRpc,
    Bridge,
    Extn,
}

/// Travels with every routed call.
#[derive(Clone, Debug)]
pub struct CallContext {
    pub session_id: String,
    pub request_id: String,
    pub app_id: String,
    /// Monotonically increasing, unique per session only.
    pub call_id: u64,
    pub protocol: ApiProtocol,
    pub method: String,
}

/// A JSON-RPC request resolved against the method table.
#[derive(Clone, Debug)]
pub struct RpcRequest {
    pub method: String,
    pub params: JsonValue,
    pub ctx: CallContext,
}

/// A framed reply on its way back to the session's transport.
#[derive(Clone, Debug)]
pub struct ApiMessage {
    pub protocol: ApiProtocol,
    pub jsonrpc_msg: String,
    pub request_id: String,
}

impl ApiMessage {
    /// Builds a framed reply.
    pub fn new(protocol: ApiProtocol, jsonrpc_msg: String, request_id: String) -> (r: ApiMessage)
        ensures
            r.protocol == protocol,
            r.jsonrpc_msg == jsonrpc_msg,
            r.request_id == request_id,
    {
        ApiMessage { protocol, jsonrpc_msg, request_id }
    }
}

/// The parts of a JSON-RPC response frame.
#[derive(Debug)]
pub struct JsonRpcApiResponse {
    pub id: u64,
    pub result: Option<JsonValue>,
    pub error: Option<JsonValue>,
}

/// Where a session's replies are delivered.
#[derive(Clone, Debug)]
pub enum EffectiveTransport {
    Websocket,
    Bridge(String),
}

/// A connected client bound to one application identity.
#[derive(Clone, Debug)]
pub struct Session {
    pub session_id: String,
    pub app_id: String,
    pub transport: EffectiveTransport,
}

impl Session {
    /// The transport replies to this session leave on.
    pub fn get_transport(&self) -> (r: &EffectiveTransport)
        ensures
            r == &self.transport,
    {
        &self.transport
    }
}

/// Asks to start or stop listening for an event.
#[derive(Clone, Copy, Debug, PartialEq, Eq, Structural)]
pub struct ListenRequest {
    pub listen: bool,
}

/// Confirms the listening state for an event.
#[derive(Clone, Debug)]
pub struct ListenerResponse {
    pub listening: bool,
    pub event: String,
}

} // verus!
