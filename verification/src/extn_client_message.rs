//! Messages carried by the in-process extension bus.
//!
//! A message is a tagged record: a correlation id, the requesting
//! extension, the targeted capability contract, a payload that is a
//! request, a response or an event, and an optional single-shot return
//! channel.  A request always carries a return channel; a response and
//! an event never do.  Messages that violate these rules are dropped by
//! the envelope decoder, never answered.

use vstd::prelude::*;
use crate::RippleError;
use crate::caps::CapsRequest;
use crate::device_info_request::DeviceResponse;
use crate::device_request::{DeviceRequest, SystemPowerState};
use crate::distributor_permissions::{FireboltPermission, PermissionRequest};
use crate::fb_advertising::{AdvertisingRequest, AdvertisingResponse};
use crate::json::{json_eq, JsonValue};
use crate::ripple_contract::RippleContract;

verus! {

/// A request payload, tagged by the contract family it belongs to.
#[derive(Clone, Debug)]
pub enum ExtnRequest {
    Device(DeviceRequest),
    AuthorizedInfo(CapsRequest),
    Permission(PermissionRequest),
    Advertising(AdvertisingRequest),
}

/// A response payload.
#[derive(Clone, Debug)]
pub enum ExtnResponse {
    Empty,
    Boolean(bool),
    String(String),
    Value(JsonValue),
    AvailableTimezones(Vec<String>),
    Permission(Vec<FireboltPermission>),
    Advertising(AdvertisingResponse),
    Device(DeviceResponse),
    Error(RippleError),
}

/// An application-facing event emitted through the bus.
#[derive(Debug)]
pub struct AppEvent {
    pub event_name: String,
    pub result: JsonValue,
    pub context: Option<JsonValue>,
    pub app_id: Option<String>,
}

/// A request to the application event fan-out.
#[derive(Debug)]
pub enum AppEventRequest {
    Emit(AppEvent),
}

/// The readiness of an extension, broadcast on status changes.
#[derive(Clone, Copy, Debug, PartialEq, Eq, Structural)]
pub enum ExtnStatus {
    Ready,
    Error,
}

/// An event payload.
#[derive(Debug)]
pub enum ExtnEvent {
    AppEvent(AppEventRequest),
    PowerState(SystemPowerState),
    Value(JsonValue),
    Status(ExtnStatus),
}

/// The payload of a bus message.
#[derive(Debug)]
pub enum ExtnPayload {
    Request(ExtnRequest),
    Response(ExtnResponse),
    Event(ExtnEvent),
}

/// A message travelling on the extension bus.
#[derive(Debug)]
pub struct ExtnMessage {
    /// Correlation id, unique per in-flight request.
    pub id: u64,
    /// The extension the message originates from.
    pub requestor: String,
    /// The capability contract the message targets.
    pub target: RippleContract,
    pub payload: ExtnPayload,
    /// The single-shot return channel, present exactly on requests.
    pub callback: Option<u64>,
}

/// The envelope handed to the process-local transport.
#[derive(Debug)]
pub struct ExtnEnvelope {
    pub id: u64,
    pub requestor: String,
    pub target: RippleContract,
    pub payload: ExtnPayload,
    pub callback: Option<u64>,
}

/// The message shape rules: a request carries a return channel, a
/// response answers a correlation id and carries none, an event carries
/// none.
pub open spec fn spec_valid_message(msg: ExtnMessage) -> bool {
    match msg.payload {
        ExtnPayload::Request(_) => msg.callback is Some,
        ExtnPayload::Response(_) => msg.callback is None,
        ExtnPayload::Event(_) => msg.callback is None,
    }
}

impl ExtnMessage {
    /// Whether this message obeys the shape rules.
    pub fn is_valid(&self) -> (r: bool)
        ensures
            r == spec_valid_message(*self),
    {
        match self.payload {
            ExtnPayload::Request(_) => self.callback.is_some(),
            ExtnPayload::Response(_) => self.callback.is_none(),
            ExtnPayload::Event(_) => self.callback.is_none(),
        }
    }

    /// Turns a request message into its response message: the same
    /// correlation id, requestor and target, the given response payload,
    /// and no return channel.  Anything but a request is refused.
    pub fn get_response(self, response: ExtnResponse) -> (r: Result<ExtnMessage, RippleError>)
        ensures
            match r {
                Ok(m) => self.payload is Request && m == (ExtnMessage {
                    payload: ExtnPayload::Response(response),
                    callback: None,
                    ..self
                }),
                Err(e) => !(self.payload is Request) && e == RippleError::InvalidInput,
            },
    {
        match self.payload {
            ExtnPayload::Request(_) => Ok(ExtnMessage {
                id: self.id,
                requestor: self.requestor,
                target: self.target,
                payload: ExtnPayload::Response(response),
                callback: None,
            }),
            _ => Err(RippleError::InvalidInput),
        }
    }
}

/// Packs a message into the transport envelope.
pub fn encode_extn_message(msg: ExtnMessage) -> (r: ExtnEnvelope)
    ensures
        r == (ExtnEnvelope {
            id: msg.id,
            requestor: msg.requestor,
            target: msg.target,
            payload: msg.payload,
            callback: msg.callback,
        }),
{
    ExtnEnvelope {
        id: msg.id,
        requestor: msg.requestor,
        target: msg.target,
        payload: msg.payload,
        callback: msg.callback,
    }
}

/// Unpacks an envelope, dropping any message that violates the shape
/// rules.
pub fn decode_extn_message(env: ExtnEnvelope) -> (r: Option<ExtnMessage>)
    ensures
        ({
            let msg = ExtnMessage {
                id: env.id,
                requestor: env.requestor,
                target: env.target,
                payload: env.payload,
                callback: env.callback,
            };
            if spec_valid_message(msg) {
                r == Some(msg)
            } else {
                r is None
            }
        }),
{
    let msg = ExtnMessage {
        id: env.id,
        requestor: env.requestor,
        target: env.target,
        payload: env.payload,
        callback: env.callback,
    };
    if msg.is_valid() {
        Some(msg)
    } else {
        None
    }
}

/// Every well-shaped message survives the envelope round trip unchanged,
/// and every ill-shaped one is dropped by the decoder.
pub proof fn lemma_envelope_round_trip(msg: ExtnMessage)
    ensures
        spec_valid_message(msg) ==> ({
            let env = ExtnEnvelope {
                id: msg.id,
                requestor: msg.requestor,
                target: msg.target,
                payload: msg.payload,
                callback: msg.callback,
            };
            msg == (ExtnMessage {
                id: env.id,
                requestor: env.requestor,
                target: env.target,
                payload: env.payload,
                callback: env.callback,
            })
        }),
{
}

/// Content equality of two optional JSON documents.
pub open spec fn same_opt_json(a: Option<JsonValue>, b: Option<JsonValue>) -> bool {
    match (a, b) {
        (Option::None, Option::None) => true,
        (Option::Some(x), Option::Some(y)) => x.deep_view() == y.deep_view(),
        _ => false,
    }
}

/// Content equality of two optional strings.
pub open spec fn same_opt_string(a: Option<String>, b: Option<String>) -> bool {
    match (a, b) {
        (Option::None, Option::None) => true,
        (Option::Some(x), Option::Some(y)) => x@ == y@,
        _ => false,
    }
}

/// Content equality of two application events.
pub open spec fn same_app_event(a: AppEvent, b: AppEvent) -> bool {
    a.event_name@ == b.event_name@ && a.result.deep_view() == b.result.deep_view()
        && same_opt_json(a.context, b.context) && same_opt_string(a.app_id, b.app_id)
}

/// Content equality of two event payloads: what "byte-identical encoded
/// payloads" means for the de-duplication cache.
pub open spec fn same_event(a: ExtnEvent, b: ExtnEvent) -> bool {
    match (a, b) {
        (ExtnEvent::AppEvent(AppEventRequest::Emit(x)), ExtnEvent::AppEvent(AppEventRequest::Emit(y))) =>
            same_app_event(x, y),
        (ExtnEvent::PowerState(x), ExtnEvent::PowerState(y)) => x == y,
        (ExtnEvent::Value(x), ExtnEvent::Value(y)) => x.deep_view() == y.deep_view(),
        (ExtnEvent::Status(x), ExtnEvent::Status(y)) => x == y,
        _ => false,
    }
}

fn opt_json_eq(a: &Option<JsonValue>, b: &Option<JsonValue>) -> (r: bool)
    ensures
        r == same_opt_json(*a, *b),
{
    match (a, b) {
        (Option::None, Option::None) => true,
        (Option::Some(x), Option::Some(y)) => json_eq(x, y),
        _ => false,
    }
}

fn opt_string_eq(a: &Option<String>, b: &Option<String>) -> (r: bool)
    ensures
        r == same_opt_string(*a, *b),
{
    match (a, b) {
        (Option::None, Option::None) => true,
        (Option::Some(x), Option::Some(y)) => crate::json::str_eq(x.as_str(), y.as_str()),
        _ => false,
    }
}

/// Content equality of two event payloads.
pub fn extn_event_eq(a: &ExtnEvent, b: &ExtnEvent) -> (r: bool)
    ensures
        r == same_event(*a, *b),
{
    match (a, b) {
        (ExtnEvent::AppEvent(AppEventRequest::Emit(x)), ExtnEvent::AppEvent(AppEventRequest::Emit(y))) => {
            crate::json::str_eq(x.event_name.as_str(), y.event_name.as_str())
                && json_eq(&x.result, &y.result) && opt_json_eq(&x.context, &y.context)
                && opt_string_eq(&x.app_id, &y.app_id)
        },
        (ExtnEvent::PowerState(x), ExtnEvent::PowerState(y)) => x == y,
        (ExtnEvent::Value(x), ExtnEvent::Value(y)) => json_eq(x, y),
        (ExtnEvent::Status(x), ExtnEvent::Status(y)) => x == y,
        _ => false,
    }
}

impl Clone for AppEvent {
    /// Cloning preserves the content of the event.
    fn clone(&self) -> (r: AppEvent)
        ensures
            same_app_event(r, *self),
    {
        let context = match &self.context {
            Option::Some(v) => Some(v.clone()),
            Option::None => None,
        };
        let app_id = match &self.app_id {
            Option::Some(s) => Some(s.clone()),
            Option::None => None,
        };
        AppEvent {
            event_name: self.event_name.clone(),
            result: self.result.clone(),
            context,
            app_id,
        }
    }
}

impl Clone for ExtnEvent {
    /// Cloning preserves the content of the event payload.
    fn clone(&self) -> (r: ExtnEvent)
        ensures
            same_event(r, *self),
    {
        match self {
            ExtnEvent::AppEvent(AppEventRequest::Emit(a)) =>
                ExtnEvent::AppEvent(AppEventRequest::Emit(a.clone())),
            ExtnEvent::PowerState(p) => ExtnEvent::PowerState(*p),
            ExtnEvent::Value(v) => ExtnEvent::Value(v.clone()),
            ExtnEvent::Status(s) => ExtnEvent::Status(*s),
        }
    }
}

} // verus!
