//! The localization API handlers: string properties answered from local
//! storage, listener registration, and the time-zone methods that call
//! out to the device-information contract over the bus.
//!
//! Handlers that need the bus suspend instead of awaiting: they hand
//! back the device-information request to issue and a continuation; the
//! caller resumes them with the bus response.  Everything else completes
//! inline.

use vstd::prelude::*;
use crate::device_info_request::DeviceInfoRequest;
use crate::extn_client_message::ExtnResponse;
use crate::json::{jv, spec_obj_get, str_eq, JsonValS, JsonValue};
use crate::platform_state::{spec_listening, spec_unlisten, PlatformState};
use crate::rpc_gateway_api::{ApiProtocol, CallContext, ListenRequest, ListenerResponse};
use crate::storage_manager::{spec_namespace_lookup, spec_storage_lookup, StorageProperty};

verus! {

/// The event name announced when the device time zone changes.
pub const EVENT_TIMEZONE_CHANGED: &'static str = "localization.onTimeZoneChanged";

/// The namespaced key a per-application postal code is stored under.
pub const KEY_POSTAL_CODE: &'static str = "postalCode";

/// The JSON-RPC error code for a method the table cannot route.
pub const CODE_METHOD_NOT_FOUND: i64 = -32601;

/// The JSON-RPC error code for parameters that fail validation.
pub const CODE_INVALID_PARAMS: i64 = -32602;

/// The JSON-RPC error code for handler-reported failures.
pub const CODE_CUSTOM_ERROR: i64 = -32000;

/// The JSON-RPC error code for an unavailable stored property.
pub const CODE_PROPERTY_UNAVAILABLE: i64 = -32100;

/// A JSON-RPC error object: a code and a message.
#[derive(Clone, Debug)]
pub struct RpcError {
    pub code: i64,
    pub message: String,
}

impl RpcError {
    /// The error answering an unroutable method.
    pub fn method_not_found() -> (r: RpcError)
        ensures
            r.code == CODE_METHOD_NOT_FOUND,
            r.message@ == "Method not found"@,
    {
        RpcError { code: CODE_METHOD_NOT_FOUND, message: String::from_str("Method not found") }
    }

    /// The error answering malformed parameters.
    pub fn invalid_params() -> (r: RpcError)
        ensures
            r.code == CODE_INVALID_PARAMS,
            r.message@ == "Invalid parameters"@,
    {
        RpcError { code: CODE_INVALID_PARAMS, message: String::from_str("Invalid parameters") }
    }

    /// A handler-reported failure with its message.
    pub fn custom(message: String) -> (r: RpcError)
        ensures
            r.code == CODE_CUSTOM_ERROR,
            r.message == message,
    {
        RpcError { code: CODE_CUSTOM_ERROR, message }
    }
}

/// A localization method, as the router's method table tags it.
#[derive(Clone, Copy, Debug, PartialEq, Eq, Structural)]
pub enum LocalizationMethod {
    Locality,
    SetLocality,
    OnLocalityChanged,
    CountryCode,
    SetCountryCode,
    OnCountryCodeChanged,
    Language,
    SetLanguage,
    OnLanguageChanged,
    PostalCode,
    SetPostalCode,
    OnPostalCodeChanged,
    Locale,
    SetLocale,
    OnLocaleChanged,
    Latlon,
    SetLatlon,
    OnLatlonChanged,
    AdditionalInfo,
    SetAdditionalInfo,
    OnAdditionalInfoChanged,
    SetTimeZone,
    TimeZone,
    OnTimeZoneChanged,
}

/// The step a suspended time-zone call resumes at.
#[derive(Clone, Debug)]
pub enum ContStep {
    /// Waiting for the available time zones before setting one.
    TimezoneSetValidate { value: String },
    /// Waiting for the acknowledgement of the time-zone write.
    TimezoneSetFinish { value: String },
    /// Waiting for the current time zone.
    TimezoneGet,
}

/// Everything a suspended call needs to resume and to frame its reply.
#[derive(Clone, Debug)]
pub struct Continuation {
    pub step: ContStep,
    pub call_id: u64,
    pub request_id: String,
    pub protocol: ApiProtocol,
    pub app_id: String,
}

/// A bus call a handler asks the router to issue on its behalf.
#[derive(Clone, Debug)]
pub struct PendingCall {
    pub request: DeviceInfoRequest,
    pub cont: Continuation,
}

/// What a handler produced.
#[derive(Debug)]
pub enum DispatchOutcome {
    /// The handler answered inline.
    Done(Result<JsonValue, RpcError>),
    /// The handler waits for a bus response.
    Pending(PendingCall),
}

/// The `value` string parameter of a setter call.
pub open spec fn spec_param_value(p: JsonValS) -> Option<Seq<char>> {
    match p {
        JsonValS::Obj(entries) => match spec_obj_get(entries, "value"@) {
            Some(JsonValS::Str(s)) => Some(s),
            _ => None,
        },
        _ => None,
    }
}

/// The `listen` flag parameter of a listener call.
pub open spec fn spec_param_listen(p: JsonValS) -> Option<bool> {
    match p {
        JsonValS::Obj(entries) => match spec_obj_get(entries, "listen"@) {
            Some(JsonValS::Bool(b)) => Some(b),
            _ => None,
        },
        _ => None,
    }
}

/// Extracts the `value` string parameter.
pub fn value_param(params: &JsonValue) -> (r: Option<String>)
    ensures
        match r {
            Some(s) => spec_param_value(params.deep_view()) == Some(s@),
            None => spec_param_value(params.deep_view()) is None,
        },
{
    proof {
        reveal_strlit("value");
    }
    match params.get("value") {
        Some(v) => match v.as_str() {
            Some(s) => Some(s.clone()),
            None => None,
        },
        None => None,
    }
}

/// Extracts the `listen` flag parameter.
pub fn listen_param(params: &JsonValue) -> (r: Option<bool>)
    ensures
        match r {
            Some(b) => spec_param_listen(params.deep_view()) == Some(b),
            None => spec_param_listen(params.deep_view()) is None,
        },
{
    proof {
        reveal_strlit("listen");
    }
    match params.get("listen") {
        Some(v) => v.as_bool(),
        None => None,
    }
}

/// The message of the error answering an unavailable property.
pub open spec fn spec_prop_error_message(p: StorageProperty) -> Seq<char> {
    match p {
        StorageProperty::Locality => "locality is not available"@,
        StorageProperty::CountryCode => "countryCode is not available"@,
        StorageProperty::Language => "language is not available"@,
        StorageProperty::PostalCode => "postalCode is not available"@,
        StorageProperty::Locale => "locale is not available"@,
        StorageProperty::LatLon => "latlon is not available"@,
        StorageProperty::AdditionalInfo => "additionalInfo is not available"@,
    }
}

fn prop_error(p: StorageProperty) -> (r: RpcError)
    ensures
        r.code == CODE_PROPERTY_UNAVAILABLE,
        r.message@ == spec_prop_error_message(p),
{
    let message = match p {
        StorageProperty::Locality => String::from_str("locality is not available"),
        StorageProperty::CountryCode => String::from_str("countryCode is not available"),
        StorageProperty::Language => String::from_str("language is not available"),
        StorageProperty::PostalCode => String::from_str("postalCode is not available"),
        StorageProperty::Locale => String::from_str("locale is not available"),
        StorageProperty::LatLon => String::from_str("latlon is not available"),
        StorageProperty::AdditionalInfo => String::from_str("additionalInfo is not available"),
    };
    RpcError { code: CODE_PROPERTY_UNAVAILABLE, message }
}

/// The JSON body of a listener confirmation.
pub open spec fn spec_listener_response(listening: bool, event: Seq<char>) -> JsonValS {
    JsonValS::Obj(
        seq![("listening"@, JsonValS::Bool(listening)), ("event"@, JsonValS::Str(event))],
    )
}

fn listener_response_json(listening: bool, event: &str) -> (r: JsonValue)
    ensures
        r.deep_view() == spec_listener_response(listening, event@),
{
    let mut entries: Vec<(String, JsonValue)> = Vec::new();
    entries.push((String::from_str("listening"), JsonValue::Bool(listening)));
    entries.push((String::from_str("event"), JsonValue::Str(String::from_str(event))));
    let r = JsonValue::Obj(entries);
    proof {
        crate::json::lemma_jv_entries(r->Obj_0@);
        assert(jv(r)->Obj_0 =~= spec_listener_response(listening, event@)->Obj_0);
        assert(jv(r) == spec_listener_response(listening, event@));
    }
    r
}

/// Whether a string list holds `value`.
pub fn string_list_contains(list: &Vec<String>, value: &str) -> (r: bool)
    ensures
        r == exists|j: int| 0 <= j < list@.len() && list@[j]@ == value@,
{
    let mut i: usize = 0;
    while i < list.len()
        invariant
            0 <= i <= list@.len(),
            forall|j: int| 0 <= j < i ==> list@[j]@ != value@,
        decreases list@.len() - i,
    {
        if str_eq(list[i].as_str(), value) {
            return true;
        }
        i += 1;
    }
    false
}

} // verus!

verus! {

/// The two platform sub-states a localization handler never touches.
pub open spec fn spec_bus_router_unchanged(a: &PlatformState, b: &PlatformState) -> bool {
    a.extn_client == b.extn_client && a.router_state == b.router_state
}

/// The property a getter method reads, if it is a plain getter.
pub open spec fn spec_method_prop(m: LocalizationMethod) -> Option<StorageProperty> {
    match m {
        LocalizationMethod::Locality => Some(StorageProperty::Locality),
        LocalizationMethod::CountryCode => Some(StorageProperty::CountryCode),
        LocalizationMethod::Language => Some(StorageProperty::Language),
        LocalizationMethod::Locale => Some(StorageProperty::Locale),
        LocalizationMethod::Latlon => Some(StorageProperty::LatLon),
        _ => None,
    }
}

/// The property a setter method writes, if it is a plain setter.
pub open spec fn spec_method_set_prop(m: LocalizationMethod) -> Option<StorageProperty> {
    match m {
        LocalizationMethod::SetLocality => Some(StorageProperty::Locality),
        LocalizationMethod::SetCountryCode => Some(StorageProperty::CountryCode),
        LocalizationMethod::SetLanguage => Some(StorageProperty::Language),
        LocalizationMethod::SetPostalCode => Some(StorageProperty::PostalCode),
        LocalizationMethod::SetLocale => Some(StorageProperty::Locale),
        LocalizationMethod::SetLatlon => Some(StorageProperty::LatLon),
        LocalizationMethod::SetAdditionalInfo => Some(StorageProperty::AdditionalInfo),
        _ => None,
    }
}

/// The event a listener method subscribes to, if it is one.
pub open spec fn spec_method_event(m: LocalizationMethod) -> Option<Seq<char>> {
    match m {
        LocalizationMethod::OnLocalityChanged => Some("localization.onLocalityChanged"@),
        LocalizationMethod::OnCountryCodeChanged => Some("localization.onCountryCodeChanged"@),
        LocalizationMethod::OnLanguageChanged => Some("localization.onLanguageChanged"@),
        LocalizationMethod::OnPostalCodeChanged => Some("localization.onPostalCodeChanged"@),
        LocalizationMethod::OnLocaleChanged => Some("localization.onLocaleChanged"@),
        LocalizationMethod::OnLatlonChanged => Some("localization.onLatlonChanged"@),
        LocalizationMethod::OnAdditionalInfoChanged
            => Some("localization.onAdditionalInfoChanged"@),
        LocalizationMethod::OnTimeZoneChanged => Some("localization.onTimeZoneChanged"@),
        _ => None,
    }
}

/// Every value of a parsed additional-info object is a string.
pub open spec fn spec_obj_all_strings(entries: Seq<(Seq<char>, JsonValS)>) -> bool {
    forall|j: int| 0 <= j < entries.len() ==> (#[trigger] entries[j].1) is Str
}

/// The localization API, answered against the platform state.
#[derive(Debug)]
pub struct LocalizationImpl;

impl LocalizationImpl {
    /// Reads a stored property; absence is the property's error.
    pub fn get_property(state: &PlatformState, property: StorageProperty)
        -> (r: Result<String, RpcError>)
        ensures
            match r {
                Ok(s) => spec_storage_lookup(state.storage.props(), property) == Some(s@),
                Err(e) => spec_storage_lookup(state.storage.props(), property) is None
                    && e.code == CODE_PROPERTY_UNAVAILABLE
                    && e.message@ == spec_prop_error_message(property),
            },
    {
        match state.storage.get_string(property) {
            Ok(s) => Ok(s),
            Err(_) => Err(prop_error(property)),
        }
    }

    /// Writes a stored property; never fails.
    pub fn set_property(state: &mut PlatformState, property: StorageProperty, value: String)
        ensures
            spec_bus_router_unchanged(old(state), final(state)),
            final(state).listeners == old(state).listeners,
            spec_storage_lookup(final(state).storage.props(), property) == Some(value@),
            forall|p: StorageProperty| p != property
                ==> spec_storage_lookup(final(state).storage.props(), p)
                    == spec_storage_lookup(old(state).storage.props(), p),
            final(state).storage.namespaces() == old(state).storage.namespaces(),
    {
        state.storage.set_string(property, value);
    }

    /// The per-application postal code: the device-wide property, or the
    /// application's namespaced value as a fallback.
    pub fn postal_code(state: &PlatformState, app_id: String) -> (r: Option<String>)
        ensures
            match spec_storage_lookup(state.storage.props(), StorageProperty::PostalCode) {
                Some(v) => r matches Some(s) && s@ == v,
                None => match spec_namespace_lookup(
                    state.storage.namespaces(), app_id@, "postalCode"@) {
                    Some(v) => r matches Some(s) && s@ == v,
                    None => r is None,
                },
            },
    {
        proof {
            reveal_strlit("postalCode");
        }
        match state.storage.get_string(StorageProperty::PostalCode) {
            Ok(s) => Some(s),
            Err(_) => match state.storage.get_string_from_namespace(
                app_id.as_str(), KEY_POSTAL_CODE) {
                Ok(s) => Some(s),
                Err(_) => None,
            },
        }
    }

    /// The stored additional info, decoded as a flat string map; an
    /// empty map when nothing is stored, an error when the stored text
    /// is not such a map.
    #[verifier::loop_isolation(false)]
    pub fn additional_info(state: &PlatformState) -> (r: Result<JsonValue, RpcError>)
        ensures
            match spec_storage_lookup(state.storage.props(), StorageProperty::AdditionalInfo) {
                None => r matches Ok(v)
                    && v.deep_view() == JsonValS::Obj(Seq::<(Seq<char>, JsonValS)>::empty()),
                Some(s) => match crate::json::parsed_json(s) {
                    Some(JsonValS::Obj(entries)) => {
                        if spec_obj_all_strings(entries) {
                            r matches Ok(v) && v.deep_view() == JsonValS::Obj(entries)
                        } else {
                            r matches Err(e) && e.code == CODE_CUSTOM_ERROR
                                && e.message@ == "additionalInfo is not valid"@
                        }
                    },
                    _ => r matches Err(e) && e.code == CODE_CUSTOM_ERROR
                        && e.message@ == "additionalInfo is not valid"@,
                },
            },
    {
        let stored = match state.storage.get_string(StorageProperty::AdditionalInfo) {
            Ok(s) => s,
            Err(_) => {
                return Ok(JsonValue::Obj(Vec::new()));
            },
        };
        match crate::json::parse_json_text(stored.as_str()) {
            Some(JsonValue::Obj(entries)) => {
                proof {
                    crate::json::lemma_jv_entries(entries@);
                }
                let mut i: usize = 0;
                while i < entries.len()
                    invariant
                        0 <= i <= entries@.len(),
                        forall|j: int| 0 <= j < i
                            ==> (#[trigger] crate::json::jv_entries(entries@)[j].1) is Str,
                        crate::json::jv_entries(entries@).len() == entries@.len(),
                        forall|j: int| 0 <= j < entries@.len()
                            ==> #[trigger] crate::json::jv_entries(entries@)[j]
                                == (entries@[j].0@, jv(entries@[j].1)),
                    decreases entries@.len() - i,
                {
                    match &entries[i] {
                        (_, JsonValue::Str(_)) => {},
                        _ => {
                            proof {
                                assert(!(crate::json::jv_entries(entries@)[i as int].1 is Str));
                                assert(!spec_obj_all_strings(crate::json::jv_entries(entries@)));
                            }
                            return Err(RpcError::custom(
                                String::from_str("additionalInfo is not valid")));
                        },
                    }
                    i += 1;
                }
                proof {
                    assert(spec_obj_all_strings(crate::json::jv_entries(entries@)));
                }
                Ok(JsonValue::Obj(entries))
            },
            _ => Err(RpcError::custom(String::from_str("additionalInfo is not valid"))),
        }
    }

    /// Registers or removes an application-event listener and confirms
    /// the resulting listening state.
    pub fn on_request_app_event(
        state: &mut PlatformState,
        ctx: &CallContext,
        request: ListenRequest,
        event_name: &str,
    ) -> (r: Result<ListenerResponse, RpcError>)
        ensures
            spec_bus_router_unchanged(old(state), final(state)),
            final(state).storage == old(state).storage,
            r matches Ok(resp) && resp.listening == request.listen && resp.event@ == event_name@,
            request.listen ==> spec_listening(
                final(state).listeners.entries_view(), event_name@, ctx.app_id@)
                && forall|e: Seq<char>, a: Seq<char>| !(e == event_name@ && a == ctx.app_id@)
                    ==> spec_listening(final(state).listeners.entries_view(), e, a)
                        == spec_listening(old(state).listeners.entries_view(), e, a),
            !request.listen ==> final(state).listeners.entries_view()
                == spec_unlisten(old(state).listeners.entries_view(), event_name@, ctx.app_id@)
                && !spec_listening(final(state).listeners.entries_view(), event_name@, ctx.app_id@),
    {
        if request.listen {
            state.listeners.listen(String::from_str(event_name), ctx.app_id.clone());
        } else {
            state.listeners.unlisten(event_name, ctx.app_id.as_str());
            proof {
                crate::platform_state::law_unlisten_idempotent(
                    old(state).listeners.entries_view(), event_name@, ctx.app_id@);
            }
        }
        Ok(ListenerResponse { listening: request.listen, event: String::from_str(event_name) })
    }

    /// Begins a time-zone write: the set value is validated against the
    /// device's available time zones before anything is written.
    pub fn timezone_set(ctx: &CallContext, value: String) -> (r: PendingCall)
        ensures
            r.request == DeviceInfoRequest::GetAvailableTimezones,
            r.cont.step matches ContStep::TimezoneSetValidate { value: v } && v == value,
            r.cont.call_id == ctx.call_id,
            r.cont.request_id == ctx.request_id,
            r.cont.protocol == ctx.protocol,
            r.cont.app_id == ctx.app_id,
    {
        PendingCall {
            request: DeviceInfoRequest::GetAvailableTimezones,
            cont: Continuation {
                step: ContStep::TimezoneSetValidate { value },
                call_id: ctx.call_id,
                request_id: ctx.request_id.clone(),
                protocol: ctx.protocol,
                app_id: ctx.app_id.clone(),
            },
        }
    }

    /// Validates a requested time zone against the reported available
    /// ones: on success the write request to issue, otherwise the error
    /// — and no write is ever issued for an unsupported zone.
    pub fn timezone_set_validate(response: Result<ExtnResponse, crate::RippleError>, value: &String)
        -> (r: Result<DeviceInfoRequest, RpcError>)
        ensures
            match response {
                Ok(ExtnResponse::AvailableTimezones(tzs)) => {
                    if exists|j: int| 0 <= j < tzs@.len() && (#[trigger] tzs@[j])@ == value@ {
                        r matches Ok(DeviceInfoRequest::SetTimezone(v)) && v@ == value@
                    } else {
                        r matches Err(e) && e.code == CODE_CUSTOM_ERROR
                            && e.message@ == "timezone_set: Unsupported timezone"@
                    }
                },
                _ => r matches Err(e) && e.code == CODE_CUSTOM_ERROR
                    && e.message@ == "timezone_set: error response TBD"@,
            },
    {
        match response {
            Ok(ExtnResponse::AvailableTimezones(tzs)) => {
                if string_list_contains(&tzs, value.as_str()) {
                    Ok(DeviceInfoRequest::SetTimezone(value.clone()))
                } else {
                    Err(RpcError::custom(String::from_str("timezone_set: Unsupported timezone")))
                }
            },
            _ => Err(RpcError::custom(String::from_str("timezone_set: error response TBD"))),
        }
    }

    /// Finishes a time-zone write: on acknowledgement the caller is
    /// subscribed to time-zone changes; on failure the error.
    pub fn timezone_set_finish(
        state: &mut PlatformState,
        app_id: &String,
        response: Result<ExtnResponse, crate::RippleError>,
    ) -> (r: Result<(), RpcError>)
        ensures
            spec_bus_router_unchanged(old(state), final(state)),
            final(state).storage == old(state).storage,
            match response {
                Ok(_) => r is Ok
                    && spec_listening(final(state).listeners.entries_view(),
                        "localization.onTimeZoneChanged"@, app_id@)
                    && forall|e: Seq<char>, a: Seq<char>|
                        !(e == "localization.onTimeZoneChanged"@ && a == app_id@)
                        ==> spec_listening(final(state).listeners.entries_view(), e, a)
                            == spec_listening(old(state).listeners.entries_view(), e, a),
                Err(_) => r matches Err(e) && e.code == CODE_CUSTOM_ERROR
                    && e.message@ == "timezone: error response TBD"@
                    && final(state).listeners == old(state).listeners,
            },
    {
        match response {
            Ok(_) => {
                state.listeners.listen(
                    String::from_str(EVENT_TIMEZONE_CHANGED), app_id.clone());
                proof {
                    reveal_strlit("localization.onTimeZoneChanged");
                }
                Ok(())
            },
            Err(_) => Err(RpcError::custom(String::from_str("timezone: error response TBD"))),
        }
    }

    /// Begins a time-zone read.
    pub fn timezone(ctx: &CallContext) -> (r: PendingCall)
        ensures
            r.request == DeviceInfoRequest::GetTimezone,
            r.cont.step matches ContStep::TimezoneGet,
            r.cont.call_id == ctx.call_id,
            r.cont.request_id == ctx.request_id,
            r.cont.protocol == ctx.protocol,
            r.cont.app_id == ctx.app_id,
    {
        PendingCall {
            request: DeviceInfoRequest::GetTimezone,
            cont: Continuation {
                step: ContStep::TimezoneGet,
                call_id: ctx.call_id,
                request_id: ctx.request_id.clone(),
                protocol: ctx.protocol,
                app_id: ctx.app_id.clone(),
            },
        }
    }

    /// Interprets the bus response to a time-zone read.
    pub fn timezone_response(response: Result<ExtnResponse, crate::RippleError>)
        -> (r: Result<String, RpcError>)
        ensures
            match response {
                Ok(ExtnResponse::String(v)) => r matches Ok(s) && s == v,
                _ => r matches Err(e) && e.code == CODE_CUSTOM_ERROR
                    && e.message@ == "timezone: error response TBD"@,
            },
    {
        match response {
            Ok(ExtnResponse::String(v)) => Ok(v),
            _ => Err(RpcError::custom(String::from_str("timezone: error response TBD"))),
        }
    }
}

} // verus!

verus! {

/// Everything a localization dispatch owes: how the platform state
/// after relates to the state before, per method, and which outcome
/// comes back for the call's identity and params.  The router's entry
/// points restate their results against this predicate, so a dispatch
/// that reaches a registered method owes that method's full behaviour.
pub open spec fn spec_dispatch_post(
    method: LocalizationMethod,
    pre: PlatformState,
    post: PlatformState,
    app_id: String,
    call_id: u64,
    request_id: String,
    protocol: ApiProtocol,
    params: JsonValS,
    r: DispatchOutcome,
) -> bool {
    &&& post.extn_client == pre.extn_client
    &&& post.router_state.methods_view() == pre.router_state.methods_view()
    &&& post.router_state.resources_view() == pre.router_state.resources_view()
    &&& match spec_method_prop(method) {
        Some(p) => post.storage == pre.storage
            && post.listeners == pre.listeners
            && match spec_storage_lookup(pre.storage.props(), p) {
                Some(v) => r matches DispatchOutcome::Done(Ok(out))
                    && out.deep_view() == JsonValS::Str(v),
                None => r matches DispatchOutcome::Done(Err(e))
                    && e.code == CODE_PROPERTY_UNAVAILABLE
                    && e.message@ == spec_prop_error_message(p),
            },
        None => true,
    }
    &&& match spec_method_set_prop(method) {
        Some(p) => match spec_param_value(params) {
            Some(v) => spec_storage_lookup(post.storage.props(), p) == Some(v)
                && (forall|q: StorageProperty| q != p
                    ==> spec_storage_lookup(post.storage.props(), q)
                        == spec_storage_lookup(pre.storage.props(), q))
                && post.storage.namespaces() == pre.storage.namespaces()
                && post.listeners == pre.listeners
                && (r matches DispatchOutcome::Done(Ok(out))
                    && out.deep_view() == JsonValS::Null),
            None => post.storage == pre.storage
                && post.listeners == pre.listeners
                && (r matches DispatchOutcome::Done(Err(e))
                    && e.code == CODE_INVALID_PARAMS),
        },
        None => true,
    }
    &&& match spec_method_event(method) {
        Some(ev) => post.storage == pre.storage
            && match spec_param_listen(params) {
                Some(listen) => (r matches DispatchOutcome::Done(Ok(out))
                    && out.deep_view() == spec_listener_response(listen, ev))
                    && (listen ==> spec_listening(
                            post.listeners.entries_view(), ev, app_id@))
                    && (!listen ==> post.listeners.entries_view()
                        == spec_unlisten(pre.listeners.entries_view(), ev, app_id@)),
                None => post.listeners == pre.listeners
                    && (r matches DispatchOutcome::Done(Err(e))
                        && e.code == CODE_INVALID_PARAMS),
            },
        None => true,
    }
    &&& (method == LocalizationMethod::PostalCode ==> post.storage == pre.storage
        && post.listeners == pre.listeners
        && match spec_storage_lookup(pre.storage.props(), StorageProperty::PostalCode) {
            Some(v) => r matches DispatchOutcome::Done(Ok(out))
                && out.deep_view() == JsonValS::Str(v),
            None => match spec_namespace_lookup(
                pre.storage.namespaces(), app_id@, "postalCode"@) {
                Some(v) => r matches DispatchOutcome::Done(Ok(out))
                    && out.deep_view() == JsonValS::Str(v),
                None => r matches DispatchOutcome::Done(Err(e))
                    && e.code == CODE_PROPERTY_UNAVAILABLE
                    && e.message@ == spec_prop_error_message(StorageProperty::PostalCode),
            },
        })
    &&& (method == LocalizationMethod::AdditionalInfo ==> post.storage == pre.storage
        && post.listeners == pre.listeners
        && match spec_storage_lookup(pre.storage.props(), StorageProperty::AdditionalInfo) {
            None => r matches DispatchOutcome::Done(Ok(out)) && out.deep_view()
                == JsonValS::Obj(Seq::<(Seq<char>, JsonValS)>::empty()),
            Some(s) => match crate::json::parsed_json(s) {
                Some(JsonValS::Obj(entries)) => {
                    if spec_obj_all_strings(entries) {
                        r matches DispatchOutcome::Done(Ok(out))
                            && out.deep_view() == JsonValS::Obj(entries)
                    } else {
                        r matches DispatchOutcome::Done(Err(e))
                            && e.code == CODE_CUSTOM_ERROR
                    }
                },
                _ => r matches DispatchOutcome::Done(Err(e))
                    && e.code == CODE_CUSTOM_ERROR,
            },
        })
    &&& (method == LocalizationMethod::TimeZone ==> post.storage == pre.storage
        && post.listeners == pre.listeners
        && (r matches DispatchOutcome::Pending(pc)
            && pc.request == DeviceInfoRequest::GetTimezone
            && (pc.cont.step matches ContStep::TimezoneGet)
            && pc.cont.call_id == call_id
            && pc.cont.request_id == request_id
            && pc.cont.protocol == protocol
            && pc.cont.app_id == app_id))
    &&& (method == LocalizationMethod::SetTimeZone ==> post.storage == pre.storage
        && post.listeners == pre.listeners
        && match spec_param_value(params) {
            Some(v) => r matches DispatchOutcome::Pending(pc)
                && pc.request == DeviceInfoRequest::GetAvailableTimezones
                && (pc.cont.step matches ContStep::TimezoneSetValidate { value } && value@ == v)
                && pc.cont.call_id == call_id
                && pc.cont.request_id == request_id
                && pc.cont.protocol == protocol
                && pc.cont.app_id == app_id,
            None => r matches DispatchOutcome::Done(Err(e)) && e.code == CODE_INVALID_PARAMS,
        })
}

/// Everything a resumed localization call owes: the outcome produced
/// for the continuation and bus response, and how the platform state
/// changed.  `resume_route` restates its result against this predicate.
pub open spec fn spec_resume_post(
    cont: Continuation,
    response: Result<ExtnResponse, crate::RippleError>,
    pre: PlatformState,
    post: PlatformState,
    r: DispatchOutcome,
) -> bool {
    &&& post.extn_client == pre.extn_client
    &&& post.router_state.methods_view() == pre.router_state.methods_view()
    &&& post.router_state.resources_view() == pre.router_state.resources_view()
    &&& post.storage == pre.storage
    &&& match cont.step {
        ContStep::TimezoneSetValidate { value } => {
            post.listeners == pre.listeners
            && match response {
                Ok(ExtnResponse::AvailableTimezones(tzs)) => {
                    if exists|j: int| 0 <= j < tzs@.len() && (#[trigger] tzs@[j])@ == value@ {
                        r matches DispatchOutcome::Pending(pc)
                            && (pc.request matches DeviceInfoRequest::SetTimezone(v)
                                && v@ == value@)
                            && (pc.cont.step matches ContStep::TimezoneSetFinish { value: v2 }
                                && v2 == value)
                            && pc.cont.call_id == cont.call_id
                            && pc.cont.request_id == cont.request_id
                            && pc.cont.protocol == cont.protocol
                            && pc.cont.app_id == cont.app_id
                    } else {
                        r matches DispatchOutcome::Done(Err(e)) && e.code == CODE_CUSTOM_ERROR
                            && e.message@ == "timezone_set: Unsupported timezone"@
                    }
                },
                _ => r matches DispatchOutcome::Done(Err(e)) && e.code == CODE_CUSTOM_ERROR
                    && e.message@ == "timezone_set: error response TBD"@,
            }
        },
        ContStep::TimezoneSetFinish { value: _ } => match response {
            Ok(_) => r matches DispatchOutcome::Done(Ok(out))
                && out.deep_view() == JsonValS::Null
                && spec_listening(post.listeners.entries_view(),
                    "localization.onTimeZoneChanged"@, cont.app_id@),
            Err(_) => post.listeners == pre.listeners
                && (r matches DispatchOutcome::Done(Err(e)) && e.code == CODE_CUSTOM_ERROR
                    && e.message@ == "timezone: error response TBD"@),
        },
        ContStep::TimezoneGet => {
            post.listeners == pre.listeners
            && match response {
                Ok(ExtnResponse::String(v)) => r matches DispatchOutcome::Done(Ok(out))
                    && out.deep_view() == JsonValS::Str(v@),
                _ => r matches DispatchOutcome::Done(Err(e)) && e.code == CODE_CUSTOM_ERROR
                    && e.message@ == "timezone: error response TBD"@,
            }
        },
    }
}

/// Runs a localization method against the platform state: either an
/// inline result, or a suspension waiting on the device-information
/// contract.  The bus and the router tables are never touched.
pub fn dispatch_local(
    state: &mut PlatformState,
    method: LocalizationMethod,
    ctx: &CallContext,
    params: &JsonValue,
) -> (r: DispatchOutcome)
    ensures
        spec_bus_router_unchanged(old(state), final(state)),
        spec_dispatch_post(
            method,
            *old(state),
            *final(state),
            ctx.app_id,
            ctx.call_id,
            ctx.request_id,
            ctx.protocol,
            params.deep_view(),
            r,
        ),
{
    match method {
        LocalizationMethod::Locality => getter_outcome(state, StorageProperty::Locality),
        LocalizationMethod::CountryCode => getter_outcome(state, StorageProperty::CountryCode),
        LocalizationMethod::Language => getter_outcome(state, StorageProperty::Language),
        LocalizationMethod::Locale => getter_outcome(state, StorageProperty::Locale),
        LocalizationMethod::Latlon => getter_outcome(state, StorageProperty::LatLon),
        LocalizationMethod::SetLocality => setter_outcome(state, StorageProperty::Locality, params),
        LocalizationMethod::SetCountryCode
            => setter_outcome(state, StorageProperty::CountryCode, params),
        LocalizationMethod::SetLanguage => setter_outcome(state, StorageProperty::Language, params),
        LocalizationMethod::SetPostalCode
            => setter_outcome(state, StorageProperty::PostalCode, params),
        LocalizationMethod::SetLocale => setter_outcome(state, StorageProperty::Locale, params),
        LocalizationMethod::SetLatlon => setter_outcome(state, StorageProperty::LatLon, params),
        LocalizationMethod::SetAdditionalInfo
            => setter_outcome(state, StorageProperty::AdditionalInfo, params),
        LocalizationMethod::OnLocalityChanged
            => listener_outcome(state, ctx, params, "localization.onLocalityChanged"),
        LocalizationMethod::OnCountryCodeChanged
            => listener_outcome(state, ctx, params, "localization.onCountryCodeChanged"),
        LocalizationMethod::OnLanguageChanged
            => listener_outcome(state, ctx, params, "localization.onLanguageChanged"),
        LocalizationMethod::OnPostalCodeChanged
            => listener_outcome(state, ctx, params, "localization.onPostalCodeChanged"),
        LocalizationMethod::OnLocaleChanged
            => listener_outcome(state, ctx, params, "localization.onLocaleChanged"),
        LocalizationMethod::OnLatlonChanged
            => listener_outcome(state, ctx, params, "localization.onLatlonChanged"),
        LocalizationMethod::OnAdditionalInfoChanged
            => listener_outcome(state, ctx, params, "localization.onAdditionalInfoChanged"),
        LocalizationMethod::OnTimeZoneChanged
            => listener_outcome(state, ctx, params, "localization.onTimeZoneChanged"),
        LocalizationMethod::PostalCode => {
            match LocalizationImpl::postal_code(state, ctx.app_id.clone()) {
                Some(s) => DispatchOutcome::Done(Ok(JsonValue::Str(s))),
                None => DispatchOutcome::Done(Err(prop_error(StorageProperty::PostalCode))),
            }
        },
        LocalizationMethod::AdditionalInfo => {
            DispatchOutcome::Done(LocalizationImpl::additional_info(state))
        },
        LocalizationMethod::TimeZone => DispatchOutcome::Pending(LocalizationImpl::timezone(ctx)),
        LocalizationMethod::SetTimeZone => {
            match value_param(params) {
                Some(v) => DispatchOutcome::Pending(LocalizationImpl::timezone_set(ctx, v)),
                None => DispatchOutcome::Done(Err(RpcError::invalid_params())),
            }
        },
    }
}

fn getter_outcome(state: &mut PlatformState, property: StorageProperty) -> (r: DispatchOutcome)
    ensures
        *final(state) == *old(state),
        match spec_storage_lookup(old(state).storage.props(), property) {
            Some(v) => r matches DispatchOutcome::Done(Ok(out))
                && out.deep_view() == JsonValS::Str(v),
            None => r matches DispatchOutcome::Done(Err(e))
                && e.code == CODE_PROPERTY_UNAVAILABLE
                && e.message@ == spec_prop_error_message(property),
        },
{
    match LocalizationImpl::get_property(state, property) {
        Ok(s) => DispatchOutcome::Done(Ok(JsonValue::Str(s))),
        Err(e) => DispatchOutcome::Done(Err(e)),
    }
}

fn setter_outcome(state: &mut PlatformState, property: StorageProperty, params: &JsonValue)
    -> (r: DispatchOutcome)
    ensures
        spec_bus_router_unchanged(old(state), final(state)),
        final(state).listeners == old(state).listeners,
        match spec_param_value(params.deep_view()) {
            Some(v) => spec_storage_lookup(final(state).storage.props(), property) == Some(v)
                && (forall|q: StorageProperty| q != property
                    ==> spec_storage_lookup(final(state).storage.props(), q)
                        == spec_storage_lookup(old(state).storage.props(), q))
                && final(state).storage.namespaces() == old(state).storage.namespaces()
                && (r matches DispatchOutcome::Done(Ok(out)) && out.deep_view() == JsonValS::Null),
            None => final(state).storage == old(state).storage
                && (r matches DispatchOutcome::Done(Err(e)) && e.code == CODE_INVALID_PARAMS),
        },
{
    match value_param(params) {
        Some(v) => {
            LocalizationImpl::set_property(state, property, v);
            DispatchOutcome::Done(Ok(JsonValue::Null))
        },
        None => DispatchOutcome::Done(Err(RpcError::invalid_params())),
    }
}

fn listener_outcome(
    state: &mut PlatformState,
    ctx: &CallContext,
    params: &JsonValue,
    event_name: &str,
) -> (r: DispatchOutcome)
    ensures
        spec_bus_router_unchanged(old(state), final(state)),
        final(state).storage == old(state).storage,
        match spec_param_listen(params.deep_view()) {
            Some(listen) => (r matches DispatchOutcome::Done(Ok(out))
                && out.deep_view() == spec_listener_response(listen, event_name@))
                && (listen ==> spec_listening(
                        final(state).listeners.entries_view(), event_name@, ctx.app_id@))
                && (!listen ==> final(state).listeners.entries_view()
                    == spec_unlisten(
                        old(state).listeners.entries_view(), event_name@, ctx.app_id@)),
            None => final(state).listeners == old(state).listeners
                && (r matches DispatchOutcome::Done(Err(e)) && e.code == CODE_INVALID_PARAMS),
        },
{
    match listen_param(params) {
        Some(listen) => {
            let resp = LocalizationImpl::on_request_app_event(
                state, ctx, crate::rpc_gateway_api::ListenRequest { listen }, event_name);
            match resp {
                Ok(_) => DispatchOutcome::Done(Ok(listener_response_json(listen, event_name))),
                Err(e) => DispatchOutcome::Done(Err(e)),
            }
        },
        None => DispatchOutcome::Done(Err(RpcError::invalid_params())),
    }
}

/// Resumes a suspended localization call with the bus response: either
/// the next bus call to issue, or the final result.
pub fn resume_local(
    state: &mut PlatformState,
    cont: Continuation,
    response: Result<ExtnResponse, crate::RippleError>,
) -> (r: DispatchOutcome)
    ensures
        spec_bus_router_unchanged(old(state), final(state)),
        spec_resume_post(cont, response, *old(state), *final(state), r),
{
    match cont.step {
        ContStep::TimezoneSetValidate { value } => {
            match LocalizationImpl::timezone_set_validate(response, &value) {
                Ok(request) => DispatchOutcome::Pending(PendingCall {
                    request,
                    cont: Continuation {
                        step: ContStep::TimezoneSetFinish { value },
                        call_id: cont.call_id,
                        request_id: cont.request_id,
                        protocol: cont.protocol,
                        app_id: cont.app_id,
                    },
                }),
                Err(e) => DispatchOutcome::Done(Err(e)),
            }
        },
        ContStep::TimezoneSetFinish { value: _ } => {
            match LocalizationImpl::timezone_set_finish(state, &cont.app_id, response) {
                Ok(_) => DispatchOutcome::Done(Ok(JsonValue::Null)),
                Err(e) => DispatchOutcome::Done(Err(e)),
            }
        },
        ContStep::TimezoneGet => {
            match LocalizationImpl::timezone_response(response) {
                Ok(v) => DispatchOutcome::Done(Ok(JsonValue::Str(v))),
                Err(e) => DispatchOutcome::Done(Err(e)),
            }
        },
    }
}

} // verus!

verus! {

/// Provides the localization method set for the router's table.
#[derive(Debug)]
pub struct LocalizationRPCProvider;

impl LocalizationRPCProvider {
    /// The localization method table: every method name paired with the
    /// handler tag the router dispatches it to.  No method claims any
    /// resource weight.
    pub fn provide() -> (r: Vec<(String, crate::rpc_router::MethodEntry)>)
        ensures
            r@.len() == 24,
            forall|i: int| 0 <= i < r@.len()
                ==> (#[trigger] r@[i].1.weights)@.len() == 0,
            r@[0].0@ == "localization.locality"@,
            r@[0].1.handler == crate::rpc_router::RpcHandler::Localization(LocalizationMethod::Locality),
            r@[1].0@ == "localization.setLocality"@,
            r@[1].1.handler == crate::rpc_router::RpcHandler::Localization(LocalizationMethod::SetLocality),
            r@[2].0@ == "localization.onLocalityChanged"@,
            r@[2].1.handler == crate::rpc_router::RpcHandler::Localization(LocalizationMethod::OnLocalityChanged),
            r@[3].0@ == "localization.countryCode"@,
            r@[3].1.handler == crate::rpc_router::RpcHandler::Localization(LocalizationMethod::CountryCode),
            r@[4].0@ == "localization.setCountryCode"@,
            r@[4].1.handler == crate::rpc_router::RpcHandler::Localization(LocalizationMethod::SetCountryCode),
            r@[5].0@ == "localization.onCountryCodeChanged"@,
            r@[5].1.handler == crate::rpc_router::RpcHandler::Localization(LocalizationMethod::OnCountryCodeChanged),
            r@[6].0@ == "localization.language"@,
            r@[6].1.handler == crate::rpc_router::RpcHandler::Localization(LocalizationMethod::Language),
            r@[7].0@ == "localization.setLanguage"@,
            r@[7].1.handler == crate::rpc_router::RpcHandler::Localization(LocalizationMethod::SetLanguage),
            r@[8].0@ == "localization.onLanguageChanged"@,
            r@[8].1.handler == crate::rpc_router::RpcHandler::Localization(LocalizationMethod::OnLanguageChanged),
            r@[9].0@ == "localization.postalCode"@,
            r@[9].1.handler == crate::rpc_router::RpcHandler::Localization(LocalizationMethod::PostalCode),
            r@[10].0@ == "localization.setPostalCode"@,
            r@[10].1.handler == crate::rpc_router::RpcHandler::Localization(LocalizationMethod::SetPostalCode),
            r@[11].0@ == "localization.onPostalCodeChanged"@,
            r@[11].1.handler == crate::rpc_router::RpcHandler::Localization(LocalizationMethod::OnPostalCodeChanged),
            r@[12].0@ == "localization.locale"@,
            r@[12].1.handler == crate::rpc_router::RpcHandler::Localization(LocalizationMethod::Locale),
            r@[13].0@ == "localization.setLocale"@,
            r@[13].1.handler == crate::rpc_router::RpcHandler::Localization(LocalizationMethod::SetLocale),
            r@[14].0@ == "localization.onLocaleChanged"@,
            r@[14].1.handler == crate::rpc_router::RpcHandler::Localization(LocalizationMethod::OnLocaleChanged),
            r@[15].0@ == "localization.latlon"@,
            r@[15].1.handler == crate::rpc_router::RpcHandler::Localization(LocalizationMethod::Latlon),
            r@[16].0@ == "localization.setLatlon"@,
            r@[16].1.handler == crate::rpc_router::RpcHandler::Localization(LocalizationMethod::SetLatlon),
            r@[17].0@ == "localization.onLatlonChanged"@,
            r@[17].1.handler == crate::rpc_router::RpcHandler::Localization(LocalizationMethod::OnLatlonChanged),
            r@[18].0@ == "localization.additionalInfo"@,
            r@[18].1.handler == crate::rpc_router::RpcHandler::Localization(LocalizationMethod::AdditionalInfo),
            r@[19].0@ == "localization.setAdditionalInfo"@,
            r@[19].1.handler == crate::rpc_router::RpcHandler::Localization(LocalizationMethod::SetAdditionalInfo),
            r@[20].0@ == "localization.onAdditionalInfoChanged"@,
            r@[20].1.handler == crate::rpc_router::RpcHandler::Localization(LocalizationMethod::OnAdditionalInfoChanged),
            r@[21].0@ == "localization.setTimeZone"@,
            r@[21].1.handler == crate::rpc_router::RpcHandler::Localization(LocalizationMethod::SetTimeZone),
            r@[22].0@ == "localization.timeZone"@,
            r@[22].1.handler == crate::rpc_router::RpcHandler::Localization(LocalizationMethod::TimeZone),
            r@[23].0@ == "localization.onTimeZoneChanged"@,
            r@[23].1.handler == crate::rpc_router::RpcHandler::Localization(LocalizationMethod::OnTimeZoneChanged),
    {
        let mut r: Vec<(String, crate::rpc_router::MethodEntry)> = Vec::new();
        push_method(&mut r, "localization.locality", LocalizationMethod::Locality);
        push_method(&mut r, "localization.setLocality", LocalizationMethod::SetLocality);
        push_method(&mut r, "localization.onLocalityChanged", LocalizationMethod::OnLocalityChanged);
        push_method(&mut r, "localization.countryCode", LocalizationMethod::CountryCode);
        push_method(&mut r, "localization.setCountryCode", LocalizationMethod::SetCountryCode);
        push_method(&mut r, "localization.onCountryCodeChanged", LocalizationMethod::OnCountryCodeChanged);
        push_method(&mut r, "localization.language", LocalizationMethod::Language);
        push_method(&mut r, "localization.setLanguage", LocalizationMethod::SetLanguage);
        push_method(&mut r, "localization.onLanguageChanged", LocalizationMethod::OnLanguageChanged);
        push_method(&mut r, "localization.postalCode", LocalizationMethod::PostalCode);
        push_method(&mut r, "localization.setPostalCode", LocalizationMethod::SetPostalCode);
        push_method(&mut r, "localization.onPostalCodeChanged", LocalizationMethod::OnPostalCodeChanged);
        push_method(&mut r, "localization.locale", LocalizationMethod::Locale);
        push_method(&mut r, "localization.setLocale", LocalizationMethod::SetLocale);
        push_method(&mut r, "localization.onLocaleChanged", LocalizationMethod::OnLocaleChanged);
        push_method(&mut r, "localization.latlon", LocalizationMethod::Latlon);
        push_method(&mut r, "localization.setLatlon", LocalizationMethod::SetLatlon);
        push_method(&mut r, "localization.onLatlonChanged", LocalizationMethod::OnLatlonChanged);
        push_method(&mut r, "localization.additionalInfo", LocalizationMethod::AdditionalInfo);
        push_method(&mut r, "localization.setAdditionalInfo", LocalizationMethod::SetAdditionalInfo);
        push_method(&mut r, "localization.onAdditionalInfoChanged", LocalizationMethod::OnAdditionalInfoChanged);
        push_method(&mut r, "localization.setTimeZone", LocalizationMethod::SetTimeZone);
        push_method(&mut r, "localization.timeZone", LocalizationMethod::TimeZone);
        push_method(&mut r, "localization.onTimeZoneChanged", LocalizationMethod::OnTimeZoneChanged);
        r
    }
}

fn push_method(
    r: &mut Vec<(String, crate::rpc_router::MethodEntry)>,
    name: &str,
    method: LocalizationMethod,
)
    ensures
        final(r)@.len() == old(r)@.len() + 1,
        forall|i: int| 0 <= i < old(r)@.len() ==> final(r)@[i] == old(r)@[i],
        final(r)@.last().0@ == name@,
        final(r)@.last().1.handler
            == crate::rpc_router::RpcHandler::Localization(method),
        final(r)@.last().1.weights@.len() == 0,
        final(r)@.last().1.kind == crate::rpc_router::MethodKind::Async,
{
    r.push((String::from_str(name), crate::rpc_router::MethodEntry {
        kind: crate::rpc_router::MethodKind::Async,
        weights: Vec::new(),
        handler: crate::rpc_router::RpcHandler::Localization(method),
    }));
}

} // verus!

verus! {

use crate::device_request::{LanguageProperty, SetStringProperty, TimezoneProperty};

impl LocalizationImpl {
    /// The stored locality.
    pub fn locality(state: &PlatformState) -> (r: Result<String, RpcError>)
        ensures
            match r {
                Ok(s) => spec_storage_lookup(state.storage.props(), StorageProperty::Locality)
                    == Some(s@),
                Err(e) => spec_storage_lookup(state.storage.props(), StorageProperty::Locality)
                    is None && e.code == CODE_PROPERTY_UNAVAILABLE,
            },
    {
        Self::get_property(state, StorageProperty::Locality)
    }

    /// Stores the locality.
    pub fn locality_set(state: &mut PlatformState, set_request: SetStringProperty)
        -> (r: Result<(), RpcError>)
        ensures
            r is Ok,
            spec_storage_lookup(final(state).storage.props(), StorageProperty::Locality)
                == Some(set_request.value@),
            spec_bus_router_unchanged(old(state), final(state)),
    {
        Self::set_property(state, StorageProperty::Locality, set_request.value);
        Ok(())
    }

    /// Subscribes or unsubscribes the caller to locality changes.
    pub fn on_locality_changed(state: &mut PlatformState, ctx: &CallContext, request: ListenRequest)
        -> (r: Result<ListenerResponse, RpcError>)
        ensures
            r matches Ok(resp) && resp.listening == request.listen
                && resp.event@ == "localization.onLocalityChanged"@,
            request.listen ==> spec_listening(
                final(state).listeners.entries_view(),
                "localization.onLocalityChanged"@, ctx.app_id@),
            !request.listen ==> !spec_listening(
                final(state).listeners.entries_view(),
                "localization.onLocalityChanged"@, ctx.app_id@),
    {
        Self::on_request_app_event(state, ctx, request, "localization.onLocalityChanged")
    }

    /// The stored country code.
    pub fn country_code(state: &PlatformState) -> (r: Result<String, RpcError>)
        ensures
            match r {
                Ok(s) => spec_storage_lookup(state.storage.props(), StorageProperty::CountryCode)
                    == Some(s@),
                Err(e) => spec_storage_lookup(state.storage.props(), StorageProperty::CountryCode)
                    is None && e.code == CODE_PROPERTY_UNAVAILABLE,
            },
    {
        Self::get_property(state, StorageProperty::CountryCode)
    }

    /// Stores the country code.
    pub fn country_code_set(state: &mut PlatformState, set_request: SetStringProperty)
        -> (r: Result<(), RpcError>)
        ensures
            r is Ok,
            spec_storage_lookup(final(state).storage.props(), StorageProperty::CountryCode)
                == Some(set_request.value@),
            spec_bus_router_unchanged(old(state), final(state)),
    {
        Self::set_property(state, StorageProperty::CountryCode, set_request.value);
        Ok(())
    }

    /// Subscribes or unsubscribes the caller to country-code changes.
    pub fn on_country_code_changed(
        state: &mut PlatformState,
        ctx: &CallContext,
        request: ListenRequest,
    ) -> (r: Result<ListenerResponse, RpcError>)
        ensures
            r matches Ok(resp) && resp.listening == request.listen
                && resp.event@ == "localization.onCountryCodeChanged"@,
            request.listen ==> spec_listening(
                final(state).listeners.entries_view(),
                "localization.onCountryCodeChanged"@, ctx.app_id@),
            !request.listen ==> !spec_listening(
                final(state).listeners.entries_view(),
                "localization.onCountryCodeChanged"@, ctx.app_id@),
    {
        Self::on_request_app_event(state, ctx, request, "localization.onCountryCodeChanged")
    }

    /// The stored language.
    pub fn language(state: &PlatformState) -> (r: Result<String, RpcError>)
        ensures
            match r {
                Ok(s) => spec_storage_lookup(state.storage.props(), StorageProperty::Language)
                    == Some(s@),
                Err(e) => spec_storage_lookup(state.storage.props(), StorageProperty::Language)
                    is None && e.code == CODE_PROPERTY_UNAVAILABLE,
            },
    {
        Self::get_property(state, StorageProperty::Language)
    }

    /// Stores the language.
    pub fn language_set(state: &mut PlatformState, set_request: LanguageProperty)
        -> (r: Result<(), RpcError>)
        ensures
            r is Ok,
            spec_storage_lookup(final(state).storage.props(), StorageProperty::Language)
                == Some(set_request.value@),
            spec_bus_router_unchanged(old(state), final(state)),
    {
        Self::set_property(state, StorageProperty::Language, set_request.value);
        Ok(())
    }

    /// Subscribes or unsubscribes the caller to language changes.
    pub fn on_language_changed(state: &mut PlatformState, ctx: &CallContext, request: ListenRequest)
        -> (r: Result<ListenerResponse, RpcError>)
        ensures
            r matches Ok(resp) && resp.listening == request.listen
                && resp.event@ == "localization.onLanguageChanged"@,
            request.listen ==> spec_listening(
                final(state).listeners.entries_view(),
                "localization.onLanguageChanged"@, ctx.app_id@),
            !request.listen ==> !spec_listening(
                final(state).listeners.entries_view(),
                "localization.onLanguageChanged"@, ctx.app_id@),
    {
        Self::on_request_app_event(state, ctx, request, "localization.onLanguageChanged")
    }

    /// Stores the postal code.
    pub fn postal_code_set(state: &mut PlatformState, set_request: SetStringProperty)
        -> (r: Result<(), RpcError>)
        ensures
            r is Ok,
            spec_storage_lookup(final(state).storage.props(), StorageProperty::PostalCode)
                == Some(set_request.value@),
            spec_bus_router_unchanged(old(state), final(state)),
    {
        Self::set_property(state, StorageProperty::PostalCode, set_request.value);
        Ok(())
    }

    /// Subscribes or unsubscribes the caller to postal-code changes.
    pub fn on_postal_code_changed(
        state: &mut PlatformState,
        ctx: &CallContext,
        request: ListenRequest,
    ) -> (r: Result<ListenerResponse, RpcError>)
        ensures
            r matches Ok(resp) && resp.listening == request.listen
                && resp.event@ == "localization.onPostalCodeChanged"@,
            request.listen ==> spec_listening(
                final(state).listeners.entries_view(),
                "localization.onPostalCodeChanged"@, ctx.app_id@),
            !request.listen ==> !spec_listening(
                final(state).listeners.entries_view(),
                "localization.onPostalCodeChanged"@, ctx.app_id@),
    {
        Self::on_request_app_event(state, ctx, request, "localization.onPostalCodeChanged")
    }

    /// The stored locale.
    pub fn locale(state: &PlatformState) -> (r: Result<String, RpcError>)
        ensures
            match r {
                Ok(s) => spec_storage_lookup(state.storage.props(), StorageProperty::Locale)
                    == Some(s@),
                Err(e) => spec_storage_lookup(state.storage.props(), StorageProperty::Locale)
                    is None && e.code == CODE_PROPERTY_UNAVAILABLE,
            },
    {
        Self::get_property(state, StorageProperty::Locale)
    }

    /// Stores the locale.
    pub fn locale_set(state: &mut PlatformState, set_request: SetStringProperty)
        -> (r: Result<(), RpcError>)
        ensures
            r is Ok,
            spec_storage_lookup(final(state).storage.props(), StorageProperty::Locale)
                == Some(set_request.value@),
            spec_bus_router_unchanged(old(state), final(state)),
    {
        Self::set_property(state, StorageProperty::Locale, set_request.value);
        Ok(())
    }

    /// Subscribes or unsubscribes the caller to locale changes.
    pub fn on_locale_changed(state: &mut PlatformState, ctx: &CallContext, request: ListenRequest)
        -> (r: Result<ListenerResponse, RpcError>)
        ensures
            r matches Ok(resp) && resp.listening == request.listen
                && resp.event@ == "localization.onLocaleChanged"@,
            request.listen ==> spec_listening(
                final(state).listeners.entries_view(),
                "localization.onLocaleChanged"@, ctx.app_id@),
            !request.listen ==> !spec_listening(
                final(state).listeners.entries_view(),
                "localization.onLocaleChanged"@, ctx.app_id@),
    {
        Self::on_request_app_event(state, ctx, request, "localization.onLocaleChanged")
    }

    /// The stored latitude and longitude.
    pub fn latlon(state: &PlatformState) -> (r: Result<String, RpcError>)
        ensures
            match r {
                Ok(s) => spec_storage_lookup(state.storage.props(), StorageProperty::LatLon)
                    == Some(s@),
                Err(e) => spec_storage_lookup(state.storage.props(), StorageProperty::LatLon)
                    is None && e.code == CODE_PROPERTY_UNAVAILABLE,
            },
    {
        Self::get_property(state, StorageProperty::LatLon)
    }

    /// Stores the latitude and longitude.
    pub fn latlon_set(state: &mut PlatformState, set_request: SetStringProperty)
        -> (r: Result<(), RpcError>)
        ensures
            r is Ok,
            spec_storage_lookup(final(state).storage.props(), StorageProperty::LatLon)
                == Some(set_request.value@),
            spec_bus_router_unchanged(old(state), final(state)),
    {
        Self::set_property(state, StorageProperty::LatLon, set_request.value);
        Ok(())
    }

    /// Subscribes or unsubscribes the caller to position changes.
    pub fn on_latlon_changed(state: &mut PlatformState, ctx: &CallContext, request: ListenRequest)
        -> (r: Result<ListenerResponse, RpcError>)
        ensures
            r matches Ok(resp) && resp.listening == request.listen
                && resp.event@ == "localization.onLatlonChanged"@,
            request.listen ==> spec_listening(
                final(state).listeners.entries_view(),
                "localization.onLatlonChanged"@, ctx.app_id@),
            !request.listen ==> !spec_listening(
                final(state).listeners.entries_view(),
                "localization.onLatlonChanged"@, ctx.app_id@),
    {
        Self::on_request_app_event(state, ctx, request, "localization.onLatlonChanged")
    }

    /// Stores the raw additional-info text.
    pub fn additional_info_set(state: &mut PlatformState, set_request: SetStringProperty)
        -> (r: Result<(), RpcError>)
        ensures
            r is Ok,
            spec_storage_lookup(final(state).storage.props(), StorageProperty::AdditionalInfo)
                == Some(set_request.value@),
            spec_bus_router_unchanged(old(state), final(state)),
    {
        Self::set_property(state, StorageProperty::AdditionalInfo, set_request.value);
        Ok(())
    }

    /// Subscribes or unsubscribes the caller to additional-info changes.
    pub fn on_additional_info_changed(
        state: &mut PlatformState,
        ctx: &CallContext,
        request: ListenRequest,
    ) -> (r: Result<ListenerResponse, RpcError>)
        ensures
            r matches Ok(resp) && resp.listening == request.listen
                && resp.event@ == "localization.onAdditionalInfoChanged"@,
            request.listen ==> spec_listening(
                final(state).listeners.entries_view(),
                "localization.onAdditionalInfoChanged"@, ctx.app_id@),
            !request.listen ==> !spec_listening(
                final(state).listeners.entries_view(),
                "localization.onAdditionalInfoChanged"@, ctx.app_id@),
    {
        Self::on_request_app_event(state, ctx, request, "localization.onAdditionalInfoChanged")
    }

    /// Subscribes or unsubscribes the caller to time-zone changes.
    pub fn on_timezone_changed(state: &mut PlatformState, ctx: &CallContext, request: ListenRequest)
        -> (r: Result<ListenerResponse, RpcError>)
        ensures
            r matches Ok(resp) && resp.listening == request.listen
                && resp.event@ == "localization.onTimeZoneChanged"@,
            request.listen ==> spec_listening(
                final(state).listeners.entries_view(),
                "localization.onTimeZoneChanged"@, ctx.app_id@),
            !request.listen ==> !spec_listening(
                final(state).listeners.entries_view(),
                "localization.onTimeZoneChanged"@, ctx.app_id@),
    {
        Self::on_request_app_event(state, ctx, request, EVENT_TIMEZONE_CHANGED)
    }

    /// Begins a time-zone write from the raw setter property.
    pub fn timezone_set_request(ctx: &CallContext, set_request: TimezoneProperty)
        -> (r: PendingCall)
        ensures
            r.request == DeviceInfoRequest::GetAvailableTimezones,
            r.cont.step matches ContStep::TimezoneSetValidate { value: v }
                && v == set_request.value,
            r.cont.app_id == ctx.app_id,
    {
        Self::timezone_set(ctx, set_request.value)
    }
}

} // verus!
