//! The device-event processor: decodes raw platform events, filters
//! them per handler, fans them out to per-listener subscriptions, and
//! suppresses identical consecutive emissions.

use vstd::prelude::*;
use crate::device_request::{
    AudioProfile, NetworkResponse, NetworkState, NetworkType, PowerState, SystemPowerState,
};
use crate::extn_client_message::{same_event, AppEvent, AppEventRequest, ExtnEvent};
use crate::json::{str_eq, JsonValS, JsonValue};
use crate::RippleError;

verus! {

/// An input-activity change reported by the platform.
#[derive(Clone, Copy, Debug, PartialEq, Eq, Structural)]
pub struct ActiveInputThunderEvent {
    pub active_input: bool,
}

/// A display-resolution change reported by the platform.
#[derive(Clone, Debug)]
pub struct ResolutionChangedEvent {
    pub width: i32,
    pub height: i32,
    pub video_display_type: String,
    pub resolution: String,
}

/// A voice-guidance toggle reported by the platform.
#[derive(Clone, Copy, Debug, PartialEq, Eq, Structural)]
pub struct VoiceGuidanceEvent {
    pub state: bool,
}

/// A subscribable platform event.
#[derive(Clone, Copy, Debug, PartialEq, Eq, Structural)]
pub enum DeviceEvent {
    InputChanged,
    HdrChanged,
    ScreenResolutionChanged,
    VideoResolutionChanged,
    NetworkChanged,
    SystemPowerStateChanged,
    VoiceGuidanceChanged,
    AudioChanged,
}

/// How a decoded event leaves the processor.
#[derive(Clone, Copy, Debug, PartialEq, Eq, Structural)]
pub enum DeviceEventCallback {
    FireboltAppEvent,
    ExtnEvent,
}

/// A platform-level event subscription.
#[derive(Clone, Debug)]
pub struct DeviceSubscribeRequest {
    pub module: String,
    pub event_name: String,
    pub params: Option<String>,
    pub sub_id: Option<String>,
}

/// A decoded platform event.
#[derive(Debug)]
pub enum ThunderEventMessage {
    ActiveInput(ActiveInputThunderEvent),
    Resolution(ResolutionChangedEvent),
    Network(NetworkResponse),
    PowerState(SystemPowerState),
    VoiceGuidance(VoiceGuidanceEvent),
    Audio(Vec<(AudioProfile, bool)>),
}

/// The mathematical shape of a decoded platform event.
pub enum ThunderEventMessageV {
    ActiveInput(ActiveInputThunderEvent),
    Resolution { width: int, height: int, video_display_type: Seq<char>, resolution: Seq<char> },
    Network(NetworkResponse),
    PowerState(SystemPowerState),
    VoiceGuidance(VoiceGuidanceEvent),
    Audio(Seq<(AudioProfile, bool)>),
}

impl DeepView for ThunderEventMessage {
    type V = ThunderEventMessageV;

    open spec fn deep_view(&self) -> ThunderEventMessageV {
        match self {
            ThunderEventMessage::ActiveInput(a) => ThunderEventMessageV::ActiveInput(*a),
            ThunderEventMessage::Resolution(r) => ThunderEventMessageV::Resolution {
                width: r.width as int,
                height: r.height as int,
                video_display_type: r.video_display_type@,
                resolution: r.resolution@,
            },
            ThunderEventMessage::Network(n) => ThunderEventMessageV::Network(*n),
            ThunderEventMessage::PowerState(p) => ThunderEventMessageV::PowerState(*p),
            ThunderEventMessage::VoiceGuidance(v) => ThunderEventMessageV::VoiceGuidance(*v),
            ThunderEventMessage::Audio(a) => ThunderEventMessageV::Audio(a.deep_view()),
        }
    }
}

/// The subscribable event a name denotes, if any.
pub open spec fn spec_device_event_of(s: Seq<char>) -> Option<DeviceEvent> {
    if s == "device.onInputChanged"@ { Some(DeviceEvent::InputChanged) }
    else if s == "device.onHdrChanged"@ { Some(DeviceEvent::HdrChanged) }
    else if s == "device.onScreenResolutionChanged"@ { Some(DeviceEvent::ScreenResolutionChanged) }
    else if s == "device.onVideoResolutionChanged"@ { Some(DeviceEvent::VideoResolutionChanged) }
    else if s == "device.onNetworkChanged"@ { Some(DeviceEvent::NetworkChanged) }
    else if s == "device.onSystemPowerStateChanged"@ { Some(DeviceEvent::SystemPowerStateChanged) }
    else if s == "device.onVoiceGuidanceChanged"@ { Some(DeviceEvent::VoiceGuidanceChanged) }
    else if s == "device.onAudioChanged"@ { Some(DeviceEvent::AudioChanged) }
    else { None }
}

impl DeviceEvent {
    /// Parses an event name.
    pub fn parse(s: &str) -> (r: Option<DeviceEvent>)
        ensures
            r == spec_device_event_of(s@),
    {
        if str_eq(s, "device.onInputChanged") { Some(DeviceEvent::InputChanged) }
        else if str_eq(s, "device.onHdrChanged") { Some(DeviceEvent::HdrChanged) }
        else if str_eq(s, "device.onScreenResolutionChanged") {
            Some(DeviceEvent::ScreenResolutionChanged)
        }
        else if str_eq(s, "device.onVideoResolutionChanged") {
            Some(DeviceEvent::VideoResolutionChanged)
        }
        else if str_eq(s, "device.onNetworkChanged") { Some(DeviceEvent::NetworkChanged) }
        else if str_eq(s, "device.onSystemPowerStateChanged") {
            Some(DeviceEvent::SystemPowerStateChanged)
        }
        else if str_eq(s, "device.onVoiceGuidanceChanged") { Some(DeviceEvent::VoiceGuidanceChanged) }
        else if str_eq(s, "device.onAudioChanged") { Some(DeviceEvent::AudioChanged) }
        else { None }
    }
}

/// The network kind a name denotes.
pub open spec fn spec_network_type_of(s: Seq<char>) -> Option<NetworkType> {
    if s == "WIFI"@ { Some(NetworkType::Wifi) }
    else if s == "ETHERNET"@ { Some(NetworkType::Ethernet) }
    else if s == "HYBRID"@ { Some(NetworkType::Hybrid) }
    else { None }
}

/// The network state a name denotes.
pub open spec fn spec_network_state_of(s: Seq<char>) -> Option<NetworkState> {
    if s == "CONNECTED"@ { Some(NetworkState::Connected) }
    else if s == "DISCONNECTED"@ { Some(NetworkState::Disconnected) }
    else { None }
}

/// The power state a name denotes.
pub open spec fn spec_power_state_of(s: Seq<char>) -> Option<PowerState> {
    if s == "ON"@ { Some(PowerState::On) }
    else if s == "ACTIVE_STANDBY"@ { Some(PowerState::ActiveStandby) }
    else if s == "PASSIVE_STANDBY"@ { Some(PowerState::PassiveStandby) }
    else if s == "LIGHT_SLEEP"@ { Some(PowerState::LightSleep) }
    else if s == "DEEP_SLEEP"@ { Some(PowerState::DeepSleep) }
    else if s == "OFF"@ { Some(PowerState::Off) }
    else { None }
}

fn parse_network_type(s: &str) -> (r: Option<NetworkType>)
    ensures
        r == spec_network_type_of(s@),
{
    if str_eq(s, "WIFI") { Some(NetworkType::Wifi) }
    else if str_eq(s, "ETHERNET") { Some(NetworkType::Ethernet) }
    else if str_eq(s, "HYBRID") { Some(NetworkType::Hybrid) }
    else { None }
}

fn parse_network_state(s: &str) -> (r: Option<NetworkState>)
    ensures
        r == spec_network_state_of(s@),
{
    if str_eq(s, "CONNECTED") { Some(NetworkState::Connected) }
    else if str_eq(s, "DISCONNECTED") { Some(NetworkState::Disconnected) }
    else { None }
}

fn parse_power_state(s: &str) -> (r: Option<PowerState>)
    ensures
        r == spec_power_state_of(s@),
{
    if str_eq(s, "ON") { Some(PowerState::On) }
    else if str_eq(s, "ACTIVE_STANDBY") { Some(PowerState::ActiveStandby) }
    else if str_eq(s, "PASSIVE_STANDBY") { Some(PowerState::PassiveStandby) }
    else if str_eq(s, "LIGHT_SLEEP") { Some(PowerState::LightSleep) }
    else if str_eq(s, "DEEP_SLEEP") { Some(PowerState::DeepSleep) }
    else if str_eq(s, "OFF") { Some(PowerState::Off) }
    else { None }
}

/// The string held under `key` of an object, if any.
pub open spec fn spec_obj_str(v: JsonValS, key: Seq<char>) -> Option<Seq<char>> {
    match v {
        JsonValS::Obj(entries) => match crate::json::spec_obj_get(entries, key) {
            Some(JsonValS::Str(s)) => Some(s),
            _ => None,
        },
        _ => None,
    }
}

/// The boolean held under `key` of an object, if any.
pub open spec fn spec_obj_bool(v: JsonValS, key: Seq<char>) -> Option<bool> {
    match v {
        JsonValS::Obj(entries) => match crate::json::spec_obj_get(entries, key) {
            Some(JsonValS::Bool(b)) => Some(b),
            _ => None,
        },
        _ => None,
    }
}

/// The integer held under `key` of an object, if any.
pub open spec fn spec_obj_int(v: JsonValS, key: Seq<char>) -> Option<int> {
    match v {
        JsonValS::Obj(entries) => match crate::json::spec_obj_get(entries, key) {
            Some(JsonValS::Int(i)) => Some(i),
            _ => None,
        },
        _ => None,
    }
}

fn obj_str(v: &JsonValue, key: &str) -> (r: Option<String>)
    ensures
        match r {
            Some(s) => spec_obj_str(v.deep_view(), key@) == Some(s@),
            None => spec_obj_str(v.deep_view(), key@) is None,
        },
{
    match v.get(key) {
        Some(inner) => match inner.as_str() {
            Some(s) => Some(s.clone()),
            None => None,
        },
        None => None,
    }
}

fn obj_bool(v: &JsonValue, key: &str) -> (r: Option<bool>)
    ensures
        r == spec_obj_bool(v.deep_view(), key@),
{
    match v.get(key) {
        Some(inner) => inner.as_bool(),
        None => None,
    }
}

fn obj_int(v: &JsonValue, key: &str) -> (r: Option<i64>)
    ensures
        match r {
            Some(i) => spec_obj_int(v.deep_view(), key@) == Some(i as int),
            None => spec_obj_int(v.deep_view(), key@) is None,
        },
{
    match v.get(key) {
        Some(inner) => inner.as_int(),
        None => None,
    }
}

/// The audio profile flags read out of an audio-changed payload:
/// absent profiles count as disabled.
pub open spec fn spec_audio_of(v: JsonValS) -> Seq<(AudioProfile, bool)> {
    seq![
        (AudioProfile::Stereo, spec_obj_bool(v, "stereo"@) == Some(true)),
        (AudioProfile::DolbyDigital5_1, spec_obj_bool(v, "dolbyDigital5.1"@) == Some(true)),
        (AudioProfile::DolbyDigital5_1_Plus, spec_obj_bool(v, "dolbyDigital5.1+"@) == Some(true)),
        (AudioProfile::DolbyAtmos, spec_obj_bool(v, "dolbyAtmos"@) == Some(true)),
    ]
}

/// The decoded event a raw payload denotes under an event name: the
/// name picks the schema, and a payload that fails it decodes to
/// nothing.
pub open spec fn spec_thunder_event_of(event: Seq<char>, v: JsonValS)
    -> Option<ThunderEventMessageV>
{
    match spec_device_event_of(event) {
        None => None,
        Some(DeviceEvent::InputChanged) | Some(DeviceEvent::HdrChanged) => {
            match spec_obj_bool(v, "activeInput"@) {
                Some(b) => Some(ThunderEventMessageV::ActiveInput(ActiveInputThunderEvent {
                    active_input: b,
                })),
                None => None,
            }
        },
        Some(DeviceEvent::ScreenResolutionChanged) | Some(DeviceEvent::VideoResolutionChanged) => {
            match (spec_obj_int(v, "width"@), spec_obj_int(v, "height"@),
                   spec_obj_str(v, "videoDisplayType"@), spec_obj_str(v, "resolution"@)) {
                (Some(w), Some(h), Some(t), Some(res)) => {
                    if i32::MIN <= w <= i32::MAX && i32::MIN <= h <= i32::MAX {
                        Some(ThunderEventMessageV::Resolution {
                            width: w,
                            height: h,
                            video_display_type: t,
                            resolution: res,
                        })
                    } else {
                        None
                    }
                },
                _ => None,
            }
        },
        Some(DeviceEvent::NetworkChanged) => {
            match (spec_obj_str(v, "interface"@), spec_obj_str(v, "status"@)) {
                (Some(i), Some(s)) => match (spec_network_type_of(i), spec_network_state_of(s)) {
                    (Some(t), Some(st)) => Some(ThunderEventMessageV::Network(NetworkResponse {
                        _type: t,
                        state: st,
                    })),
                    _ => None,
                },
                _ => None,
            }
        },
        Some(DeviceEvent::SystemPowerStateChanged) => {
            match (spec_obj_str(v, "powerState"@), spec_obj_str(v, "currentPowerState"@)) {
                (Some(p), Some(c)) => match (spec_power_state_of(p), spec_power_state_of(c)) {
                    (Some(ps), Some(cs)) => Some(ThunderEventMessageV::PowerState(
                        SystemPowerState { power_state: ps, current_power_state: cs },
                    )),
                    _ => None,
                },
                _ => None,
            }
        },
        Some(DeviceEvent::VoiceGuidanceChanged) => {
            match spec_obj_bool(v, "state"@) {
                Some(b) => Some(ThunderEventMessageV::VoiceGuidance(VoiceGuidanceEvent {
                    state: b,
                })),
                None => None,
            }
        },
        Some(DeviceEvent::AudioChanged) => Some(ThunderEventMessageV::Audio(spec_audio_of(v))),
    }
}

impl ThunderEventMessage {
    /// Decodes the raw payload of a named platform event.
    pub fn get(event: &str, value: &JsonValue) -> (r: Option<ThunderEventMessage>)
        ensures
            match r {
                Some(m) => spec_thunder_event_of(event@, value.deep_view()) == Some(m.deep_view()),
                None => spec_thunder_event_of(event@, value.deep_view()) is None,
            },
    {
        let device_event = match DeviceEvent::parse(event) {
            Some(e) => e,
            None => {
                return None;
            },
        };
        match device_event {
            DeviceEvent::InputChanged | DeviceEvent::HdrChanged => {
                match obj_bool(value, "activeInput") {
                    Some(b) => Some(ThunderEventMessage::ActiveInput(ActiveInputThunderEvent {
                        active_input: b,
                    })),
                    None => None,
                }
            },
            DeviceEvent::ScreenResolutionChanged | DeviceEvent::VideoResolutionChanged => {
                let w = obj_int(value, "width");
                let h = obj_int(value, "height");
                let t = obj_str(value, "videoDisplayType");
                let res = obj_str(value, "resolution");
                match (w, h, t, res) {
                    (Some(w), Some(h), Some(t), Some(res)) => {
                        if i32::MIN as i64 <= w && w <= i32::MAX as i64
                            && i32::MIN as i64 <= h && h <= i32::MAX as i64 {
                            Some(ThunderEventMessage::Resolution(ResolutionChangedEvent {
                                width: w as i32,
                                height: h as i32,
                                video_display_type: t,
                                resolution: res,
                            }))
                        } else {
                            None
                        }
                    },
                    _ => None,
                }
            },
            DeviceEvent::NetworkChanged => {
                let interface = obj_str(value, "interface");
                let status = obj_str(value, "status");
                match (interface, status) {
                    (Some(i), Some(s)) => {
                        match (parse_network_type(i.as_str()), parse_network_state(s.as_str())) {
                            (Some(t), Some(st)) => Some(ThunderEventMessage::Network(
                                NetworkResponse { _type: t, state: st },
                            )),
                            _ => None,
                        }
                    },
                    _ => None,
                }
            },
            DeviceEvent::SystemPowerStateChanged => {
                let p = obj_str(value, "powerState");
                let c = obj_str(value, "currentPowerState");
                match (p, c) {
                    (Some(p), Some(c)) => {
                        match (parse_power_state(p.as_str()), parse_power_state(c.as_str())) {
                            (Some(ps), Some(cs)) => Some(ThunderEventMessage::PowerState(
                                SystemPowerState { power_state: ps, current_power_state: cs },
                            )),
                            _ => None,
                        }
                    },
                    _ => None,
                }
            },
            DeviceEvent::VoiceGuidanceChanged => {
                match obj_bool(value, "state") {
                    Some(b) => Some(ThunderEventMessage::VoiceGuidance(VoiceGuidanceEvent {
                        state: b,
                    })),
                    None => None,
                }
            },
            DeviceEvent::AudioChanged => {
                let mut flags: Vec<(AudioProfile, bool)> = Vec::new();
                flags.push((AudioProfile::Stereo,
                    obj_bool(value, "stereo") == Some(true)));
                flags.push((AudioProfile::DolbyDigital5_1,
                    obj_bool(value, "dolbyDigital5.1") == Some(true)));
                flags.push((AudioProfile::DolbyDigital5_1_Plus,
                    obj_bool(value, "dolbyDigital5.1+") == Some(true)));
                flags.push((AudioProfile::DolbyAtmos,
                    obj_bool(value, "dolbyAtmos") == Some(true)));
                proof {
                    assert(flags.deep_view() =~= spec_audio_of(value.deep_view()));
                }
                Some(ThunderEventMessage::Audio(flags))
            },
        }
    }
}

} // verus!

verus! {

/// Whether a listener id occurs in a listener set.
pub open spec fn spec_listeners_contain(s: Seq<String>, id: Seq<char>) -> bool {
    exists|j: int| 0 <= j < s.len() && (#[trigger] s[j])@ == id
}

/// A listener set after adding `id`: one entry however often it is added.
pub open spec fn spec_add_listener(s: Seq<String>, id: String) -> Seq<String> {
    if spec_listeners_contain(s, id@) {
        s
    } else {
        s.push(id)
    }
}

/// A listener set after removing every entry for `id`.
pub open spec fn spec_remove_listener(s: Seq<String>, id: Seq<char>) -> Seq<String>
    decreases s,
{
    if s.len() == 0 {
        Seq::empty()
    } else if s.last()@ == id {
        spec_remove_listener(s.drop_last(), id)
    } else {
        spec_remove_listener(s.drop_last(), id).push(s.last())
    }
}

/// Adding a listener twice leaves the single entry the first add left:
/// addition is idempotent on the set.
pub proof fn law_add_listener_idempotent(s: Seq<String>, id: String)
    ensures
        spec_listeners_contain(spec_add_listener(s, id), id@),
        spec_add_listener(spec_add_listener(s, id), id) == spec_add_listener(s, id),
{
    if !spec_listeners_contain(s, id@) {
        assert(s.push(id)[s.len() as int]@ == id@);
    }
}

/// Removing a listener leaves no entry for it, so removing it again
/// changes nothing: removal is idempotent.
pub proof fn law_remove_listener_idempotent(s: Seq<String>, id: Seq<char>)
    ensures
        !spec_listeners_contain(spec_remove_listener(s, id), id),
        spec_remove_listener(spec_remove_listener(s, id), id) == spec_remove_listener(s, id),
    decreases s,
{
    if s.len() > 0 {
        law_remove_listener_idempotent(s.drop_last(), id);
        let r = spec_remove_listener(s, id);
        let rd = spec_remove_listener(s.drop_last(), id);
        if s.last()@ != id {
            if spec_listeners_contain(r, id) {
                let j = choose|j: int| 0 <= j < r.len() && (#[trigger] r[j])@ == id;
                if j < r.len() - 1 {
                    assert(rd[j]@ == id);
                }
            }
            assert(spec_remove_listener(r, id) =~= r) by {
                assert(r.drop_last() =~= rd);
                assert(spec_remove_listener(rd, id) == rd);
            }
        }
    }
}

/// One subscribable event's handler: the platform subscription it needs,
/// the event family it accepts, its listeners, and how decoded events
/// leave the processor.
#[derive(Debug)]
pub struct ThunderEventHandler {
    pub request: DeviceSubscribeRequest,
    pub kind: DeviceEvent,
    pub listeners: Vec<String>,
    pub id: String,
    pub callback_type: DeviceEventCallback,
}

/// Whether a decoded event belongs to the family a handler accepts:
/// the coarse validity filter applied before fan-out.
pub open spec fn spec_handler_accepts(kind: DeviceEvent, m: ThunderEventMessageV) -> bool {
    match m {
        ThunderEventMessageV::ActiveInput(_) =>
            kind == DeviceEvent::InputChanged || kind == DeviceEvent::HdrChanged,
        ThunderEventMessageV::Resolution { .. } =>
            kind == DeviceEvent::ScreenResolutionChanged
                || kind == DeviceEvent::VideoResolutionChanged,
        ThunderEventMessageV::Network(_) => kind == DeviceEvent::NetworkChanged,
        ThunderEventMessageV::PowerState(_) => kind == DeviceEvent::SystemPowerStateChanged,
        ThunderEventMessageV::VoiceGuidance(_) => kind == DeviceEvent::VoiceGuidanceChanged,
        ThunderEventMessageV::Audio(_) => kind == DeviceEvent::AudioChanged,
    }
}

impl ThunderEventHandler {
    /// The event name this handler stands for.
    pub fn get_id(&self) -> (r: String)
        ensures
            r@ == self.id@,
    {
        self.id.clone()
    }

    /// The platform subscription for an event of `module`/`event_name`,
    /// tagged with the mapped event it feeds.
    pub fn get_device_request(module: String, event_name: String, mapped_event: String)
        -> (r: DeviceSubscribeRequest)
        ensures
            r.module == module,
            r.event_name == event_name,
            r.params is None,
            r.sub_id matches Some(s) && s == mapped_event,
    {
        DeviceSubscribeRequest {
            module,
            event_name,
            params: None,
            sub_id: Some(mapped_event),
        }
    }

    /// Wraps a decoded result for delivery: as an application event
    /// under the mapped event name, or as a bare value on the bus.
    pub fn get_extn_event(result: JsonValue, mapped_event: String, callback_type: DeviceEventCallback)
        -> (r: Result<ExtnEvent, RippleError>)
        ensures
            match callback_type {
                DeviceEventCallback::FireboltAppEvent => r matches Ok(e)
                    && (e matches ExtnEvent::AppEvent(AppEventRequest::Emit(a))
                        && a.event_name == mapped_event
                        && a.result == result
                        && a.context is None
                        && a.app_id is None),
                DeviceEventCallback::ExtnEvent => r matches Ok(e)
                    && (e matches ExtnEvent::Value(v) && v == result),
            },
    {
        match callback_type {
            DeviceEventCallback::FireboltAppEvent => {
                Ok(ExtnEvent::AppEvent(AppEventRequest::Emit(AppEvent {
                    event_name: mapped_event,
                    context: None,
                    result,
                    app_id: None,
                })))
            },
            DeviceEventCallback::ExtnEvent => Ok(ExtnEvent::Value(result)),
        }
    }

    /// Adds a listener; a listener already present is not duplicated.
    pub fn add_listener(&mut self, id: String)
        ensures
            final(self).listeners@ == spec_add_listener(old(self).listeners@, id),
            final(self).request == old(self).request,
            final(self).kind == old(self).kind,
            final(self).id == old(self).id,
            final(self).callback_type == old(self).callback_type,
    {
        let mut i: usize = 0;
        while i < self.listeners.len()
            invariant
                0 <= i <= self.listeners@.len(),
                forall|j: int| 0 <= j < i ==> (#[trigger] self.listeners@[j])@ != id@,
                *self == *old(self),
            decreases self.listeners@.len() - i,
        {
            if str_eq(self.listeners[i].as_str(), id.as_str()) {
                proof {
                    assert(spec_listeners_contain(self.listeners@, id@));
                }
                return;
            }
            i += 1;
        }
        proof {
            if spec_listeners_contain(self.listeners@, id@) {
                let j = choose|j: int| 0 <= j < self.listeners@.len()
                    && (#[trigger] self.listeners@[j])@ == id@;
            }
            assert(!spec_listeners_contain(self.listeners@, id@));
        }
        self.listeners.push(id);
    }

    /// Removes a listener and says whether the set is now empty, which
    /// tells the caller to drop the platform subscription.
    pub fn remove_listener(&mut self, id: String) -> (r: bool)
        ensures
            final(self).listeners@ == spec_remove_listener(old(self).listeners@, id@),
            r == (final(self).listeners@.len() == 0),
            final(self).request == old(self).request,
            final(self).kind == old(self).kind,
            final(self).id == old(self).id,
            final(self).callback_type == old(self).callback_type,
    {
        let ghost p = self.listeners@;
        let mut kept: Vec<String> = Vec::new();
        let mut i: usize = 0;
        proof {
            assert(p.take(0) =~= Seq::<String>::empty());
        }
        while i < self.listeners.len()
            invariant
                0 <= i <= p.len(),
                self.listeners@ == p,
                kept@ == spec_remove_listener(p.take(i as int), id@),
                self.request == old(self).request,
                self.kind == old(self).kind,
                self.id == old(self).id,
                self.callback_type == old(self).callback_type,
            decreases p.len() - i,
        {
            proof {
                assert(p.take(i as int + 1).drop_last() =~= p.take(i as int));
                assert(p.take(i as int + 1).last() == p[i as int]);
            }
            if !str_eq(self.listeners[i].as_str(), id.as_str()) {
                kept.push(self.listeners[i].clone());
                proof {
                    assert(kept@.last()@ == p[i as int]@);
                    assert(kept@ =~= spec_remove_listener(p.take(i as int + 1), id@));
                }
            }
            i += 1;
        }
        proof {
            assert(p.take(p.len() as int) =~= p);
        }
        self.listeners = kept;
        self.listeners.len() == 0
    }

    /// Decodes a raw event and keeps it only when it belongs to the
    /// family this handler accepts.
    pub fn process(&self, event_id: &str, value: &JsonValue) -> (r: Option<ThunderEventMessage>)
        ensures
            match r {
                Some(m) => spec_thunder_event_of(event_id@, value.deep_view())
                        == Some(m.deep_view())
                    && spec_handler_accepts(self.kind, m.deep_view()),
                None => match spec_thunder_event_of(event_id@, value.deep_view()) {
                    Some(m) => !spec_handler_accepts(self.kind, m),
                    None => true,
                },
            },
    {
        match ThunderEventMessage::get(event_id, value) {
            Some(m) => {
                if self.is_valid(&m) {
                    Some(m)
                } else {
                    None
                }
            },
            None => None,
        }
    }

    /// The coarse validity filter: the decoded event's family must be
    /// the one this handler subscribed to.
    pub fn is_valid(&self, m: &ThunderEventMessage) -> (r: bool)
        ensures
            r == spec_handler_accepts(self.kind, m.deep_view()),
    {
        match m {
            ThunderEventMessage::ActiveInput(_) =>
                self.kind == DeviceEvent::InputChanged || self.kind == DeviceEvent::HdrChanged,
            ThunderEventMessage::Resolution(_) =>
                self.kind == DeviceEvent::ScreenResolutionChanged
                    || self.kind == DeviceEvent::VideoResolutionChanged,
            ThunderEventMessage::Network(_) => self.kind == DeviceEvent::NetworkChanged,
            ThunderEventMessage::PowerState(_) => self.kind == DeviceEvent::SystemPowerStateChanged,
            ThunderEventMessage::VoiceGuidance(_) => self.kind == DeviceEvent::VoiceGuidanceChanged,
            ThunderEventMessage::Audio(_) => self.kind == DeviceEvent::AudioChanged,
        }
    }
}

} // verus!

verus! {

/// The handler registered for an event name: the most recent write wins.
pub open spec fn spec_handler_lookup(m: Seq<(String, ThunderEventHandler)>, name: Seq<char>)
    -> Option<ThunderEventHandler>
    decreases m,
{
    if m.len() == 0 {
        None
    } else if m.last().0@ == name {
        Some(m.last().1)
    } else {
        spec_handler_lookup(m.drop_last(), name)
    }
}

/// The event map with every entry for `name` removed.
pub open spec fn spec_map_remove(m: Seq<(String, ThunderEventHandler)>, name: Seq<char>)
    -> Seq<(String, ThunderEventHandler)>
    decreases m,
{
    if m.len() == 0 {
        Seq::empty()
    } else if m.last().0@ == name {
        spec_map_remove(m.drop_last(), name)
    } else {
        spec_map_remove(m.drop_last(), name).push(m.last())
    }
}

/// Removal empties exactly the removed name and touches no other.
pub proof fn lemma_map_remove_lookup(
    m: Seq<(String, ThunderEventHandler)>,
    name: Seq<char>,
    other: Seq<char>,
)
    ensures
        spec_handler_lookup(spec_map_remove(m, name), name) is None,
        other != name ==> spec_handler_lookup(spec_map_remove(m, name), other)
            == spec_handler_lookup(m, other),
    decreases m,
{
    if m.len() > 0 {
        lemma_map_remove_lookup(m.drop_last(), name, other);
        if m.last().0@ != name {
            assert(spec_map_remove(m, name).drop_last() =~= spec_map_remove(m.drop_last(), name));
        }
    }
}

/// The most recent cached emission under an event name.
pub open spec fn spec_cache_lookup(c: Seq<(String, ExtnEvent)>, name: Seq<char>)
    -> Option<ExtnEvent>
    decreases c,
{
    if c.len() == 0 {
        None
    } else if c.last().0@ == name {
        Some(c.last().1)
    } else {
        spec_cache_lookup(c.drop_last(), name)
    }
}

/// Whether the cached previous emission under `name` equals `e`; false
/// when nothing is cached under the name.
pub open spec fn spec_last_event_matches(
    c: Seq<(String, ExtnEvent)>,
    name: Seq<char>,
    e: ExtnEvent,
) -> bool {
    match spec_cache_lookup(c, name) {
        Some(prev) => same_event(prev, e),
        None => false,
    }
}

/// Whether an emission must be delivered: only when it differs from the
/// cached previous emission under the same name.
pub open spec fn spec_should_send(c: Seq<(String, ExtnEvent)>, name: Seq<char>, e: ExtnEvent)
    -> bool
{
    !spec_last_event_matches(c, name, e)
}

/// Two consecutive emissions with identical encoded payloads produce
/// exactly one delivery: after the first is delivered and cached, the
/// second is suppressed.
pub proof fn law_duplicate_event_suppressed(
    c: Seq<(String, ExtnEvent)>,
    name: String,
    e1: ExtnEvent,
    e2: ExtnEvent,
)
    requires
        same_event(e1, e2),
    ensures
        !spec_should_send(c.push((name, e1)), name@, e2),
{
}

/// An emission that differs from the cached one is delivered again:
/// de-duplication only ever collapses identical neighbours.
pub proof fn law_changed_event_delivered(
    c: Seq<(String, ExtnEvent)>,
    name: String,
    e1: ExtnEvent,
    e2: ExtnEvent,
)
    requires
        !same_event(e1, e2),
    ensures
        spec_should_send(c.push((name, e1)), name@, e2),
{
}

/// The subscription registry, the de-duplication cache, and the fan-out
/// entry points.
#[derive(Debug)]
pub struct ThunderEventProcessor {
    event_map: Vec<(String, ThunderEventHandler)>,
    last_event: Vec<(String, ExtnEvent)>,
}

impl ThunderEventProcessor {
    /// The subscription registry view.
    pub closed spec fn map_view(&self) -> Seq<(String, ThunderEventHandler)> {
        self.event_map@
    }

    /// The de-duplication cache view.
    pub closed spec fn cache_view(&self) -> Seq<(String, ExtnEvent)> {
        self.last_event@
    }

    /// A processor with no subscriptions and an empty cache.
    pub fn new() -> (r: ThunderEventProcessor)
        ensures
            r.map_view().len() == 0,
            r.cache_view().len() == 0,
    {
        ThunderEventProcessor { event_map: Vec::new(), last_event: Vec::new() }
    }

    /// The handler registered for an event name.
    pub fn get_handler(&self, event: &str) -> (r: Option<&ThunderEventHandler>)
        ensures
            match r {
                Some(h) => spec_handler_lookup(self.map_view(), event@) == Some(*h),
                None => spec_handler_lookup(self.map_view(), event@) is None,
            },
    {
        let mut j: usize = self.event_map.len();
        proof {
            assert(self.event_map@.take(j as int) =~= self.event_map@);
        }
        while j > 0
            invariant
                0 <= j <= self.event_map@.len(),
                spec_handler_lookup(self.event_map@, event@)
                    == spec_handler_lookup(self.event_map@.take(j as int), event@),
            decreases j,
        {
            j = j - 1;
            proof {
                assert(self.event_map@.take(j as int + 1).drop_last()
                    =~= self.event_map@.take(j as int));
                assert(self.event_map@.take(j as int + 1).last() == self.event_map@[j as int]);
            }
            let entry = &self.event_map[j];
            if str_eq(entry.0.as_str(), event) {
                return Some(&entry.1);
            }
        }
        None
    }

    /// Adds or removes one listener of the handler's event, and says
    /// whether a platform-level subscribe or unsubscribe is required.
    pub fn handle_listener(&mut self, listen: bool, app_id: String, handler: ThunderEventHandler)
        -> (r: bool)
        ensures
            final(self).cache_view() == old(self).cache_view(),
            listen ==> r == (spec_handler_lookup(old(self).map_view(), handler.id@) is None),
            listen ==> (match spec_handler_lookup(final(self).map_view(), handler.id@) {
                Some(h2) => spec_listeners_contain(h2.listeners@, app_id@),
                None => false,
            }),
            !listen ==> ({
                let after = match spec_handler_lookup(old(self).map_view(), handler.id@) {
                    Some(h) => spec_remove_listener(h.listeners@, app_id@),
                    None => Seq::empty(),
                };
                &&& r == (after.len() == 0)
                &&& (after.len() == 0 ==> spec_handler_lookup(
                    final(self).map_view(), handler.id@) is None)
                &&& (after.len() != 0 ==> match spec_handler_lookup(
                        final(self).map_view(), handler.id@) {
                    Some(h2) => h2.listeners@ == after
                        && !spec_listeners_contain(h2.listeners@, app_id@),
                    None => false,
                })
            }),
    {
        if listen {
            self.add_event_listener(app_id, handler)
        } else {
            let id = handler.get_id();
            self.remove_event_listener(id, app_id)
        }
    }

    /// Registers `app_id` as a listener of the handler's event, creating
    /// the handler on first use; returns whether the platform subscribe
    /// must be issued.
    pub fn add_event_listener(&mut self, app_id: String, handler: ThunderEventHandler)
        -> (r: bool)
        ensures
            final(self).cache_view() == old(self).cache_view(),
            r == (spec_handler_lookup(old(self).map_view(), handler.id@) is None),
            match spec_handler_lookup(final(self).map_view(), handler.id@) {
                Some(h2) => spec_listeners_contain(h2.listeners@, app_id@)
                    && (match spec_handler_lookup(old(self).map_view(), handler.id@) {
                        Some(h) => h2.listeners@ == spec_add_listener(h.listeners@, app_id)
                            && h2.kind == h.kind && h2.callback_type == h.callback_type
                            && h2.id@ == h.id@,
                        None => h2.listeners@ == spec_add_listener(handler.listeners@, app_id)
                            && h2.kind == handler.kind
                            && h2.callback_type == handler.callback_type
                            && h2.id@ == handler.id@,
                    }),
                None => false,
            },
            forall|n: Seq<char>| n != handler.id@
                ==> spec_handler_lookup(final(self).map_view(), n)
                    == spec_handler_lookup(old(self).map_view(), n),
    {
        let ghost before = self.event_map@;
        let name = handler.get_id();
        match self.get_handler_owned(name.as_str()) {
            Some(mut h) => {
                let ghost pre = h.listeners@;
                let ghost pre_app = app_id;
                h.add_listener(app_id);
                self.event_map.push((name, h));
                proof {
                    assert(self.event_map@.drop_last() =~= before);
                    assert(self.event_map@.last().0@ == handler.id@);
                    lemma_add_contains(pre, pre_app);
                }
                false
            },
            None => {
                let mut h = handler;
                let ghost pre = h.listeners@;
                let ghost pre_app = app_id;
                h.add_listener(app_id);
                let key = h.get_id();
                self.event_map.push((key, h));
                proof {
                    assert(self.event_map@.drop_last() =~= before);
                    assert(self.event_map@.last().0@ == h.id@);
                    lemma_add_contains(pre, pre_app);
                }
                true
            },
        }
    }

    /// Removes `app_id` from the listeners of `event_name`; when the
    /// set empties, the handler is dropped and the caller must issue
    /// the platform unsubscribe.
    pub fn remove_event_listener(&mut self, event_name: String, app_id: String) -> (r: bool)
        ensures
            final(self).cache_view() == old(self).cache_view(),
            ({
                let after = match spec_handler_lookup(old(self).map_view(), event_name@) {
                    Some(h) => spec_remove_listener(h.listeners@, app_id@),
                    None => Seq::empty(),
                };
                &&& r == (after.len() == 0)
                &&& (after.len() == 0 ==> spec_handler_lookup(
                    final(self).map_view(), event_name@) is None)
                &&& (after.len() != 0 ==> match spec_handler_lookup(
                        final(self).map_view(), event_name@) {
                    Some(h2) => h2.listeners@ == after
                        && !spec_listeners_contain(h2.listeners@, app_id@),
                    None => false,
                })
            }),
            forall|n: Seq<char>| n != event_name@
                ==> spec_handler_lookup(final(self).map_view(), n)
                    == spec_handler_lookup(old(self).map_view(), n),
    {
        let ghost before = self.event_map@;
        match self.get_handler_owned(event_name.as_str()) {
            Some(mut h) => {
                let now_empty = h.remove_listener(app_id);
                proof {
                    law_remove_listener_idempotent(
                        spec_handler_lookup(before, event_name@)->Some_0.listeners@, app_id@);
                }
                if now_empty {
                    self.drop_handler(event_name.as_str());
                    proof {
                        lemma_map_remove_lookup(before, event_name@, event_name@);
                        assert forall|n: Seq<char>| n != event_name@
                            implies spec_handler_lookup(self.event_map@, n)
                                == spec_handler_lookup(before, n) by {
                            lemma_map_remove_lookup(before, event_name@, n);
                        }
                    }
                    true
                } else {
                    self.replace_handler(event_name, h);
                    false
                }
            },
            None => {
                let ghost after = Seq::<String>::empty();
                true
            },
        }
    }

    /// Caches an emission as the last one sent under its event name.
    pub fn add_last_event(&mut self, event_name: &str, value: &ExtnEvent)
        ensures
            final(self).map_view() == old(self).map_view(),
            match spec_cache_lookup(final(self).cache_view(), event_name@) {
                Some(cached) => same_event(cached, *value),
                None => false,
            },
            forall|n: Seq<char>| n != event_name@
                ==> spec_cache_lookup(final(self).cache_view(), n)
                    == spec_cache_lookup(old(self).cache_view(), n),
    {
        let ghost before = self.last_event@;
        self.last_event.push((String::from_str(event_name), value.clone()));
        proof {
            assert(self.last_event@.drop_last() =~= before);
            assert(self.last_event@.last().0@ == event_name@);
        }
    }

    /// Whether the cached previous emission under this name equals the
    /// value; false when nothing is cached.  The fan-out delivers
    /// exactly when this is false.
    pub fn check_last_event(&self, event_name: &str, value: &ExtnEvent) -> (r: bool)
        ensures
            r == spec_last_event_matches(self.cache_view(), event_name@, *value),
    {
        let mut j: usize = self.last_event.len();
        proof {
            assert(self.last_event@.take(j as int) =~= self.last_event@);
        }
        while j > 0
            invariant
                0 <= j <= self.last_event@.len(),
                spec_cache_lookup(self.last_event@, event_name@)
                    == spec_cache_lookup(self.last_event@.take(j as int), event_name@),
            decreases j,
        {
            j = j - 1;
            proof {
                assert(self.last_event@.take(j as int + 1).drop_last()
                    =~= self.last_event@.take(j as int));
                assert(self.last_event@.take(j as int + 1).last() == self.last_event@[j as int]);
            }
            let entry = &self.last_event[j];
            if str_eq(entry.0.as_str(), event_name) {
                return crate::extn_client_message::extn_event_eq(&entry.1, value);
            }
        }
        false
    }

    fn get_handler_owned(&self, event: &str) -> (r: Option<ThunderEventHandler>)
        ensures
            match r {
                Some(h) => spec_handler_lookup(self.map_view(), event@) matches Some(h0)
                    && h.request == h0.request && h.kind == h0.kind && h.id == h0.id
                    && h.callback_type == h0.callback_type && h.listeners@ == h0.listeners@,
                None => spec_handler_lookup(self.map_view(), event@) is None,
            },
    {
        match self.get_handler(event) {
            Some(h) => Some(clone_handler(h)),
            None => None,
        }
    }

    fn drop_handler(&mut self, event: &str)
        ensures
            final(self).event_map@ == spec_map_remove(old(self).event_map@, event@),
            final(self).last_event@ == old(self).last_event@,
    {
        let ghost p = self.event_map@;
        let mut kept: Vec<(String, ThunderEventHandler)> = Vec::new();
        proof {
            assert(p.take(0) =~= Seq::<(String, ThunderEventHandler)>::empty());
        }
        let mut source: Vec<(String, ThunderEventHandler)> = Vec::new();
        core::mem::swap(&mut source, &mut self.event_map);
        while source.len() > 0
            invariant
                source@.len() <= p.len(),
                source@ == p.skip(p.len() - source@.len()),
                kept@ == spec_map_remove(p.take(p.len() - source@.len()), event@),
            decreases source@.len(),
        {
            let ghost i = p.len() - source@.len();
            let entry = source.remove(0);
            proof {
                assert(entry == p[i as int]);
                assert(source@ =~= p.skip(i as int + 1));
                assert(p.take(i as int + 1).drop_last() =~= p.take(i as int));
                assert(p.take(i as int + 1).last() == p[i as int]);
            }
            if !str_eq(entry.0.as_str(), event) {
                kept.push(entry);
            }
        }
        proof {
            assert(p.take(p.len() as int) =~= p);
        }
        self.event_map = kept;
    }

    fn replace_handler(&mut self, key: String, h: ThunderEventHandler)
        ensures
            spec_handler_lookup(final(self).event_map@, key@) == Some(h),
            forall|n: Seq<char>| n != key@
                ==> spec_handler_lookup(final(self).event_map@, n)
                    == spec_handler_lookup(old(self).event_map@, n),
            final(self).last_event@ == old(self).last_event@,
    {
        let ghost before = self.event_map@;
        self.event_map.push((key, h));
        proof {
            assert(self.event_map@.drop_last() =~= before);
        }
    }
}

/// A copy of a handler with the same content.
fn clone_handler(h: &ThunderEventHandler) -> (r: ThunderEventHandler)
    ensures
        r.request == h.request,
        r.kind == h.kind,
        r.id == h.id,
        r.callback_type == h.callback_type,
        r.listeners@ == h.listeners@,
{
    let params = match &h.request.params {
        Some(p) => Some(p.clone()),
        None => None,
    };
    let sub_id = match &h.request.sub_id {
        Some(s) => Some(s.clone()),
        None => None,
    };
    let mut listeners: Vec<String> = Vec::new();
    let mut i: usize = 0;
    while i < h.listeners.len()
        invariant
            0 <= i <= h.listeners@.len(),
            listeners@.len() == i,
            forall|j: int| 0 <= j < i ==> listeners@[j] == h.listeners@[j],
        decreases h.listeners@.len() - i,
    {
        listeners.push(h.listeners[i].clone());
        i += 1;
    }
    proof {
        assert(listeners@ =~= h.listeners@);
    }
    ThunderEventHandler {
        request: DeviceSubscribeRequest {
            module: h.request.module.clone(),
            event_name: h.request.event_name.clone(),
            params,
            sub_id,
        },
        kind: h.kind,
        listeners,
        id: h.id.clone(),
        callback_type: h.callback_type,
    }
}

proof fn lemma_add_contains(s: Seq<String>, id: String)
    ensures
        spec_listeners_contain(spec_add_listener(s, id), id@),
{
    if !spec_listeners_contain(s, id@) {
        assert(s.push(id)[s.len() as int]@ == id@);
    }
}

impl ThunderEventHandler {
    /// De-duplicates and forwards one emission: an emission identical to
    /// the cached previous one under its name is dropped; anything else
    /// is cached and handed back for forwarding.
    pub fn callback_device_event(
        processor: &mut ThunderEventProcessor,
        event_name: &str,
        event: ExtnEvent,
    ) -> (r: Option<ExtnEvent>)
    ensures
        final(processor).map_view() == old(processor).map_view(),
        spec_should_send(old(processor).cache_view(), event_name@, event) ==> ({
            &&& r matches Some(e) && same_event(e, event)
            &&& match spec_cache_lookup(final(processor).cache_view(), event_name@) {
                Some(cached) => same_event(cached, event),
                None => false,
            }
            &&& forall|n: Seq<char>| n != event_name@
                ==> spec_cache_lookup(final(processor).cache_view(), n)
                    == spec_cache_lookup(old(processor).cache_view(), n)
        }),
        !spec_should_send(old(processor).cache_view(), event_name@, event)
            ==> r is None && final(processor).cache_view() == old(processor).cache_view(),
    {
        if !processor.check_last_event(event_name, &event) {
            processor.add_last_event(event_name, &event);
            Some(event)
        } else {
            None
        }
    }
}

} // verus!
