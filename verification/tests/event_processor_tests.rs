//! The device-event processor: decode, listener lifecycle, and the
//! de-duplication of identical consecutive emissions.

use ripple_gateway::device_request::{NetworkState, NetworkType, PowerState};
use ripple_gateway::extn_client_message::{AppEventRequest, ExtnEvent};
use ripple_gateway::json::JsonValue;
use ripple_gateway::thunder_event_processor::{
    DeviceEvent, DeviceEventCallback, DeviceSubscribeRequest,
    ThunderEventHandler, ThunderEventMessage, ThunderEventProcessor,
};

fn obj(entries: Vec<(&str, JsonValue)>) -> JsonValue {
    JsonValue::Obj(entries.into_iter().map(|(k, v)| (k.to_string(), v)).collect())
}

fn voice_guidance_handler() -> ThunderEventHandler {
    ThunderEventHandler {
        request: DeviceSubscribeRequest {
            module: "org.rdk.TextToSpeech".to_string(),
            event_name: "onttsstatechanged".to_string(),
            params: None,
            sub_id: Some("device.onVoiceGuidanceChanged".to_string()),
        },
        kind: DeviceEvent::VoiceGuidanceChanged,
        listeners: vec![],
        id: "device.onVoiceGuidanceChanged".to_string(),
        callback_type: DeviceEventCallback::FireboltAppEvent,
    }
}

fn voice_guidance_event(on: bool) -> ExtnEvent {
    let body = obj(vec![("state", JsonValue::Bool(on))]);
    ThunderEventHandler::get_extn_event(
        body,
        "device.onVoiceGuidanceChanged".to_string(),
        DeviceEventCallback::FireboltAppEvent,
    )
    .unwrap()
}

#[test]
fn decodes_voice_guidance_events() {
    let value = obj(vec![("state", JsonValue::Bool(true))]);
    match ThunderEventMessage::get("device.onVoiceGuidanceChanged", &value) {
        Some(ThunderEventMessage::VoiceGuidance(v)) => assert!(v.state),
        _ => panic!("voice-guidance payload did not decode"),
    }
}

#[test]
fn decodes_network_events() {
    let value = obj(vec![
        ("interface", JsonValue::Str("WIFI".to_string())),
        ("status", JsonValue::Str("CONNECTED".to_string())),
    ]);
    match ThunderEventMessage::get("device.onNetworkChanged", &value) {
        Some(ThunderEventMessage::Network(n)) => {
            assert!(matches!(n._type, NetworkType::Wifi));
            assert!(matches!(n.state, NetworkState::Connected));
        }
        _ => panic!("network payload did not decode"),
    }
}

#[test]
fn decodes_power_state_events() {
    let value = obj(vec![
        ("powerState", JsonValue::Str("ON".to_string())),
        ("currentPowerState", JsonValue::Str("DEEP_SLEEP".to_string())),
    ]);
    match ThunderEventMessage::get("device.onSystemPowerStateChanged", &value) {
        Some(ThunderEventMessage::PowerState(p)) => {
            assert!(matches!(p.power_state, PowerState::On));
            assert!(matches!(p.current_power_state, PowerState::DeepSleep));
        }
        _ => panic!("power payload did not decode"),
    }
}

#[test]
fn decodes_resolution_events() {
    let value = obj(vec![
        ("width", JsonValue::Int(1920)),
        ("height", JsonValue::Int(1080)),
        ("videoDisplayType", JsonValue::Str("HDMI0".to_string())),
        ("resolution", JsonValue::Str("1080p".to_string())),
    ]);
    match ThunderEventMessage::get("device.onScreenResolutionChanged", &value) {
        Some(ThunderEventMessage::Resolution(r)) => {
            assert_eq!(r.width, 1920);
            assert_eq!(r.height, 1080);
            assert_eq!(r.resolution, "1080p");
        }
        _ => panic!("resolution payload did not decode"),
    }
}

#[test]
fn unknown_events_and_bad_payloads_decode_to_nothing() {
    let value = obj(vec![("state", JsonValue::Bool(true))]);
    assert!(ThunderEventMessage::get("device.onSomethingElse", &value).is_none());
    let wrong = obj(vec![("other", JsonValue::Null)]);
    assert!(ThunderEventMessage::get("device.onVoiceGuidanceChanged", &wrong).is_none());
}

#[test]
fn handler_filters_foreign_event_families() {
    let handler = voice_guidance_handler();
    let voice = obj(vec![("state", JsonValue::Bool(true))]);
    assert!(handler.process("device.onVoiceGuidanceChanged", &voice).is_some());
    // a decodable event of another family is filtered out
    let network = obj(vec![
        ("interface", JsonValue::Str("WIFI".to_string())),
        ("status", JsonValue::Str("CONNECTED".to_string())),
    ]);
    assert!(handler.process("device.onNetworkChanged", &network).is_none());
}

#[test]
fn identical_consecutive_events_are_delivered_once() {
    let mut processor = ThunderEventProcessor::new();
    // first emission is delivered
    let first = ThunderEventHandler::callback_device_event(
        &mut processor,
        "device.onVoiceGuidanceChanged",
        voice_guidance_event(true),
    );
    assert!(first.is_some());
    // an identical consecutive emission is suppressed
    let second = ThunderEventHandler::callback_device_event(
        &mut processor,
        "device.onVoiceGuidanceChanged",
        voice_guidance_event(true),
    );
    assert!(second.is_none());
    // a different value in between re-arms the event
    let third = ThunderEventHandler::callback_device_event(
        &mut processor,
        "device.onVoiceGuidanceChanged",
        voice_guidance_event(false),
    );
    assert!(third.is_some());
    let fourth = ThunderEventHandler::callback_device_event(
        &mut processor,
        "device.onVoiceGuidanceChanged",
        voice_guidance_event(true),
    );
    assert!(fourth.is_some());
}

#[test]
fn dedup_is_per_event_name() {
    let mut processor = ThunderEventProcessor::new();
    assert!(ThunderEventHandler::callback_device_event(
        &mut processor,
        "device.onVoiceGuidanceChanged",
        voice_guidance_event(true),
    )
    .is_some());
    // the same payload under another name is not suppressed
    assert!(ThunderEventHandler::callback_device_event(
        &mut processor,
        "device.onHdrChanged",
        voice_guidance_event(true),
    )
    .is_some());
}

#[test]
fn listener_add_is_idempotent() {
    let mut processor = ThunderEventProcessor::new();
    // first use creates the handler: the platform subscribe is required
    assert!(processor.add_event_listener("app-a".to_string(), voice_guidance_handler()));
    // adding the same listener again changes nothing visible
    assert!(!processor.add_event_listener("app-a".to_string(), voice_guidance_handler()));
    let handler = processor.get_handler("device.onVoiceGuidanceChanged").unwrap();
    assert_eq!(handler.listeners, vec!["app-a".to_string()]);
}

#[test]
fn listener_remove_is_idempotent() {
    let mut processor = ThunderEventProcessor::new();
    processor.add_event_listener("app-a".to_string(), voice_guidance_handler());
    // removing the only listener empties the set: unsubscribe required
    assert!(processor.remove_event_listener(
        "device.onVoiceGuidanceChanged".to_string(),
        "app-a".to_string()
    ));
    assert!(processor.get_handler("device.onVoiceGuidanceChanged").is_none());
    // removing again is a no-op on the registry
    assert!(processor.remove_event_listener(
        "device.onVoiceGuidanceChanged".to_string(),
        "app-a".to_string()
    ));
    assert!(processor.get_handler("device.onVoiceGuidanceChanged").is_none());
}

#[test]
fn second_listener_keeps_the_subscription_alive() {
    let mut processor = ThunderEventProcessor::new();
    assert!(processor.handle_listener(true, "app-a".to_string(), voice_guidance_handler()));
    // a second app joins the existing handler: no new platform subscribe
    assert!(!processor.handle_listener(true, "app-b".to_string(), voice_guidance_handler()));
    // the first app leaving keeps the handler alive
    assert!(!processor.handle_listener(false, "app-a".to_string(), voice_guidance_handler()));
    let handler = processor.get_handler("device.onVoiceGuidanceChanged").unwrap();
    assert_eq!(handler.listeners, vec!["app-b".to_string()]);
    // the last app leaving drops it: unsubscribe required
    assert!(processor.handle_listener(false, "app-b".to_string(), voice_guidance_handler()));
    assert!(processor.get_handler("device.onVoiceGuidanceChanged").is_none());
}

#[test]
fn extn_event_wrapping_matches_callback_mode() {
    let body = obj(vec![("state", JsonValue::Bool(true))]);
    match ThunderEventHandler::get_extn_event(
        body,
        "device.onVoiceGuidanceChanged".to_string(),
        DeviceEventCallback::FireboltAppEvent,
    ) {
        Ok(ExtnEvent::AppEvent(AppEventRequest::Emit(a))) => {
            assert_eq!(a.event_name, "device.onVoiceGuidanceChanged");
            assert!(a.context.is_none());
            assert!(a.app_id.is_none());
        }
        _ => panic!("app-event mode must wrap an application event"),
    }
    let body2 = obj(vec![("state", JsonValue::Bool(false))]);
    match ThunderEventHandler::get_extn_event(
        body2,
        "device.onVoiceGuidanceChanged".to_string(),
        DeviceEventCallback::ExtnEvent,
    ) {
        Ok(ExtnEvent::Value(JsonValue::Obj(_))) => {}
        _ => panic!("bus mode must carry the bare value"),
    }
}

#[test]
fn subscribe_request_carries_the_mapped_event() {
    let r = ThunderEventHandler::get_device_request(
        "org.rdk.System".to_string(),
        "onTimeZoneDSTChanged".to_string(),
        "localization.onTimeZoneChanged".to_string(),
    );
    assert_eq!(r.module, "org.rdk.System");
    assert_eq!(r.event_name, "onTimeZoneDSTChanged");
    assert!(r.params.is_none());
    assert_eq!(r.sub_id, Some("localization.onTimeZoneChanged".to_string()));
}
