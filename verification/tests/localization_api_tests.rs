//! The localization API called directly, without going through frames.

use ripple_gateway::device_request::{LanguageProperty, SetStringProperty};
use ripple_gateway::localization_rpc::{LocalizationImpl, CODE_PROPERTY_UNAVAILABLE};
use ripple_gateway::platform_state::PlatformState;
use ripple_gateway::rpc_gateway_api::{ApiProtocol, CallContext, ListenRequest};

fn ctx() -> CallContext {
    CallContext {
        session_id: "sess-1".to_string(),
        request_id: "r-1".to_string(),
        app_id: "app-a".to_string(),
        call_id: 1,
        protocol: ApiProtocol::JsonRpc,
        method: "localization.locality".to_string(),
    }
}

#[test]
fn properties_read_back_what_setters_stored() {
    let mut state = PlatformState::new();
    let missing = LocalizationImpl::locality(&state);
    assert_eq!(missing.unwrap_err().code, CODE_PROPERTY_UNAVAILABLE);
    LocalizationImpl::locality_set(&mut state, SetStringProperty { value: "US-CA".to_string() })
        .unwrap();
    assert_eq!(LocalizationImpl::locality(&state).unwrap(), "US-CA");
    LocalizationImpl::country_code_set(&mut state, SetStringProperty { value: "US".to_string() })
        .unwrap();
    assert_eq!(LocalizationImpl::country_code(&state).unwrap(), "US");
    LocalizationImpl::language_set(&mut state, LanguageProperty { value: "en".to_string() })
        .unwrap();
    assert_eq!(LocalizationImpl::language(&state).unwrap(), "en");
    LocalizationImpl::locale_set(&mut state, SetStringProperty { value: "en-US".to_string() })
        .unwrap();
    assert_eq!(LocalizationImpl::locale(&state).unwrap(), "en-US");
    LocalizationImpl::latlon_set(&mut state, SetStringProperty { value: "0.0,0.0".to_string() })
        .unwrap();
    assert_eq!(LocalizationImpl::latlon(&state).unwrap(), "0.0,0.0");
    // the most recent write wins
    LocalizationImpl::locality_set(&mut state, SetStringProperty { value: "US-NY".to_string() })
        .unwrap();
    assert_eq!(LocalizationImpl::locality(&state).unwrap(), "US-NY");
}

#[test]
fn postal_code_prefers_the_device_wide_property() {
    let mut state = PlatformState::new();
    assert!(LocalizationImpl::postal_code(&state, "app-a".to_string()).is_none());
    state.storage.set_string_in_namespace(
        "app-a".to_string(),
        "postalCode".to_string(),
        "94111".to_string(),
    );
    assert_eq!(
        LocalizationImpl::postal_code(&state, "app-a".to_string()),
        Some("94111".to_string())
    );
    // another application does not see the namespaced value
    assert!(LocalizationImpl::postal_code(&state, "app-b".to_string()).is_none());
    LocalizationImpl::postal_code_set(&mut state, SetStringProperty { value: "10001".to_string() })
        .unwrap();
    assert_eq!(
        LocalizationImpl::postal_code(&state, "app-a".to_string()),
        Some("10001".to_string())
    );
}

#[test]
fn listener_registration_collapses_to_the_last_call() {
    let mut state = PlatformState::new();
    let c = ctx();
    // listen then unlisten collapses to "not listening"
    let on = LocalizationImpl::on_timezone_changed(&mut state, &c, ListenRequest { listen: true })
        .unwrap();
    assert!(on.listening);
    assert_eq!(on.event, "localization.onTimeZoneChanged");
    let off = LocalizationImpl::on_timezone_changed(&mut state, &c, ListenRequest { listen: false })
        .unwrap();
    assert!(!off.listening);
    assert!(!state.listeners.is_listening("localization.onTimeZoneChanged", "app-a"));
    // registering twice leaves a single entry; one unlisten clears it
    LocalizationImpl::on_language_changed(&mut state, &c, ListenRequest { listen: true }).unwrap();
    LocalizationImpl::on_language_changed(&mut state, &c, ListenRequest { listen: true }).unwrap();
    LocalizationImpl::on_language_changed(&mut state, &c, ListenRequest { listen: false }).unwrap();
    assert!(!state.listeners.is_listening("localization.onLanguageChanged", "app-a"));
}

#[test]
fn additional_info_round_trips_through_storage() {
    let mut state = PlatformState::new();
    LocalizationImpl::additional_info_set(
        &mut state,
        SetStringProperty { value: "{\"zip\":\"94111\"}".to_string() },
    )
    .unwrap();
    let info = LocalizationImpl::additional_info(&state).unwrap();
    assert_eq!(ripple_gateway::json::encode_json(&info), "{\"zip\":\"94111\"}");
    // text that is not a flat string map is refused
    LocalizationImpl::additional_info_set(
        &mut state,
        SetStringProperty { value: "{\"n\":3}".to_string() },
    )
    .unwrap();
    assert!(LocalizationImpl::additional_info(&state).is_err());
}
