//! The application library, the bootstrap pipeline, the pool step, and
//! the JSON codec's exact text.

use ripple_gateway::app_library::{
    AppLibrary, AppLibraryEntry, AppLibraryState, AppManifest, AppManifestLoad, BootState,
    ManifestCapabilities, ProvidedCapabilities,
};
use ripple_gateway::boot::{boot, BootstrapStep};
use ripple_gateway::device_browser::{BrowserLaunchParams, BrowserProps};
use ripple_gateway::fb_advertising::{Environment, GetAdConfig};
use ripple_gateway::extn_client_message::ExtnStatus;
use ripple_gateway::json::{encode_json, json_eq, parse_json_text, JsonValue};
use ripple_gateway::setup_thunder_pool_step::ThunderPoolStep;
use ripple_gateway::RippleError;

fn embedded_app(app_id: &str, caps: Vec<&str>, boot_state: BootState) -> AppLibraryEntry {
    AppLibraryEntry {
        app_id: app_id.to_string(),
        manifest: AppManifestLoad::Embedded(AppManifest {
            name: app_id.to_string(),
            capabilities: ManifestCapabilities {
                provided: ProvidedCapabilities {
                    required: caps.into_iter().map(|c| c.to_string()).collect(),
                    optional: vec![],
                },
            },
        }),
        boot_state,
    }
}

#[test]
fn provider_map_points_capabilities_at_their_apps() {
    let state = AppLibraryState::new(vec![
        embedded_app("app-a", vec!["cap:x"], BootState::Inactive),
        embedded_app("app-b", vec!["cap:y"], BootState::Foreground),
    ]);
    assert_eq!(AppLibrary::get_provider(&state, "cap:x".to_string()), Some("app-a".to_string()));
    assert_eq!(AppLibrary::get_provider(&state, "cap:y".to_string()), Some("app-b".to_string()));
    assert_eq!(AppLibrary::get_provider(&state, "cap:z".to_string()), None);
}

#[test]
fn later_library_entries_win_capability_conflicts() {
    let state = AppLibraryState::new(vec![
        embedded_app("app-a", vec!["cap:x"], BootState::Inactive),
        embedded_app("app-b", vec!["cap:x"], BootState::Inactive),
    ]);
    assert_eq!(AppLibrary::get_provider(&state, "cap:x".to_string()), Some("app-b".to_string()));
}

#[test]
fn default_app_is_the_first_foreground_entry() {
    let state = AppLibraryState::new(vec![
        embedded_app("app-a", vec![], BootState::Inactive),
        embedded_app("app-b", vec![], BootState::Foreground),
        embedded_app("app-c", vec![], BootState::Foreground),
    ]);
    assert_eq!(state.get_default_app().unwrap().app_id, "app-b");
    let none = AppLibraryState::new(vec![embedded_app("app-a", vec![], BootState::Inactive)]);
    assert!(none.get_default_app().is_none());
}

#[test]
fn only_embedded_manifests_are_served() {
    let state = AppLibraryState::new(vec![
        embedded_app("app-a", vec![], BootState::Inactive),
        AppLibraryEntry {
            app_id: "app-r".to_string(),
            manifest: AppManifestLoad::Remote("https://apps.example/app-r".to_string()),
            boot_state: BootState::Inactive,
        },
    ]);
    assert!(AppLibrary::get_manifest(&state, "app-a").is_some());
    assert!(AppLibrary::get_manifest(&state, "app-r").is_none());
    assert!(AppLibrary::get_manifest(&state, "app-z").is_none());
    assert_eq!(state.get_all_apps().len(), 2);
}

#[test]
fn bootstrap_is_fail_fast_and_ordered() {
    assert!(boot(Ok(()), Ok(()), Ok(())).is_ok());
    assert_eq!(
        boot(Err(RippleError::BootstrapError), Ok(()), Ok(())),
        Err((BootstrapStep::SetupExtnClient, RippleError::BootstrapError))
    );
    assert_eq!(
        boot(Ok(()), Err(RippleError::SendFailure), Ok(())),
        Err((BootstrapStep::StartWs, RippleError::SendFailure))
    );
    assert_eq!(
        boot(Ok(()), Ok(()), Err(RippleError::BootstrapError)),
        Err((BootstrapStep::StartFireboltGateway, RippleError::BootstrapError))
    );
}

#[test]
fn undersized_pools_fail_before_anything_opens() {
    let (result, statuses) = ThunderPoolStep::setup(1, Ok(()), Ok(()));
    assert_eq!(result, Err(RippleError::BootstrapError));
    assert!(statuses.is_empty());
}

#[test]
fn controller_failure_fails_the_bootstrap() {
    // whatever the connection reported, the bootstrap fails as such
    let (result, statuses) = ThunderPoolStep::setup(2, Err(RippleError::SendFailure), Ok(()));
    assert_eq!(result, Err(RippleError::BootstrapError));
    assert_eq!(statuses, vec![ExtnStatus::Error]);
}

#[test]
fn pool_failure_announces_error_and_fails() {
    let (result, statuses) = ThunderPoolStep::setup(2, Ok(()), Err(RippleError::SendFailure));
    assert_eq!(result, Err(RippleError::SendFailure));
    assert_eq!(statuses, vec![ExtnStatus::Error]);
}

#[test]
fn healthy_pool_announces_ready() {
    let (result, statuses) = ThunderPoolStep::setup(2, Ok(()), Ok(()));
    assert!(result.is_ok());
    assert_eq!(statuses, vec![ExtnStatus::Ready]);
    assert_eq!(ThunderPoolStep::get_name(), "ThunderPoolStep");
}

#[test]
fn json_encoding_is_canonical_compact_text() {
    let v = JsonValue::Obj(vec![
        ("a".to_string(), JsonValue::Int(-5)),
        ("b".to_string(), JsonValue::Arr(vec![
            JsonValue::Null,
            JsonValue::Bool(true),
            JsonValue::Str("x\"y\\z".to_string()),
        ])),
    ]);
    assert_eq!(encode_json(&v), "{\"a\":-5,\"b\":[null,true,\"x\\\"y\\\\z\"]}");
}

#[test]
fn json_parse_really_parses() {
    // a parser that handed its input back unchanged could not produce
    // a structured document out of this text
    let v = parse_json_text("{\"n\":12,\"ok\":false}").unwrap();
    match &v {
        JsonValue::Obj(entries) => {
            assert_eq!(entries.len(), 2);
            assert!(matches!(entries[0].1, JsonValue::Int(12)));
            assert!(matches!(entries[1].1, JsonValue::Bool(false)));
        }
        _ => panic!("object text must parse to an object"),
    }
    assert_eq!(encode_json(&v), "{\"n\":12,\"ok\":false}");
    assert!(parse_json_text("{\"unterminated\":").is_none());
}

#[test]
fn json_equality_is_structural() {
    let a = parse_json_text("{\"x\":[1,2,{\"y\":null}]}").unwrap();
    let b = parse_json_text("{\"x\":[1,2,{\"y\":null}]}").unwrap();
    let c = parse_json_text("{\"x\":[1,2,{\"y\":0}]}").unwrap();
    assert!(json_eq(&a, &b));
    assert!(!json_eq(&a, &c));
    let cloned = a.clone();
    assert!(json_eq(&a, &cloned));
}

#[test]
fn browser_local_storage_defaults_to_disabled() {
    let props = BrowserProps {
        user_agent: None,
        http_cookie_accept_policy: None,
        local_storage_enabled: None,
        languages: None,
        headers: None,
    };
    assert!(!props.is_local_storage_enabled());
    let enabled = BrowserProps { local_storage_enabled: Some(true), ..props.clone() };
    assert!(enabled.is_local_storage_enabled());
    let launch = BrowserLaunchParams {
        uri: "https://apps.example/a".to_string(),
        browser_name: "main".to_string(),
        _type: "web".to_string(),
        visible: true,
        suspend: false,
        focused: true,
        name: "a".to_string(),
        x: 0,
        y: 0,
        w: 1920,
        h: 1080,
        properties: None,
    };
    assert!(!launch.is_local_storage_enabled());
    let launch_enabled = BrowserLaunchParams { properties: Some(enabled), ..launch };
    assert!(launch_enabled.is_local_storage_enabled());
}

#[test]
fn advertising_defaults_are_production_safe() {
    let config = GetAdConfig::default();
    assert!(matches!(config.options.environment, Environment::Prod));
    assert_eq!(config.options.coppa, Some(false));
    assert_eq!(config.options.authentication_entity, Some(String::new()));
    assert_eq!(Environment::Prod.as_name(), "prod");
    assert_eq!(Environment::Test.as_name(), "test");
    assert!(matches!(Environment::default(), Environment::Prod));
}

#[test]
fn json_integer_encoding_covers_the_extremes() {
    assert_eq!(encode_json(&JsonValue::Int(0)), "0");
    assert_eq!(encode_json(&JsonValue::Int(i64::MAX)), "9223372036854775807");
    assert_eq!(encode_json(&JsonValue::Int(i64::MIN)), "-9223372036854775808");
    match parse_json_text("-9223372036854775808") {
        Some(JsonValue::Int(i)) => assert_eq!(i, i64::MIN),
        _ => panic!("the smallest integer must parse"),
    }
}

#[test]
fn json_string_escapes_round_trip() {
    let v = JsonValue::Str("line\nbreak\ttab\rret".to_string());
    let text = encode_json(&v);
    assert_eq!(text, "\"line\\nbreak\\ttab\\rret\"");
    match parse_json_text(&text) {
        Some(JsonValue::Str(s)) => assert_eq!(s, "line\nbreak\ttab\rret"),
        _ => panic!("escaped text must parse back to the same string"),
    }
}
