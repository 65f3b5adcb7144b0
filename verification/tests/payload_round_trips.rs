//! Round trips of contract payloads through the bus envelope and the
//! per-contract wrap/unwrap pairs.

use ripple_gateway::caps::CapsRequest;
use ripple_gateway::device_browser::{BrowserDestroyParams, BrowserRequest};
use ripple_gateway::device_info_request::{DeviceInfoRequest, DeviceResponse};
use ripple_gateway::device_wifi::{AccessPointRequest, WifiRequest, WifiSecurityMode};
use ripple_gateway::distributor_permissions::{
    AccountSession, FireboltPermission, PermissionRequest, PermissionResponse,
};
use ripple_gateway::caps::CapabilityRole;
use ripple_gateway::extn_client_message::{
    decode_extn_message, encode_extn_message, ExtnMessage, ExtnPayload, ExtnRequest,
    ExtnResponse,
};
use ripple_gateway::fb_advertising::{AdIdResponse, AdvertisingRequest, AdvertisingResponse};
use ripple_gateway::ripple_contract::RippleContract;

fn session() -> AccountSession {
    AccountSession {
        id: "sess".to_string(),
        token: "tok".to_string(),
        account_id: "acct".to_string(),
        device_id: "dev".to_string(),
    }
}

#[test]
fn caps_request_round_trip() {
    let x = CapsRequest::Supported(vec!["xrn:firebolt:capability:wifi:scan".to_string()]);
    let payload = x.get_extn_payload();
    match CapsRequest::get_from_payload(payload) {
        Some(CapsRequest::Supported(caps)) => {
            assert_eq!(caps, vec!["xrn:firebolt:capability:wifi:scan".to_string()]);
        }
        _ => panic!("capability query did not round-trip"),
    }
    assert!(matches!(CapsRequest::contract(), RippleContract::Caps));
}

#[test]
fn browser_request_round_trip() {
    let x = BrowserRequest::Destroy(BrowserDestroyParams { browser_name: "main".to_string() });
    let payload = x.get_extn_payload();
    match BrowserRequest::get_from_payload(payload) {
        Some(BrowserRequest::Destroy(p)) => assert_eq!(p.browser_name, "main"),
        _ => panic!("browser request did not round-trip"),
    }
}

#[test]
fn wifi_request_round_trip() {
    let x = WifiRequest::Connect(AccessPointRequest {
        ssid: "net".to_string(),
        passphrase: "SECRET-REDACTED".to_string(),
        security: WifiSecurityMode::Wpa2PskAes,
    });
    let payload = x.get_extn_payload();
    match WifiRequest::get_from_payload(payload) {
        Some(WifiRequest::Connect(ap)) => {
            assert_eq!(ap.ssid, "net");
            assert!(matches!(ap.security, WifiSecurityMode::Wpa2PskAes));
        }
        _ => panic!("wifi request did not round-trip"),
    }
}

#[test]
fn device_info_request_round_trip() {
    let x = DeviceInfoRequest::SetTimezone("America/New_York".to_string());
    let payload = x.get_extn_payload();
    match DeviceInfoRequest::get_from_payload(payload) {
        Some(DeviceInfoRequest::SetTimezone(tz)) => assert_eq!(tz, "America/New_York"),
        _ => panic!("device-info request did not round-trip"),
    }
}

#[test]
fn device_response_round_trip() {
    let x = DeviceResponse::ScreenResolutionResponse(vec![1920, 1080]);
    let payload = x.get_extn_payload();
    match DeviceResponse::get_from_payload(payload) {
        Some(DeviceResponse::ScreenResolutionResponse(v)) => assert_eq!(v, vec![1920, 1080]),
        _ => panic!("device response did not round-trip"),
    }
}

#[test]
fn permission_request_round_trip() {
    let x = PermissionRequest { app_id: "app".to_string(), session: session() };
    let payload = x.get_extn_payload();
    match PermissionRequest::get_from_payload(payload) {
        Some(p) => assert_eq!(p.app_id, "app"),
        None => panic!("permission request did not round-trip"),
    }
}

#[test]
fn permission_response_round_trip() {
    let x = PermissionResponse {
        permissions: vec![FireboltPermission {
            capability: "xrn:firebolt:capability:localization:locale".to_string(),
            role: CapabilityRole::Use,
        }],
    };
    let payload = x.get_extn_payload();
    match PermissionResponse::get_from_payload(payload) {
        Some(p) => {
            assert_eq!(p.permissions.len(), 1);
            assert_eq!(
                p.permissions[0].capability,
                "xrn:firebolt:capability:localization:locale"
            );
        }
        None => panic!("permission response did not round-trip"),
    }
}

#[test]
fn advertising_round_trips() {
    let x = AdvertisingRequest::ResetAdIdentifier(session());
    match AdvertisingRequest::get_from_payload(x.get_extn_payload()) {
        Some(AdvertisingRequest::ResetAdIdentifier(s)) => assert_eq!(s.account_id, "acct"),
        _ => panic!("advertising request did not round-trip"),
    }
    let y = AdvertisingResponse::AdIdObject(AdIdResponse {
        ifa: "ifa".to_string(),
        ifa_type: "idfa".to_string(),
        lmt: "0".to_string(),
    });
    match AdvertisingResponse::get_from_payload(y.get_extn_payload()) {
        Some(AdvertisingResponse::AdIdObject(a)) => assert_eq!(a.ifa, "ifa"),
        _ => panic!("advertising response did not round-trip"),
    }
}

#[test]
fn unwrap_refuses_other_request_kinds() {
    let caps = CapsRequest::Supported(vec![]).get_extn_payload();
    assert!(WifiRequest::get_from_payload(caps).is_none());
    let wifi = WifiRequest::Scan(30).get_extn_payload();
    assert!(CapsRequest::get_from_payload(wifi).is_none());
    let resp = DeviceResponse::VideoResolutionResponse(vec![]).get_extn_payload();
    assert!(DeviceInfoRequest::get_from_payload(resp).is_none());
}

#[test]
fn envelope_round_trip_for_valid_message() {
    let msg = ExtnMessage {
        id: 7,
        requestor: "main".to_string(),
        target: RippleContract::DeviceInfo,
        payload: ExtnPayload::Request(ExtnRequest::Device(
            ripple_gateway::device_request::DeviceRequest::DeviceInfo(
                DeviceInfoRequest::GetTimezone,
            ),
        )),
        callback: Some(7),
    };
    let env = encode_extn_message(msg);
    match decode_extn_message(env) {
        Some(m) => {
            assert_eq!(m.id, 7);
            assert_eq!(m.requestor, "main");
            assert!(matches!(m.target, RippleContract::DeviceInfo));
            assert_eq!(m.callback, Some(7));
        }
        None => panic!("valid message was dropped by the envelope decoder"),
    }
}

#[test]
fn envelope_drops_ill_shaped_messages() {
    // a request must carry a return channel
    let bad_request = ExtnMessage {
        id: 1,
        requestor: "main".to_string(),
        target: RippleContract::Caps,
        payload: ExtnPayload::Request(ExtnRequest::AuthorizedInfo(CapsRequest::Supported(vec![]))),
        callback: None,
    };
    assert!(decode_extn_message(encode_extn_message(bad_request)).is_none());
    // a response must not
    let bad_response = ExtnMessage {
        id: 2,
        requestor: "main".to_string(),
        target: RippleContract::Caps,
        payload: ExtnPayload::Response(ExtnResponse::Boolean(true)),
        callback: Some(2),
    };
    assert!(decode_extn_message(encode_extn_message(bad_response)).is_none());
}

#[test]
fn get_response_only_answers_requests() {
    let request = ExtnMessage {
        id: 3,
        requestor: "main".to_string(),
        target: RippleContract::Wifi,
        payload: ExtnPayload::Request(ExtnRequest::Device(
            ripple_gateway::device_request::DeviceRequest::Wifi(WifiRequest::Scan(10)),
        )),
        callback: Some(3),
    };
    let reply = request.get_response(ExtnResponse::Boolean(true)).unwrap();
    assert_eq!(reply.id, 3);
    assert!(reply.callback.is_none());
    assert!(matches!(reply.payload, ExtnPayload::Response(ExtnResponse::Boolean(true))));

    let event = ExtnMessage {
        id: 0,
        requestor: "main".to_string(),
        target: RippleContract::AppEvents,
        payload: ExtnPayload::Response(ExtnResponse::Empty),
        callback: None,
    };
    assert!(event.get_response(ExtnResponse::Empty).is_err());
}
