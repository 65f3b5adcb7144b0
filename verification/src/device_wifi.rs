//! The Wi-Fi contract: scanning for and connecting to access points.

use vstd::prelude::*;
use crate::device_request::DeviceRequest;
use crate::extn_client_message::{ExtnPayload, ExtnRequest};
use crate::ripple_contract::RippleContract;

verus! {

/// The security mode of an access point.
#[derive(Clone, Copy, Debug, PartialEq, Eq, Structural)]
pub enum WifiSecurityMode {
    NoSecurity,
    Wep64,
    Wep128,
    WpaPskTkip,
    WpaPskAes,
    Wpa2PskTkip,
    Wpa2PskAes,
    WpaEnterpriseTkip,
    WpaEnterpriseAes,
    Wpa2EnterpriseTkip,
    Wpa2EnterpriseAes,
    Wpa2Psk,
    Wpa2Enterprise,
    Wpa3PskAes,
    Wpa3Sae,
}

/// Credentials for joining an access point.
#[derive(Clone, Debug)]
pub struct AccessPointRequest {
    pub ssid: String,
    pub passphrase: String,
    pub security: WifiSecurityMode,
}

/// A request to the Wi-Fi contract: scan for `timeout` seconds, or join.
#[derive(Clone, Debug)]
pub enum WifiRequest {
    Scan(u64),
    Connect(AccessPointRequest),
}

/// A visible access point.  Signal strength is in dBm and the band
/// frequency in kHz, both as reported by the platform.
#[derive(Clone, Debug)]
pub struct AccessPoint {
    pub ssid: String,
    pub security_mode: WifiSecurityMode,
    pub signal_strength: i32,
    pub frequency_khz: u32,
}

/// The outcome of a scan.
#[derive(Clone, Debug)]
pub struct AccessPointList {
    pub list: Vec<AccessPoint>,
}

impl WifiRequest {
    /// The payload a Wi-Fi request unwraps from, if any.
    pub open spec fn spec_from_payload(payload: ExtnPayload) -> Option<WifiRequest> {
        match payload {
            ExtnPayload::Request(ExtnRequest::Device(DeviceRequest::Wifi(d))) => Some(d),
            _ => None,
        }
    }

    /// Wraps the request into a bus payload.
    pub fn get_extn_payload(self) -> (r: ExtnPayload)
        ensures
            r == ExtnPayload::Request(ExtnRequest::Device(DeviceRequest::Wifi(self))),
    {
        ExtnPayload::Request(ExtnRequest::Device(DeviceRequest::Wifi(self)))
    }

    /// Unwraps a bus payload back into the request.
    pub fn get_from_payload(payload: ExtnPayload) -> (r: Option<WifiRequest>)
        ensures
            r == Self::spec_from_payload(payload),
    {
        match payload {
            ExtnPayload::Request(ExtnRequest::Device(DeviceRequest::Wifi(d))) => Some(d),
            _ => None,
        }
    }

    /// The contract Wi-Fi requests target.
    pub fn contract() -> (r: RippleContract)
        ensures
            r == RippleContract::Wifi,
    {
        RippleContract::Wifi
    }
}

/// Wrapping a Wi-Fi request and unwrapping it returns the same request;
/// a payload carrying any other request kind unwraps to nothing.
pub proof fn lemma_wifi_round_trip(x: WifiRequest, payload: ExtnPayload)
    ensures
        WifiRequest::spec_from_payload(
            ExtnPayload::Request(ExtnRequest::Device(DeviceRequest::Wifi(x)))) == Some(x),
        WifiRequest::spec_from_payload(payload) matches Some(y)
            ==> payload == ExtnPayload::Request(ExtnRequest::Device(DeviceRequest::Wifi(y))),
{
}

} // verus!
