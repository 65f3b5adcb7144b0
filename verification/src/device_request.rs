//! Device-facing request and response building blocks shared by the
//! concrete device contracts.

use vstd::prelude::*;
use crate::device_browser::BrowserRequest;
use crate::device_info_request::DeviceInfoRequest;
use crate::device_wifi::WifiRequest;

verus! {

/// An audio capability of the device.
#[derive(Clone, Copy, Debug, PartialEq, Eq, Structural)]
pub enum AudioProfile {
    Stereo,
    DolbyDigital5_1,
    DolbyDigital5_1_Plus,
    DolbyAtmos,
}

impl DeepView for AudioProfile {
    type V = AudioProfile;

    open spec fn deep_view(&self) -> AudioProfile {
        *self
    }
}

/// A high-dynamic-range profile of the device.
#[derive(Clone, Copy, Debug, PartialEq, Eq, Structural)]
pub enum HdrProfile {
    Hdr10,
    Hlg,
    DolbyVision,
    Technicolor,
}

/// A content-protection profile of the device.
#[derive(Clone, Copy, Debug, PartialEq, Eq, Structural)]
pub enum HdcpProfile {
    Hdcp1_4,
    Hdcp2_2,
}

/// The connection kind of a network interface.
#[derive(Clone, Copy, Debug, PartialEq, Eq, Structural)]
pub enum NetworkType {
    Wifi,
    Ethernet,
    Hybrid,
}

/// Whether a network interface currently has connectivity.
#[derive(Clone, Copy, Debug, PartialEq, Eq, Structural)]
pub enum NetworkState {
    Connected,
    Disconnected,
}

/// The state of a network interface.
#[derive(Clone, Copy, Debug, PartialEq, Eq, Structural)]
pub struct NetworkResponse {
    pub _type: NetworkType,
    pub state: NetworkState,
}

/// A power state of the device.
#[derive(Clone, Copy, Debug, PartialEq, Eq, Structural)]
pub enum PowerState {
    On,
    ActiveStandby,
    PassiveStandby,
    LightSleep,
    DeepSleep,
    Off,
}

/// The reported and the previously reported power state.
#[derive(Clone, Copy, Debug, PartialEq, Eq, Structural)]
pub struct SystemPowerState {
    pub power_state: PowerState,
    pub current_power_state: PowerState,
}

/// Asks whether the device reaches the internet within `timeout` ms.
#[derive(Clone, Copy, Debug, PartialEq, Eq, Structural)]
pub struct OnInternetConnectedRequest {
    pub timeout: u64,
}

/// A plain string value handed to a string-setter method.
#[derive(Clone, Debug)]
pub struct SetStringProperty {
    pub value: String,
}

/// The value handed to the language setter.
#[derive(Clone, Debug)]
pub struct LanguageProperty {
    pub value: String,
}

/// The value handed to the time-zone setter.
#[derive(Clone, Debug)]
pub struct TimezoneProperty {
    pub value: String,
}

/// A request to one of the device contracts.
#[derive(Clone, Debug)]
pub enum DeviceRequest {
    DeviceInfo(DeviceInfoRequest),
    Browser(BrowserRequest),
    Wifi(WifiRequest),
}

} // verus!
