//! The device-information contract: request verbs and tagged responses.

use vstd::prelude::*;
use crate::device_request::{
    AudioProfile, DeviceRequest, HdcpProfile, HdrProfile, OnInternetConnectedRequest,
};
use crate::extn_client_message::{ExtnPayload, ExtnRequest, ExtnResponse};
use crate::ripple_contract::RippleContract;

verus! {

/// A request verb of the device-information contract.  The voice-guidance
/// speed is carried in hundredths, so a value of 100 is normal speed.
#[derive(Clone, Debug)]
pub enum DeviceInfoRequest {
    MacAddress,
    Model,
    Make,
    Name,
    Version,
    HdcpSupport,
    HdcpStatus,
    Hdr,
    Audio,
    Sku,
    ScreenResolution,
    VideoResolution,
    AvailableMemory,
    Network,
    OnInternetConnected(OnInternetConnectedRequest),
    SetTimezone(String),
    GetTimezone,
    GetAvailableTimezones,
    VoiceGuidanceEnabled,
    SetVoiceGuidanceEnabled(bool),
    VoiceGuidanceSpeed,
    SetVoiceGuidanceSpeed(u32),
    GetTimezoneWithOffset,
    FullCapabilities,
}

/// The content-protection state of the display link.
#[derive(Clone, Debug)]
pub struct HDCPStatus {
    pub is_connected: bool,
    pub is_hdcp_compliant: bool,
    pub is_hdcp_enabled: bool,
    pub supported_hdcp_version: String,
}

/// A semantic firmware version with its readable form.
#[derive(Clone, Debug)]
pub struct FireboltSemanticVersion {
    pub major: u32,
    pub minor: u32,
    pub patch: u32,
    pub readable: String,
}

/// Everything the device reports about itself at once.
#[derive(Clone, Debug)]
pub struct DeviceCapabilities {
    pub video_resolution: Vec<i32>,
    pub screen_resolution: Vec<i32>,
    pub firmware_info: FireboltSemanticVersion,
    pub hdr: Vec<(HdrProfile, bool)>,
    pub hdcp: HDCPStatus,
    pub is_wifi: bool,
    pub make: String,
    pub model: String,
    pub audio: Vec<(AudioProfile, bool)>,
}

/// A tagged response of the device-information contract.
#[derive(Clone, Debug)]
pub enum DeviceResponse {
    CustomError(String),
    AudioProfileResponse(Vec<(AudioProfile, bool)>),
    HdcpSupportResponse(Vec<(HdcpProfile, bool)>),
    HdcpStatusResponse(HDCPStatus),
    HdrResponse(Vec<(HdrProfile, bool)>),
    FirmwareInfo(FireboltSemanticVersion),
    ScreenResolutionResponse(Vec<i32>),
    VideoResolutionResponse(Vec<i32>),
    FullCapabilities(DeviceCapabilities),
}

impl DeviceInfoRequest {
    /// The payload a device-information request unwraps from, if any.
    pub open spec fn spec_from_payload(payload: ExtnPayload) -> Option<DeviceInfoRequest> {
        match payload {
            ExtnPayload::Request(ExtnRequest::Device(DeviceRequest::DeviceInfo(d))) => Some(d),
            _ => None,
        }
    }

    /// Wraps the request into a bus payload.
    pub fn get_extn_payload(self) -> (r: ExtnPayload)
        ensures
            r == ExtnPayload::Request(ExtnRequest::Device(DeviceRequest::DeviceInfo(self))),
    {
        ExtnPayload::Request(ExtnRequest::Device(DeviceRequest::DeviceInfo(self)))
    }

    /// Unwraps a bus payload back into the request.
    pub fn get_from_payload(payload: ExtnPayload) -> (r: Option<DeviceInfoRequest>)
        ensures
            r == Self::spec_from_payload(payload),
    {
        match payload {
            ExtnPayload::Request(ExtnRequest::Device(DeviceRequest::DeviceInfo(d))) => Some(d),
            _ => None,
        }
    }

    /// The contract device-information requests target.
    pub fn contract() -> (r: RippleContract)
        ensures
            r == RippleContract::DeviceInfo,
    {
        RippleContract::DeviceInfo
    }
}

impl DeviceResponse {
    /// The payload a device-information response unwraps from, if any.
    pub open spec fn spec_from_payload(payload: ExtnPayload) -> Option<DeviceResponse> {
        match payload {
            ExtnPayload::Response(ExtnResponse::Device(d)) => Some(d),
            _ => None,
        }
    }

    /// Wraps the response into a bus payload.
    pub fn get_extn_payload(self) -> (r: ExtnPayload)
        ensures
            r == ExtnPayload::Response(ExtnResponse::Device(self)),
    {
        ExtnPayload::Response(ExtnResponse::Device(self))
    }

    /// Unwraps a bus payload back into the response.
    pub fn get_from_payload(payload: ExtnPayload) -> (r: Option<DeviceResponse>)
        ensures
            r == Self::spec_from_payload(payload),
    {
        match payload {
            ExtnPayload::Response(ExtnResponse::Device(d)) => Some(d),
            _ => None,
        }
    }

    /// The contract device-information responses belong to.
    pub fn contract() -> (r: RippleContract)
        ensures
            r == RippleContract::DeviceInfo,
    {
        RippleContract::DeviceInfo
    }
}

/// Wrapping a device-information request and unwrapping it returns the
/// same request; a payload carrying any other kind unwraps to nothing.
pub proof fn lemma_device_info_round_trip(x: DeviceInfoRequest, payload: ExtnPayload)
    ensures
        DeviceInfoRequest::spec_from_payload(
            ExtnPayload::Request(ExtnRequest::Device(DeviceRequest::DeviceInfo(x)))) == Some(x),
        DeviceInfoRequest::spec_from_payload(payload) matches Some(y)
            ==> payload == ExtnPayload::Request(ExtnRequest::Device(DeviceRequest::DeviceInfo(y))),
{
}

/// Wrapping a device-information response and unwrapping it returns the
/// same response; a payload carrying any other kind unwraps to nothing.
pub proof fn lemma_device_response_round_trip(x: DeviceResponse, payload: ExtnPayload)
    ensures
        DeviceResponse::spec_from_payload(
            ExtnPayload::Response(ExtnResponse::Device(x))) == Some(x),
        DeviceResponse::spec_from_payload(payload) matches Some(y)
            ==> payload == ExtnPayload::Response(ExtnResponse::Device(y)),
{
}

} // verus!
