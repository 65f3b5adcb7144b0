//! The browser contract: launching, destroying and naming browser
//! instances on the device.

use vstd::prelude::*;
use crate::device_request::DeviceRequest;
use crate::extn_client_message::{ExtnPayload, ExtnRequest};
use crate::ripple_contract::RippleContract;

verus! {

/// Optional properties a browser instance is launched with.
#[derive(Clone, Debug)]
pub struct BrowserProps {
    pub user_agent: Option<String>,
    pub http_cookie_accept_policy: Option<String>,
    pub local_storage_enabled: Option<bool>,
    pub languages: Option<String>,
    pub headers: Option<String>,
}

impl BrowserProps {
    /// Whether local storage was asked for; absent means disabled.
    pub fn is_local_storage_enabled(&self) -> (r: bool)
        ensures
            r == (self.local_storage_enabled == Some(true)),
    {
        if self.local_storage_enabled.is_some() {
            return self.local_storage_enabled.unwrap();
        }
        false
    }
}

/// Everything needed to start a browser instance.
#[derive(Clone, Debug)]
pub struct BrowserLaunchParams {
    pub uri: String,
    pub browser_name: String,
    pub _type: String,
    pub visible: bool,
    pub suspend: bool,
    pub focused: bool,
    pub name: String,
    pub x: u32,
    pub y: u32,
    pub w: u32,
    pub h: u32,
    pub properties: Option<BrowserProps>,
}

impl BrowserLaunchParams {
    /// Whether local storage was asked for; absent properties mean disabled.
    pub fn is_local_storage_enabled(&self) -> (r: bool)
        ensures
            r == (match self.properties {
                Some(p) => p.local_storage_enabled == Some(true),
                None => false,
            }),
    {
        match &self.properties {
            Some(p) => p.is_local_storage_enabled(),
            None => false,
        }
    }
}

/// Names the browser instance to tear down.
#[derive(Clone, Debug)]
pub struct BrowserDestroyParams {
    pub browser_name: String,
}

/// Asks for the name a new browser instance should run under.
#[derive(Clone, Debug)]
pub struct BrowserNameRequestParams {
    pub runtime: String,
    pub name: String,
    pub instances: usize,
}

/// A request to the browser contract.
#[derive(Clone, Debug)]
pub enum BrowserRequest {
    Start(BrowserLaunchParams),
    Destroy(BrowserDestroyParams),
    GetBrowserName(BrowserNameRequestParams),
}

impl BrowserRequest {
    /// The payload a browser request unwraps from, if any.
    pub open spec fn spec_from_payload(payload: ExtnPayload) -> Option<BrowserRequest> {
        match payload {
            ExtnPayload::Request(ExtnRequest::Device(DeviceRequest::Browser(d))) => Some(d),
            _ => None,
        }
    }

    /// Wraps the request into a bus payload.
    pub fn get_extn_payload(self) -> (r: ExtnPayload)
        ensures
            r == ExtnPayload::Request(ExtnRequest::Device(DeviceRequest::Browser(self))),
    {
        ExtnPayload::Request(ExtnRequest::Device(DeviceRequest::Browser(self)))
    }

    /// Unwraps a bus payload back into the request.
    pub fn get_from_payload(payload: ExtnPayload) -> (r: Option<BrowserRequest>)
        ensures
            r == Self::spec_from_payload(payload),
    {
        match payload {
            ExtnPayload::Request(ExtnRequest::Device(DeviceRequest::Browser(d))) => Some(d),
            _ => None,
        }
    }

    /// The contract browser requests target.
    pub fn contract() -> (r: RippleContract)
        ensures
            r == RippleContract::Browser,
    {
        RippleContract::Browser
    }
}

/// Wrapping a browser request and unwrapping it returns the same request;
/// a payload carrying any other request kind unwraps to nothing.
pub proof fn lemma_browser_round_trip(x: BrowserRequest, payload: ExtnPayload)
    ensures
        BrowserRequest::spec_from_payload(
            ExtnPayload::Request(ExtnRequest::Device(DeviceRequest::Browser(x)))) == Some(x),
        BrowserRequest::spec_from_payload(payload) matches Some(y)
            ==> payload == ExtnPayload::Request(ExtnRequest::Device(DeviceRequest::Browser(y))),
{
}

} // verus!
