//! The advertising contract: initialisation objects and advertising ids.

use vstd::prelude::*;
use crate::distributor_permissions::AccountSession;
use crate::extn_client_message::{ExtnPayload, ExtnRequest, ExtnResponse};
use crate::ripple_contract::RippleContract;

verus! {

/// Parameters for building an advertising initialisation object.
#[derive(Clone, Debug)]
pub struct AdInitObjectRequestParams {
    pub privacy_data: Vec<(String, String)>,
    pub environment: String,
    pub durable_app_id: String,
    pub app_version: String,
    pub distributor_app_id: String,
    pub device_ad_attributes: Vec<(String, String)>,
    pub coppa: bool,
    pub authentication_entity: String,
    pub dist_session: AccountSession,
}

/// The advertising initialisation object handed back to an app.
#[derive(Clone, Debug)]
pub struct AdInitObjectResponse {
    pub ad_server_url: String,
    pub ad_server_url_template: String,
    pub ad_network_id: String,
    pub ad_profile_id: String,
    pub ad_site_section_id: String,
    pub ad_opt_out: bool,
    pub privacy_data: String,
    pub ifa_value: String,
    pub ifa: String,
    pub app_name: String,
    pub app_bundle_id: String,
    pub app_version: String,
    pub distributor_app_id: String,
    pub device_ad_attributes: String,
    pub coppa: String,
    pub authentication_entity: String,
}

/// Parameters for fetching the advertising id of one application.
#[derive(Clone, Debug)]
pub struct AdIdRequestParams {
    pub privacy_data: Vec<(String, String)>,
    pub app_id: String,
    pub dist_session: AccountSession,
}

/// The advertising id of one application.
#[derive(Clone, Debug)]
pub struct AdIdResponse {
    pub ifa: String,
    pub ifa_type: String,
    pub lmt: String,
}

/// A request to the advertising contract.
#[derive(Clone, Debug)]
pub enum AdvertisingRequest {
    GetAdInitObject(AdInitObjectRequestParams),
    GetAdIdObject(AdIdRequestParams),
    ResetAdIdentifier(AccountSession),
}

/// A response of the advertising contract.
#[derive(Clone, Debug)]
pub enum AdvertisingResponse {
    Empty,
    AdInitObject(AdInitObjectResponse),
    AdIdObject(AdIdResponse),
}

/// The advertising configuration as surfaced over JSON-RPC.
#[derive(Clone, Debug)]
pub struct AdvertisingFrameworkConfig {
    pub ad_server_url: String,
    pub ad_server_url_template: String,
    pub ad_network_id: String,
    pub ad_profile_id: String,
    pub ad_site_section_id: String,
    pub ad_opt_out: bool,
    pub privacy_data: String,
    pub ifa_value: String,
    pub ifa: String,
    pub app_name: String,
    pub app_bundle_id: String,
    pub distributor_app_id: String,
    pub device_ad_attributes: String,
    pub coppa: u32,
    pub authentication_entity: String,
}

/// The environment advertising requests run against.
#[derive(Clone, Copy, Debug, PartialEq, Eq, Structural)]
pub enum Environment {
    Prod,
    Test,
}

impl Environment {
    /// The lowercase name of the environment.
    pub fn as_name(&self) -> (r: &'static str)
        ensures
            *self == Environment::Prod ==> r@ == "prod"@,
            *self == Environment::Test ==> r@ == "test"@,
    {
        match self {
            Environment::Prod => "prod",
            Environment::Test => "test",
        }
    }
}

impl Default for Environment {
    /// The default environment is production.
    fn default() -> (r: Self)
        ensures
            r == Environment::Prod,
    {
        Environment::Prod
    }
}

/// Per-call advertising options.
#[derive(Clone, Debug)]
pub struct AdConfig {
    pub environment: Environment,
    pub coppa: Option<bool>,
    pub authentication_entity: Option<String>,
}

/// The options envelope of an advertising configuration request.
#[derive(Clone, Debug)]
pub struct GetAdConfig {
    pub options: AdConfig,
}

impl Default for GetAdConfig {
    /// Defaults: production, no child-privacy flag, empty entity.
    fn default() -> (r: Self)
        ensures
            r.options.environment == Environment::Prod,
            r.options.coppa == Some(false),
            r.options.authentication_entity matches Some(s) && s@ == Seq::<char>::empty(),
    {
        GetAdConfig {
            options: AdConfig {
                environment: Environment::Prod,
                coppa: Some(false),
                authentication_entity: Some(String::new()),
            },
        }
    }
}

impl AdvertisingRequest {
    /// The payload an advertising request unwraps from, if any.
    pub open spec fn spec_from_payload(payload: ExtnPayload) -> Option<AdvertisingRequest> {
        match payload {
            ExtnPayload::Request(ExtnRequest::Advertising(r)) => Some(r),
            _ => None,
        }
    }

    /// Wraps the request into a bus payload.
    pub fn get_extn_payload(self) -> (r: ExtnPayload)
        ensures
            r == ExtnPayload::Request(ExtnRequest::Advertising(self)),
    {
        ExtnPayload::Request(ExtnRequest::Advertising(self))
    }

    /// Unwraps a bus payload back into the request.
    pub fn get_from_payload(payload: ExtnPayload) -> (r: Option<AdvertisingRequest>)
        ensures
            r == Self::spec_from_payload(payload),
    {
        match payload {
            ExtnPayload::Request(ExtnRequest::Advertising(r)) => Some(r),
            _ => None,
        }
    }

    /// The contract advertising requests target.
    pub fn contract() -> (r: RippleContract)
        ensures
            r == RippleContract::Advertising,
    {
        RippleContract::Advertising
    }
}

impl AdvertisingResponse {
    /// The payload an advertising response unwraps from, if any.
    pub open spec fn spec_from_payload(payload: ExtnPayload) -> Option<AdvertisingResponse> {
        match payload {
            ExtnPayload::Response(ExtnResponse::Advertising(r)) => Some(r),
            _ => None,
        }
    }

    /// Wraps the response into a bus payload.
    pub fn get_extn_payload(self) -> (r: ExtnPayload)
        ensures
            r == ExtnPayload::Response(ExtnResponse::Advertising(self)),
    {
        ExtnPayload::Response(ExtnResponse::Advertising(self))
    }

    /// Unwraps a bus payload back into the response.
    pub fn get_from_payload(payload: ExtnPayload) -> (r: Option<AdvertisingResponse>)
        ensures
            r == Self::spec_from_payload(payload),
    {
        match payload {
            ExtnPayload::Response(ExtnResponse::Advertising(r)) => Some(r),
            _ => None,
        }
    }

    /// The contract advertising responses belong to.
    pub fn contract() -> (r: RippleContract)
        ensures
            r == RippleContract::Advertising,
    {
        RippleContract::Advertising
    }
}

/// Wrapping an advertising request and unwrapping it returns the same
/// request; a payload carrying any other kind unwraps to nothing.
pub proof fn lemma_advertising_request_round_trip(x: AdvertisingRequest, payload: ExtnPayload)
    ensures
        AdvertisingRequest::spec_from_payload(
            ExtnPayload::Request(ExtnRequest::Advertising(x))) == Some(x),
        AdvertisingRequest::spec_from_payload(payload) matches Some(y)
            ==> payload == ExtnPayload::Request(ExtnRequest::Advertising(y)),
{
}

/// Wrapping an advertising response and unwrapping it returns the same
/// response; a payload carrying any other kind unwraps to nothing.
pub proof fn lemma_advertising_response_round_trip(x: AdvertisingResponse, payload: ExtnPayload)
    ensures
        AdvertisingResponse::spec_from_payload(
            ExtnPayload::Response(ExtnResponse::Advertising(x))) == Some(x),
        AdvertisingResponse::spec_from_payload(payload) matches Some(y)
            ==> payload == ExtnPayload::Response(ExtnResponse::Advertising(y)),
{
}

} // verus!
