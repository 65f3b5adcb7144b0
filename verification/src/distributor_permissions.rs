//! The permissions contract: asking the distributor which capabilities
//! an application may use.

use vstd::prelude::*;
use crate::caps::CapabilityRole;
use crate::extn_client_message::{ExtnPayload, ExtnRequest, ExtnResponse};
use crate::ripple_contract::RippleContract;

verus! {

/// An authenticated distributor session.
#[derive(Clone, Debug)]
pub struct AccountSession {
    pub id: String,
    pub token: String,
    pub account_id: String,
    pub device_id: String,
}

/// A granted capability with the role it is granted under.
#[derive(Clone, Debug)]
pub struct FireboltPermission {
    pub capability: String,
    pub role: CapabilityRole,
}

/// Asks for the permissions of one application.
#[derive(Clone, Debug)]
pub struct PermissionRequest {
    pub app_id: String,
    pub session: AccountSession,
}

/// The granted permissions of one application.
#[derive(Clone, Debug)]
pub struct PermissionResponse {
    pub permissions: Vec<FireboltPermission>,
}

impl PermissionRequest {
    /// The payload a permission request unwraps from, if any.
    pub open spec fn spec_from_payload(payload: ExtnPayload) -> Option<PermissionRequest> {
        match payload {
            ExtnPayload::Request(ExtnRequest::Permission(p)) => Some(p),
            _ => None,
        }
    }

    /// Wraps the request into a bus payload.
    pub fn get_extn_payload(self) -> (r: ExtnPayload)
        ensures
            r == ExtnPayload::Request(ExtnRequest::Permission(self)),
    {
        ExtnPayload::Request(ExtnRequest::Permission(self))
    }

    /// Unwraps a bus payload back into the request.
    pub fn get_from_payload(payload: ExtnPayload) -> (r: Option<PermissionRequest>)
        ensures
            r == Self::spec_from_payload(payload),
    {
        match payload {
            ExtnPayload::Request(ExtnRequest::Permission(p)) => Some(p),
            _ => None,
        }
    }

    /// The contract permission requests target.
    pub fn contract() -> (r: RippleContract)
        ensures
            r == RippleContract::Permissions,
    {
        RippleContract::Permissions
    }
}

impl PermissionResponse {
    /// The payload a permission response unwraps from, if any.
    pub open spec fn spec_from_payload(payload: ExtnPayload) -> Option<PermissionResponse> {
        match payload {
            ExtnPayload::Response(ExtnResponse::Permission(v)) => Some(PermissionResponse {
                permissions: v,
            }),
            _ => None,
        }
    }

    /// Wraps the response into a bus payload.
    pub fn get_extn_payload(self) -> (r: ExtnPayload)
        ensures
            r == ExtnPayload::Response(ExtnResponse::Permission(self.permissions)),
    {
        ExtnPayload::Response(ExtnResponse::Permission(self.permissions))
    }

    /// Unwraps a bus payload back into the response.
    pub fn get_from_payload(payload: ExtnPayload) -> (r: Option<PermissionResponse>)
        ensures
            r == Self::spec_from_payload(payload),
    {
        match payload {
            ExtnPayload::Response(ExtnResponse::Permission(v)) => Some(PermissionResponse {
                permissions: v,
            }),
            _ => None,
        }
    }

    /// The contract permission responses belong to.
    pub fn contract() -> (r: RippleContract)
        ensures
            r == RippleContract::Permissions,
    {
        RippleContract::Permissions
    }
}

/// Wrapping a permission request and unwrapping it returns the same
/// request; a payload carrying any other kind unwraps to nothing.
pub proof fn lemma_permission_request_round_trip(x: PermissionRequest, payload: ExtnPayload)
    ensures
        PermissionRequest::spec_from_payload(
            ExtnPayload::Request(ExtnRequest::Permission(x))) == Some(x),
        PermissionRequest::spec_from_payload(payload) matches Some(y)
            ==> payload == ExtnPayload::Request(ExtnRequest::Permission(y)),
{
}

/// Wrapping a permission response and unwrapping it returns the same
/// response; a payload carrying any other kind unwraps to nothing.
pub proof fn lemma_permission_response_round_trip(x: PermissionResponse, payload: ExtnPayload)
    ensures
        PermissionResponse::spec_from_payload(
            ExtnPayload::Response(ExtnResponse::Permission(x.permissions))) == Some(x),
        PermissionResponse::spec_from_payload(payload) matches Some(y)
            ==> payload == ExtnPayload::Response(ExtnResponse::Permission(y.permissions)),
{
}

} // verus!
