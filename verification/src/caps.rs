//! The capability-query contract.

use vstd::prelude::*;
use crate::extn_client_message::{ExtnPayload, ExtnRequest};
use crate::ripple_contract::RippleContract;

verus! {

/// The role an application holds on a capability.
#[derive(Clone, Copy, Debug, PartialEq, Eq, Structural)]
pub enum CapabilityRole {
    Use,
    Manage,
    Provide,
}

/// A capability paired with the role asked about.
#[derive(Clone, Debug)]
pub struct RoleInfo {
    pub role: Option<CapabilityRole>,
    pub capability: String,
}

/// A query about capabilities: which of them an app is permitted to use,
/// or which of them the platform supports.
#[derive(Clone, Debug)]
pub enum CapsRequest {
    Permitted(String, Vec<RoleInfo>),
    Supported(Vec<String>),
}

impl CapsRequest {
    /// The payload a capability query unwraps from, if any.
    pub open spec fn spec_from_payload(payload: ExtnPayload) -> Option<CapsRequest> {
        match payload {
            ExtnPayload::Request(ExtnRequest::AuthorizedInfo(r)) => Some(r),
            _ => None,
        }
    }

    /// Wraps the query into a bus payload.
    pub fn get_extn_payload(self) -> (r: ExtnPayload)
        ensures
            r == ExtnPayload::Request(ExtnRequest::AuthorizedInfo(self)),
    {
        ExtnPayload::Request(ExtnRequest::AuthorizedInfo(self))
    }

    /// Unwraps a bus payload back into the query.
    pub fn get_from_payload(payload: ExtnPayload) -> (r: Option<CapsRequest>)
        ensures
            r == Self::spec_from_payload(payload),
    {
        match payload {
            ExtnPayload::Request(ExtnRequest::AuthorizedInfo(r)) => Some(r),
            _ => None,
        }
    }

    /// The contract capability queries target.
    pub fn contract() -> (r: RippleContract)
        ensures
            r == RippleContract::Caps,
    {
        RippleContract::Caps
    }
}

/// Wrapping a capability query and unwrapping it returns the same query;
/// a payload carrying any other request kind unwraps to nothing.
pub proof fn lemma_caps_round_trip(x: CapsRequest, payload: ExtnPayload)
    ensures
        CapsRequest::spec_from_payload(ExtnPayload::Request(ExtnRequest::AuthorizedInfo(x))) == Some(x),
        CapsRequest::spec_from_payload(payload) matches Some(y)
            ==> payload == ExtnPayload::Request(ExtnRequest::AuthorizedInfo(y)),
{
}

} // verus!
