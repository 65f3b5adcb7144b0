//! Core of an on-device gateway between applications and platform services.
//!
//! Applications invoke a JSON-RPC API over a local session; the gateway
//! authenticates and routes each request, answers it from local storage or
//! forwards it over a contract-addressed in-process message bus to the
//! extension that fulfils the targeted capability, and relays platform
//! events back to registered listeners.

pub mod app_library;
pub mod boot;
pub mod caps;
pub mod device_browser;
pub mod device_info_request;
pub mod device_request;
pub mod device_wifi;
pub mod distributor_permissions;
pub mod extn_client;
pub mod extn_client_message;
pub mod fb_advertising;
pub mod firebolt_gateway;
pub mod json;
pub mod localization_rpc;
pub mod platform_state;
pub mod ripple_contract;
pub mod rpc_gateway_api;
pub mod rpc_router;
pub mod setup_thunder_pool_step;
pub mod storage_manager;
pub mod thunder_event_processor;

use vstd::prelude::*;

verus! {

/// Errors surfaced by the gateway core.
#[derive(Clone, Copy, Debug, PartialEq, Eq, Structural)]
pub enum RippleError {
    NoContract,
    SendFailure,
    CallbackClosed,
    Timeout,
    InvalidInput,
    InvalidOutput,
    BootstrapError,
}

} // verus!
