//! Capability contracts: typed tags identifying a kind of service.
//!
//! Every extension declares the set of contracts it fulfils; every caller
//! targets a contract, never a concrete extension.

use vstd::prelude::*;

verus! {

/// A capability contract.
#[derive(Clone, Copy, Debug, PartialEq, Eq, Structural)]
pub enum RippleContract {
    DeviceInfo,
    Wifi,
    Browser,
    Permissions,
    Storage,
    Advertising,
    Caps,
    BridgeProtocol,
    AppEvents,
    DeviceEvents,
}

} // verus!
