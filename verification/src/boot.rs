//! The ordered, fail-fast bootstrap pipeline: each step consumes the
//! prior state; the first failing step aborts the sequence with its
//! name, and no later step is considered.

use vstd::prelude::*;
use crate::RippleError;

verus! {

/// A step of the bootstrap pipeline, in order.
#[derive(Clone, Copy, Debug, PartialEq, Eq, Structural)]
pub enum BootstrapStep {
    /// Spins up the bus and collects the extensions' contracts.
    SetupExtnClient,
    /// Opens the local socket listener.
    StartWs,
    /// Installs the handler providers and keeps the process alive.
    StartFireboltGateway,
}

/// Runs the bootstrap decision over the three step results, in order
/// and fail-fast: the outcome is the first failure with the step it
/// happened at, and a step after a failure is never reached.
pub fn boot(
    setup_extn_client: Result<(), RippleError>,
    start_ws: Result<(), RippleError>,
    start_gateway: Result<(), RippleError>,
) -> (r: Result<(), (BootstrapStep, RippleError)>)
    ensures
        match setup_extn_client {
            Err(e) => r == Err::<(), (BootstrapStep, RippleError)>((
                BootstrapStep::SetupExtnClient, e)),
            Ok(_) => match start_ws {
                Err(e) => r == Err::<(), (BootstrapStep, RippleError)>((BootstrapStep::StartWs, e)),
                Ok(_) => match start_gateway {
                    Err(e) => r == Err::<(), (BootstrapStep, RippleError)>((
                        BootstrapStep::StartFireboltGateway, e)),
                    Ok(_) => r is Ok,
                },
            },
        },
{
    match setup_extn_client {
        Err(e) => Err((BootstrapStep::SetupExtnClient, e)),
        Ok(_) => match start_ws {
            Err(e) => Err((BootstrapStep::StartWs, e)),
            Ok(_) => match start_gateway {
                Err(e) => Err((BootstrapStep::StartFireboltGateway, e)),
                Ok(_) => Ok(()),
            },
        },
    }
}

} // verus!
