//! The pool bootstrap step: decides how the native-platform client
//! pool comes up.  The pool needs at least two connections — the first
//! is reserved for the controller plugin — and a failure after the bus
//! is up is announced as an error status before the step fails.

use vstd::prelude::*;
use crate::extn_client_message::ExtnStatus;
use crate::RippleError;

verus! {

/// The pool bootstrap step.
#[derive(Debug)]
pub struct ThunderPoolStep;

impl ThunderPoolStep {
    /// The step's name in bootstrap diagnostics.
    pub fn get_name() -> (r: String)
        ensures
            r@ == "ThunderPoolStep"@,
    {
        String::from_str("ThunderPoolStep")
    }

    /// A pool needs one controller connection and at least one request
    /// connection: anything smaller fails the bootstrap.
    pub fn check_pool_size(pool_size: u32) -> (r: Result<(), RippleError>)
        ensures
            pool_size >= 2 ==> r is Ok,
            pool_size < 2 ==> r == Err::<(), RippleError>(RippleError::BootstrapError),
    {
        if pool_size < 2 {
            Err(RippleError::BootstrapError)
        } else {
            Ok(())
        }
    }

    /// Decides on the controller connection's outcome: a failure is
    /// announced as an error status and fails the whole bootstrap with
    /// a bootstrap error — without the controller nothing else may
    /// come up.
    pub fn controller_outcome(result: Result<(), RippleError>)
        -> (r: (Result<(), RippleError>, Option<ExtnStatus>))
        ensures
            match result {
                Ok(_) => r.0 is Ok && r.1 is None,
                Err(_) => r.0 == Err::<(), RippleError>(RippleError::BootstrapError)
                    && r.1 == Some(ExtnStatus::Error),
            },
    {
        match result {
            Ok(_) => (Ok(()), None),
            Err(_) => (Err(RippleError::BootstrapError), Some(ExtnStatus::Error)),
        }
    }

    /// Decides on the request pool's outcome: success announces the
    /// extension ready; a failure is announced as an error status and
    /// fails the step.
    pub fn pool_outcome(result: Result<(), RippleError>)
        -> (r: (Result<(), RippleError>, Option<ExtnStatus>))
        ensures
            match result {
                Ok(_) => r.0 is Ok && r.1 == Some(ExtnStatus::Ready),
                Err(e) => r.0 == Err::<(), RippleError>(e) && r.1 == Some(ExtnStatus::Error),
            },
    {
        match result {
            Ok(_) => (Ok(()), Some(ExtnStatus::Ready)),
            Err(e) => (Err(e), Some(ExtnStatus::Error)),
        }
    }

    /// The whole step over its three decisions, fail-fast: an undersized
    /// pool fails before anything is opened; a controller failure fails
    /// before the request pool is opened; otherwise the pool result
    /// decides, and the statuses to announce come back in order.
    pub fn setup(
        pool_size: u32,
        controller: Result<(), RippleError>,
        pool: Result<(), RippleError>,
    ) -> (r: (Result<(), RippleError>, Vec<ExtnStatus>))
        ensures
            pool_size < 2 ==> r.0 == Err::<(), RippleError>(RippleError::BootstrapError)
                && r.1@ == Seq::<ExtnStatus>::empty(),
            pool_size >= 2 ==> match controller {
                Err(_) => r.0 == Err::<(), RippleError>(RippleError::BootstrapError)
                    && r.1@ == seq![ExtnStatus::Error],
                Ok(_) => match pool {
                    Err(e) => r.0 == Err::<(), RippleError>(e)
                        && r.1@ == seq![ExtnStatus::Error],
                    Ok(_) => r.0 is Ok && r.1@ == seq![ExtnStatus::Ready],
                },
            },
    {
        let mut statuses: Vec<ExtnStatus> = Vec::new();
        if Self::check_pool_size(pool_size).is_err() {
            proof {
                assert(statuses@ =~= Seq::<ExtnStatus>::empty());
            }
            return (Err(RippleError::BootstrapError), statuses);
        }
        let (controller_result, controller_status) = Self::controller_outcome(controller);
        match controller_status {
            Some(s) => statuses.push(s),
            None => {},
        }
        if let Err(e) = controller_result {
            proof {
                assert(statuses@ =~= seq![ExtnStatus::Error]);
            }
            return (Err(e), statuses);
        }
        let (pool_result, pool_status) = Self::pool_outcome(pool);
        match pool_status {
            Some(s) => statuses.push(s),
            None => {},
        }
        match pool_result {
            Ok(_) => {
                proof {
                    assert(statuses@ =~= seq![ExtnStatus::Ready]);
                }
                (Ok(()), statuses)
            },
            Err(e) => {
                proof {
                    assert(statuses@ =~= seq![ExtnStatus::Error]);
                }
                (Err(e), statuses)
            },
        }
    }
}

} // verus!
