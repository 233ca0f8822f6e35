//! Why a moving average could not be constructed.

use vstd::prelude::*;

verus! {

/// A rejected construction. No instance exists after either of these.
#[derive(Clone, Copy, Debug, PartialEq, Eq, Structural)]
pub enum MaError {
    /// The period is zero: there is nothing to average over.
    InvalidPeriod,
    /// The initial batch does not hold exactly `period` observations.
    BootstrapLengthMismatch,
}

/// The verdict on a construction from `count` initial observations with the
/// given period. A zero period is reported before a wrong batch length.
pub open spec fn bootstrap_verdict(count: nat, period: u16) -> Result<(), MaError> {
    if period == 0 {
        Err(MaError::InvalidPeriod)
    } else if count != period {
        Err(MaError::BootstrapLengthMismatch)
    } else {
        Ok(())
    }
}

/// Decides whether `count` initial observations can seed an average with the
/// given period.
pub fn check_bootstrap(count: usize, period: u16) -> (verdict: Result<(), MaError>)
    ensures
        verdict == bootstrap_verdict(count as nat, period),
{
    if period == 0 {
        Err(MaError::InvalidPeriod)
    } else if count != period as usize {
        Err(MaError::BootstrapLengthMismatch)
    } else {
        Ok(())
    }
}

} // verus!
