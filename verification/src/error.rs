//! The errors of setting up a scheduler.

use vstd::prelude::*;
use vstd::std_specs::convert::FromSpecImpl;

verus! {

/// Why a scheduler could not be set up.
#[derive(Debug, Clone, Copy, PartialEq, Eq, Structural)]
pub enum SchedulerError {
    /// The arrival rate cannot parameterize the distribution of the
    /// intervals between arrivals.
    ArrivalRateTooSmall,
    /// The execution rate, or the timeout rate, cannot parameterize its
    /// distribution.
    ServiceRateTooSmall,
}

/// `rand_distr::PoissonError`, the error of `rand_distr::Poisson::new`.
/// Nothing is claimed of its values.
#[verifier::external_type_specification]
#[verifier::external_body]
pub struct ExPoissonError(rand_distr::PoissonError);

/// `rand_distr::ExpError`, the error of `rand_distr::Exp::new`.
/// Nothing is claimed of its values.
#[verifier::external_type_specification]
#[verifier::external_body]
pub struct ExExpError(rand_distr::ExpError);

impl From<rand_distr::PoissonError> for SchedulerError {
    fn from(error: rand_distr::PoissonError) -> (e: Self) {
        Self::ArrivalRateTooSmall
    }
}

impl FromSpecImpl<rand_distr::PoissonError> for SchedulerError {
    open spec fn obeys_from_spec() -> bool {
        true
    }

    /// Every failure to build the interval distribution is reported as an
    /// arrival rate that is too small.
    open spec fn from_spec(error: rand_distr::PoissonError) -> SchedulerError {
        SchedulerError::ArrivalRateTooSmall
    }
}

impl From<rand_distr::ExpError> for SchedulerError {
    fn from(error: rand_distr::ExpError) -> (e: Self) {
        Self::ServiceRateTooSmall
    }
}

impl FromSpecImpl<rand_distr::ExpError> for SchedulerError {
    open spec fn obeys_from_spec() -> bool {
        true
    }

    /// Every failure to build a service-time or timeout distribution is
    /// reported as a service rate that is too small.
    open spec fn from_spec(error: rand_distr::ExpError) -> SchedulerError {
        SchedulerError::ServiceRateTooSmall
    }
}

} // verus!
