//! The error taxonomy of the OPRF core.

use vstd::prelude::*;

verus! {

/// Every failure of the three OPRF steps is reported to the immediate
/// caller as one of these values; none is retried internally.
#[derive(Clone, Copy, Debug, PartialEq, Eq, Structural)]
pub enum InternalPakeError {
    /// A byte string does not decode to a canonical, invertible (nonzero)
    /// scalar.
    InvalidScalarError,
    /// A byte string does not decode to a valid group element.
    InvalidPointError,
    /// The random source failed to produce an invertible blinding factor.
    RandomnessFailure,
}

} // verus!
