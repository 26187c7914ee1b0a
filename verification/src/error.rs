use vstd::prelude::*;

verus! {

/// Why a rate computation was refused.
#[derive(Debug, Clone, Copy, PartialEq, Eq, Structural)]
pub enum RateError {
    /// A rate or window size was not strictly positive, so the quotient it
    /// divides would be undefined or meaningless.
    InvalidRate,
}

} // verus!
