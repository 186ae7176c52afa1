//! Fixed-point scalar values.
//!
//! Operating-point quantities (voltages, currents, transconductances) are
//! carried as signed integers counting millionths of a unit, so that the
//! comparisons the region classification needs are exact.

use vstd::prelude::*;

verus! {

/// A signed quantity in millionths of a unit (microvolts, microamps, ...).
#[derive(Clone, Copy, PartialEq, Eq, Structural, Debug)]
pub struct Scalar {
    pub micro: i64,
}

impl Scalar {
    /// The zero quantity, the fallback for anything absent or non-real.
    pub fn zero() -> (r: Scalar)
        ensures
            r.micro == 0,
    {
        Scalar { micro: 0 }
    }

    /// Builds a quantity from its count of millionths.
    pub fn from_micro(micro: i64) -> (r: Scalar)
        ensures
            r.micro == micro,
    {
        Scalar { micro }
    }
}

} // verus!
