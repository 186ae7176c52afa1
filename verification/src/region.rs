//! MOSFET operating-region classification.
//!
//! The region is computed at render time, out of gate-source and
//! drain-source voltages and a fixed threshold voltage of 0.75 V, using the
//! ordering: cutoff when `vgs < vth`, triode when `vds < vgs - vth`,
//! saturation otherwise.

use vstd::prelude::*;
use crate::scalar::Scalar;

verus! {

/// The threshold voltage of the fixed transistor model, 0.75 V, in microvolts.
pub const VTH_MICRO: i64 = 750000;

/// Qualitative operating regime of the MOSFET.
#[derive(Clone, Copy, PartialEq, Eq, Structural, Debug)]
pub enum Region {
    Cutoff,
    Triode,
    Saturation,
}

/// The region for gate-source voltage `vgs` and drain-source voltage `vds`,
/// both in microvolts.
pub open spec fn region_of(vgs: int, vds: int) -> Region {
    if vgs < VTH_MICRO as int {
        Region::Cutoff
    } else if vds < vgs - VTH_MICRO as int {
        Region::Triode
    } else {
        Region::Saturation
    }
}

/// Classifies the operating region given gate-source and drain-source
/// voltages.
pub fn classify(vgs: Scalar, vds: Scalar) -> (r: Region)
    ensures
        r == region_of(vgs.micro as int, vds.micro as int),
{
    if (vgs.micro as i128) < (VTH_MICRO as i128) {
        Region::Cutoff
    } else if (vds.micro as i128) < (vgs.micro as i128) - (VTH_MICRO as i128) {
        Region::Triode
    } else {
        Region::Saturation
    }
}

} // verus!
