//! One reading of the instrument, held against its target.

use vstd::prelude::*;
use crate::calibration::binary64::{equal, is_less, less, HUNDREDTH_BITS, ONE_BITS};
use crate::calibration::{CalibrationTarget, LuminanceEotf};

verus! {

/// A reading and its target. The tristimulus values and the Lab values that
/// the instrument reports are binary64 values, carried by their bits.
#[derive(Debug, Clone, Copy, PartialEq, Eq)]
pub struct ReadingResult {
    pub target: CalibrationTarget,
    pub xyz: [u64; 3],
    pub argyll_lab: [u64; 3],
}

/// Whether the three components of a colour have the same bits: the colour
/// is a grey, the stimulus a white one.
pub open spec fn is_white_stimulus(ref_rgb: [u64; 3]) -> bool {
    ref_rgb[0] == ref_rgb[1] && ref_rgb[1] == ref_rgb[2]
}

/// Whether a stimulus lies above a hundredth and below one.
pub open spec fn is_inside_stimulus_range(stimulus: u64) -> bool {
    less(HUNDREDTH_BITS, stimulus) && less(stimulus, ONE_BITS)
}

/// Whether a gamma is defined for a reading of this reference colour.
pub open spec fn gamma_is_defined(ref_rgb: [u64; 3]) -> bool {
    is_white_stimulus(ref_rgb) && is_inside_stimulus_range(ref_rgb[0])
}

/// The black and the peak luminance that a reading is held against: those of
/// the display, or none and the mastering luminance where the transfer
/// function is absolute.
pub open spec fn luminance_bounds(target: CalibrationTarget) -> (u64, u64) {
    if target.eotf == LuminanceEotf::PQ {
        (0, target.max_hdr_mdl)
    } else {
        (target.min_y, target.max_y)
    }
}

impl ReadingResult {
    /// A reading as the instrument reports it.
    pub fn from_argyll_results(target: CalibrationTarget, xyz: [u64; 3], argyll_lab: [u64; 3]) -> (r:
        ReadingResult)
        ensures
            r.target == target,
            r.xyz == xyz,
            r.argyll_lab == argyll_lab,
    {
        ReadingResult { target, xyz, argyll_lab }
    }

    /// Whether the reading is one of a white stimulus.
    pub fn is_white_stimulus_reading(&self) -> (r: bool)
        ensures
            r == is_white_stimulus(self.target.ref_rgb),
    {
        self.target.ref_rgb[0] == self.target.ref_rgb[1] && self.target.ref_rgb[1]
            == self.target.ref_rgb[2]
    }

    /// Whether the stimulus is neither near black nor full white.
    pub fn not_zero_or_one_rgb(&self) -> (r: bool)
        ensures
            r == is_inside_stimulus_range(self.target.ref_rgb[0]),
    {
        is_less(HUNDREDTH_BITS, self.target.ref_rgb[0]) && is_less(self.target.ref_rgb[0], ONE_BITS)
    }

    /// Whether the reading has a gamma.
    pub fn has_gamma(&self) -> (r: bool)
        ensures
            r == gamma_is_defined(self.target.ref_rgb),
    {
        self.is_white_stimulus_reading() && self.not_zero_or_one_rgb()
    }

    /// The black and the peak luminance that the reading is held against.
    pub fn luminance_bounds(&self) -> (r: (u64, u64))
        ensures
            r == luminance_bounds(self.target),
    {
        if self.target.eotf.is_absolute() {
            (0, self.target.max_hdr_mdl)
        } else {
            (self.target.min_y, self.target.max_y)
        }
    }

    /// Whether the reference is brought to the measured peak: never where
    /// the transfer function is absolute.
    pub fn scales_reference(&self, scale_to_y: bool) -> (r: bool)
        ensures
            r == (scale_to_y && self.target.eotf != LuminanceEotf::PQ),
    {
        scale_to_y && !self.target.eotf.is_absolute()
    }
}

/// A reading has no gamma where its stimulus is a hundredth or less, where
/// it is one, or where it is not a white stimulus.
pub proof fn lemma_no_gamma_outside(ref_rgb: [u64; 3])
    requires
        less(ref_rgb[0], HUNDREDTH_BITS) || equal(ref_rgb[0], HUNDREDTH_BITS) || equal(
            ref_rgb[0],
            ONE_BITS,
        ) || !is_white_stimulus(ref_rgb),
    ensures
        !gamma_is_defined(ref_rgb),
{
}

/// A reading is one of a white stimulus exactly where its three components
/// have the same bits.
pub proof fn lemma_white_stimulus_is_bitwise(ref_rgb: [u64; 3])
    ensures
        is_white_stimulus(ref_rgb) <==> (forall|i: int, j: int|
            0 <= i < 3 && 0 <= j < 3 ==> ref_rgb[i] == ref_rgb[j]),
{
    if is_white_stimulus(ref_rgb) {
        assert forall|i: int, j: int| 0 <= i < 3 && 0 <= j < 3 implies ref_rgb[i] == ref_rgb[j] by {
            assert(ref_rgb[i] == ref_rgb[0]);
            assert(ref_rgb[j] == ref_rgb[0]);
        }
    } else {
        assert(ref_rgb[0] != ref_rgb[1] || ref_rgb[1] != ref_rgb[2]);
    }
}

} // verus!
