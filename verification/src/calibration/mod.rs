//! The target of a calibration and what is decided from it: which readings
//! have a gamma, which luminances a reading is held against, and between
//! which rows of the temperature table a colour lies.

use vstd::prelude::*;

pub mod binary64;
pub mod cct;
pub mod reading_result;

verus! {

/// The transfer function that the display is calibrated to.
#[derive(Debug, Clone, Copy, PartialEq, Eq, Structural)]
pub enum LuminanceEotf {
    Gamma22,
    Gamma24,
    PQ,
}

/// The primaries that the display is calibrated to.
#[derive(Debug, Clone, Copy, PartialEq, Eq, Structural)]
pub enum TargetColorspace {
    Rec709,
    DisplayP3,
    Rec2020,
}

impl Default for LuminanceEotf {
    fn default() -> (r: LuminanceEotf)
        ensures
            r == LuminanceEotf::Gamma22,
    {
        LuminanceEotf::Gamma22
    }
}

impl Default for TargetColorspace {
    fn default() -> (r: TargetColorspace)
        ensures
            r == TargetColorspace::Rec709,
    {
        TargetColorspace::Rec709
    }
}

impl LuminanceEotf {
    /// The name that the transfer function is shown under.
    pub open spec fn name(self) -> Seq<char> {
        match self {
            LuminanceEotf::Gamma22 => "Gamma 2.2"@,
            LuminanceEotf::Gamma24 => "Gamma 2.4"@,
            LuminanceEotf::PQ => "ST.2084 / PQ"@,
        }
    }

    /// The name that the transfer function is shown under.
    pub fn as_ref(&self) -> (r: &'static str)
        ensures
            r@ == self.name(),
    {
        match self {
            LuminanceEotf::Gamma22 => "Gamma 2.2",
            LuminanceEotf::Gamma24 => "Gamma 2.4",
            LuminanceEotf::PQ => "ST.2084 / PQ",
        }
    }

    /// Whether the transfer function is absolute: it speaks of luminances,
    /// not of shares of what the display reaches.
    pub fn is_absolute(&self) -> (r: bool)
        ensures
            r == (*self == LuminanceEotf::PQ),
    {
        match self {
            LuminanceEotf::PQ => true,
            _ => false,
        }
    }

    /// The exponent around which a gamma is drawn, in tenths: 2.2, 2.4, and
    /// 5.0 for the absolute transfer function, which has none.
    pub fn mean_tenths(&self) -> (r: u8)
        ensures
            r == match *self {
                LuminanceEotf::Gamma22 => 22u8,
                LuminanceEotf::Gamma24 => 24u8,
                LuminanceEotf::PQ => 50u8,
            },
    {
        match self {
            LuminanceEotf::Gamma22 => 22,
            LuminanceEotf::Gamma24 => 24,
            LuminanceEotf::PQ => 50,
        }
    }
}

impl TargetColorspace {
    /// The name that the colour space is shown under.
    pub open spec fn name(self) -> Seq<char> {
        match self {
            TargetColorspace::Rec709 => "Rec. 709"@,
            TargetColorspace::DisplayP3 => "Display P3"@,
            TargetColorspace::Rec2020 => "Rec. 2020"@,
        }
    }

    /// The name that the colour space is shown under.
    pub fn as_ref(&self) -> (r: &'static str)
        ensures
            r@ == self.name(),
    {
        match self {
            TargetColorspace::Rec709 => "Rec. 709",
            TargetColorspace::DisplayP3 => "Display P3",
            TargetColorspace::Rec2020 => "Rec. 2020",
        }
    }
}

/// What a reading is held against. The luminances and the reference colour
/// are binary64 values, carried by their bits.
#[derive(Debug, Clone, Copy, PartialEq, Eq)]
pub struct CalibrationTarget {
    pub min_y: u64,
    pub max_y: u64,
    pub max_hdr_mdl: u64,
    pub colorspace: TargetColorspace,
    pub eotf: LuminanceEotf,
    /// Linear red, green and blue.
    pub ref_rgb: [u64; 3],
}

} // verus!
