//! The output settings of the pattern generator, as the device numbers and names them.

use vstd::prelude::*;

pub mod client;
pub mod commands;
pub mod controller;
pub mod handler;
pub mod pattern_config;

verus! {

/// How many bits one colour component has.
#[derive(Debug, Clone, Copy, PartialEq, Eq, Structural)]
pub enum BitDepth {
    Eight,
    Ten,
}

impl BitDepth {
    /// The number that the device knows the setting by.
    pub open spec fn repr(self) -> int {
        match self {
            BitDepth::Eight => 8,
            BitDepth::Ten => 10,
        }
    }

    /// The name that the setting is shown under.
    pub open spec fn name(self) -> Seq<char> {
        match self {
            BitDepth::Eight => "8-bit"@,
            BitDepth::Ten => "10-bit"@,
        }
    }

    /// The number that the device knows the setting by.
    pub fn value(self) -> (r: usize)
        ensures
            r == self.repr(),
    {
        match self {
            BitDepth::Eight => 8,
            BitDepth::Ten => 10,
        }
    }

    /// The setting that the device knows by `repr`, if there is one.
    pub open spec fn of_repr(repr: int) -> Option<BitDepth> {
        if repr == 8 {
            Some(BitDepth::Eight)
        } else if repr == 10 {
            Some(BitDepth::Ten)
        } else {
            None
        }
    }

    /// The setting that the device knows by `repr`, if there is one.
    pub fn from_repr(repr: usize) -> (r: Option<BitDepth>)
        ensures
            r == Self::of_repr(repr as int),
    {
        if repr == 8 {
            Some(BitDepth::Eight)
        } else if repr == 10 {
            Some(BitDepth::Ten)
        } else {
            None
        }
    }

    /// A setting is found again by its number, and by no other number.
    pub proof fn lemma_repr_round_trip(v: BitDepth, repr: int)
        ensures
            Self::of_repr(v.repr()) == Some(v),
            Self::of_repr(repr) == Some(v) ==> repr == v.repr(),
    {
    }

    /// The name that the setting is shown under.
    pub fn as_ref(&self) -> (r: &'static str)
        ensures
            r@ == self.name(),
    {
        match self {
            BitDepth::Eight => "8-bit",
            BitDepth::Ten => "10-bit",
        }
    }

    /// Every setting, in the order of the device's numbers.
    pub fn all() -> (r: Vec<BitDepth>)
        ensures
            r@ == seq![BitDepth::Eight, BitDepth::Ten],
    {
        vec![BitDepth::Eight, BitDepth::Ten]
    }
}

impl Default for BitDepth {
    fn default() -> (r: BitDepth)
        ensures
            r == BitDepth::Ten,
    {
        BitDepth::Ten
    }
}

/// The dynamic range of the output.
#[derive(Debug, Clone, Copy, PartialEq, Eq, Structural)]
pub enum DynamicRange {
    Sdr,
    Hdr,
    Dovi,
}

impl DynamicRange {
    /// The number that the device knows the setting by.
    pub open spec fn repr(self) -> int {
        match self {
            DynamicRange::Sdr => 0,
            DynamicRange::Hdr => 1,
            DynamicRange::Dovi => 2,
        }
    }

    /// The name that the setting is shown under.
    pub open spec fn name(self) -> Seq<char> {
        match self {
            DynamicRange::Sdr => "SDR"@,
            DynamicRange::Hdr => "HDR"@,
            DynamicRange::Dovi => "DoVi"@,
        }
    }

    /// The number that the device knows the setting by.
    pub fn value(self) -> (r: usize)
        ensures
            r == self.repr(),
    {
        match self {
            DynamicRange::Sdr => 0,
            DynamicRange::Hdr => 1,
            DynamicRange::Dovi => 2,
        }
    }

    /// The setting that the device knows by `repr`, if there is one.
    pub open spec fn of_repr(repr: int) -> Option<DynamicRange> {
        if repr == 0 {
            Some(DynamicRange::Sdr)
        } else if repr == 1 {
            Some(DynamicRange::Hdr)
        } else if repr == 2 {
            Some(DynamicRange::Dovi)
        } else {
            None
        }
    }

    /// The setting that the device knows by `repr`, if there is one.
    pub fn from_repr(repr: usize) -> (r: Option<DynamicRange>)
        ensures
            r == Self::of_repr(repr as int),
    {
        if repr == 0 {
            Some(DynamicRange::Sdr)
        } else if repr == 1 {
            Some(DynamicRange::Hdr)
        } else if repr == 2 {
            Some(DynamicRange::Dovi)
        } else {
            None
        }
    }

    /// A setting is found again by its number, and by no other number.
    pub proof fn lemma_repr_round_trip(v: DynamicRange, repr: int)
        ensures
            Self::of_repr(v.repr()) == Some(v),
            Self::of_repr(repr) == Some(v) ==> repr == v.repr(),
    {
    }

    /// The name that the setting is shown under.
    pub fn as_ref(&self) -> (r: &'static str)
        ensures
            r@ == self.name(),
    {
        match self {
            DynamicRange::Sdr => "SDR",
            DynamicRange::Hdr => "HDR",
            DynamicRange::Dovi => "DoVi",
        }
    }

    /// Every setting, in the order of the device's numbers.
    pub fn all() -> (r: Vec<DynamicRange>)
        ensures
            r@ == seq![DynamicRange::Sdr, DynamicRange::Hdr, DynamicRange::Dovi],
    {
        vec![DynamicRange::Sdr, DynamicRange::Hdr, DynamicRange::Dovi]
    }
}

impl Default for DynamicRange {
    fn default() -> (r: DynamicRange)
        ensures
            r == DynamicRange::Sdr,
    {
        DynamicRange::Sdr
    }
}

/// The pixel format of the output.
#[derive(Debug, Clone, Copy, PartialEq, Eq, Structural)]
pub enum ColorFormat {
    Rgb,
    YCbCr444,
    YCbCr422,
}

impl ColorFormat {
    /// The number that the device knows the setting by.
    pub open spec fn repr(self) -> int {
        match self {
            ColorFormat::Rgb => 0,
            ColorFormat::YCbCr444 => 1,
            ColorFormat::YCbCr422 => 2,
        }
    }

    /// The name that the setting is shown under.
    pub open spec fn name(self) -> Seq<char> {
        match self {
            ColorFormat::Rgb => "RGB"@,
            ColorFormat::YCbCr444 => "YCbCr444"@,
            ColorFormat::YCbCr422 => "YCbCr422"@,
        }
    }

    /// The number that the device knows the setting by.
    pub fn value(self) -> (r: usize)
        ensures
            r == self.repr(),
    {
        match self {
            ColorFormat::Rgb => 0,
            ColorFormat::YCbCr444 => 1,
            ColorFormat::YCbCr422 => 2,
        }
    }

    /// The setting that the device knows by `repr`, if there is one.
    pub open spec fn of_repr(repr: int) -> Option<ColorFormat> {
        if repr == 0 {
            Some(ColorFormat::Rgb)
        } else if repr == 1 {
            Some(ColorFormat::YCbCr444)
        } else if repr == 2 {
            Some(ColorFormat::YCbCr422)
        } else {
            None
        }
    }

    /// The setting that the device knows by `repr`, if there is one.
    pub fn from_repr(repr: usize) -> (r: Option<ColorFormat>)
        ensures
            r == Self::of_repr(repr as int),
    {
        if repr == 0 {
            Some(ColorFormat::Rgb)
        } else if repr == 1 {
            Some(ColorFormat::YCbCr444)
        } else if repr == 2 {
            Some(ColorFormat::YCbCr422)
        } else {
            None
        }
    }

    /// A setting is found again by its number, and by no other number.
    pub proof fn lemma_repr_round_trip(v: ColorFormat, repr: int)
        ensures
            Self::of_repr(v.repr()) == Some(v),
            Self::of_repr(repr) == Some(v) ==> repr == v.repr(),
    {
    }

    /// The name that the setting is shown under.
    pub fn as_ref(&self) -> (r: &'static str)
        ensures
            r@ == self.name(),
    {
        match self {
            ColorFormat::Rgb => "RGB",
            ColorFormat::YCbCr444 => "YCbCr444",
            ColorFormat::YCbCr422 => "YCbCr422",
        }
    }

    /// Every setting, in the order of the device's numbers.
    pub fn all() -> (r: Vec<ColorFormat>)
        ensures
            r@ == seq![ColorFormat::Rgb, ColorFormat::YCbCr444, ColorFormat::YCbCr422],
    {
        vec![ColorFormat::Rgb, ColorFormat::YCbCr444, ColorFormat::YCbCr422]
    }
}

impl Default for ColorFormat {
    fn default() -> (r: ColorFormat)
        ensures
            r == ColorFormat::Rgb,
    {
        ColorFormat::Rgb
    }
}

/// The quantisation range of the output.
#[derive(Debug, Clone, Copy, PartialEq, Eq, Structural)]
pub enum QuantRange {
    Limited,
    Full,
}

impl QuantRange {
    /// The number that the device knows the setting by.
    pub open spec fn repr(self) -> int {
        match self {
            QuantRange::Limited => 1,
            QuantRange::Full => 2,
        }
    }

    /// The name that the setting is shown under.
    pub open spec fn name(self) -> Seq<char> {
        match self {
            QuantRange::Limited => "Limited"@,
            QuantRange::Full => "Full"@,
        }
    }

    /// The number that the device knows the setting by.
    pub fn value(self) -> (r: usize)
        ensures
            r == self.repr(),
    {
        match self {
            QuantRange::Limited => 1,
            QuantRange::Full => 2,
        }
    }

    /// The setting that the device knows by `repr`, if there is one.
    pub open spec fn of_repr(repr: int) -> Option<QuantRange> {
        if repr == 1 {
            Some(QuantRange::Limited)
        } else if repr == 2 {
            Some(QuantRange::Full)
        } else {
            None
        }
    }

    /// The setting that the device knows by `repr`, if there is one.
    pub fn from_repr(repr: usize) -> (r: Option<QuantRange>)
        ensures
            r == Self::of_repr(repr as int),
    {
        if repr == 1 {
            Some(QuantRange::Limited)
        } else if repr == 2 {
            Some(QuantRange::Full)
        } else {
            None
        }
    }

    /// A setting is found again by its number, and by no other number.
    pub proof fn lemma_repr_round_trip(v: QuantRange, repr: int)
        ensures
            Self::of_repr(v.repr()) == Some(v),
            Self::of_repr(repr) == Some(v) ==> repr == v.repr(),
    {
    }

    /// The name that the setting is shown under.
    pub fn as_ref(&self) -> (r: &'static str)
        ensures
            r@ == self.name(),
    {
        match self {
            QuantRange::Limited => "Limited",
            QuantRange::Full => "Full",
        }
    }

    /// Every setting, in the order of the device's numbers.
    pub fn all() -> (r: Vec<QuantRange>)
        ensures
            r@ == seq![QuantRange::Limited, QuantRange::Full],
    {
        vec![QuantRange::Limited, QuantRange::Full]
    }
}

impl Default for QuantRange {
    fn default() -> (r: QuantRange)
        ensures
            r == QuantRange::Full,
    {
        QuantRange::Full
    }
}

/// The colorimetry that the output signals.
#[derive(Debug, Clone, Copy, PartialEq, Eq, Structural)]
pub enum Colorimetry {
    Default,
    Bt709Ycc,
    Bt2020Rgb,
}

impl Colorimetry {
    /// The number that the device knows the setting by.
    pub open spec fn repr(self) -> int {
        match self {
            Colorimetry::Default => 0,
            Colorimetry::Bt709Ycc => 2,
            Colorimetry::Bt2020Rgb => 9,
        }
    }

    /// The name that the setting is shown under.
    pub open spec fn name(self) -> Seq<char> {
        match self {
            Colorimetry::Default => "Default"@,
            Colorimetry::Bt709Ycc => "BT.709 (YCC)"@,
            Colorimetry::Bt2020Rgb => "BT.2020 (RGB)"@,
        }
    }

    /// The number that the device knows the setting by.
    pub fn value(self) -> (r: usize)
        ensures
            r == self.repr(),
    {
        match self {
            Colorimetry::Default => 0,
            Colorimetry::Bt709Ycc => 2,
            Colorimetry::Bt2020Rgb => 9,
        }
    }

    /// The setting that the device knows by `repr`, if there is one.
    pub open spec fn of_repr(repr: int) -> Option<Colorimetry> {
        if repr == 0 {
            Some(Colorimetry::Default)
        } else if repr == 2 {
            Some(Colorimetry::Bt709Ycc)
        } else if repr == 9 {
            Some(Colorimetry::Bt2020Rgb)
        } else {
            None
        }
    }

    /// The setting that the device knows by `repr`, if there is one.
    pub fn from_repr(repr: usize) -> (r: Option<Colorimetry>)
        ensures
            r == Self::of_repr(repr as int),
    {
        if repr == 0 {
            Some(Colorimetry::Default)
        } else if repr == 2 {
            Some(Colorimetry::Bt709Ycc)
        } else if repr == 9 {
            Some(Colorimetry::Bt2020Rgb)
        } else {
            None
        }
    }

    /// A setting is found again by its number, and by no other number.
    pub proof fn lemma_repr_round_trip(v: Colorimetry, repr: int)
        ensures
            Self::of_repr(v.repr()) == Some(v),
            Self::of_repr(repr) == Some(v) ==> repr == v.repr(),
    {
    }

    /// The name that the setting is shown under.
    pub fn as_ref(&self) -> (r: &'static str)
        ensures
            r@ == self.name(),
    {
        match self {
            Colorimetry::Default => "Default",
            Colorimetry::Bt709Ycc => "BT.709 (YCC)",
            Colorimetry::Bt2020Rgb => "BT.2020 (RGB)",
        }
    }

    /// Every setting, in the order of the device's numbers.
    pub fn all() -> (r: Vec<Colorimetry>)
        ensures
            r@ == seq![Colorimetry::Default, Colorimetry::Bt709Ycc, Colorimetry::Bt2020Rgb],
    {
        vec![Colorimetry::Default, Colorimetry::Bt709Ycc, Colorimetry::Bt2020Rgb]
    }
}

impl Default for Colorimetry {
    fn default() -> (r: Colorimetry)
        ensures
            r == Colorimetry::Default,
    {
        Colorimetry::Default
    }
}

/// The transfer function named in the HDR metadata.
#[derive(Debug, Clone, Copy, PartialEq, Eq, Structural)]
pub enum HdrEotf {
    GammaSdr,
    GammaHdr,
    Pq,
    Hlg,
}

impl HdrEotf {
    /// The number that the device knows the setting by.
    pub open spec fn repr(self) -> int {
        match self {
            HdrEotf::GammaSdr => 0,
            HdrEotf::GammaHdr => 1,
            HdrEotf::Pq => 2,
            HdrEotf::Hlg => 3,
        }
    }

    /// The name that the setting is shown under.
    pub open spec fn name(self) -> Seq<char> {
        match self {
            HdrEotf::GammaSdr => "Gamma (SDR)"@,
            HdrEotf::GammaHdr => "Gamma (HDR)"@,
            HdrEotf::Pq => "ST.2084 / PQ"@,
            HdrEotf::Hlg => "Hybrid log-gamma / HLG"@,
        }
    }

    /// The number that the device knows the setting by.
    pub fn value(self) -> (r: usize)
        ensures
            r == self.repr(),
    {
        match self {
            HdrEotf::GammaSdr => 0,
            HdrEotf::GammaHdr => 1,
            HdrEotf::Pq => 2,
            HdrEotf::Hlg => 3,
        }
    }

    /// The setting that the device knows by `repr`, if there is one.
    pub open spec fn of_repr(repr: int) -> Option<HdrEotf> {
        if repr == 0 {
            Some(HdrEotf::GammaSdr)
        } else if repr == 1 {
            Some(HdrEotf::GammaHdr)
        } else if repr == 2 {
            Some(HdrEotf::Pq)
        } else if repr == 3 {
            Some(HdrEotf::Hlg)
        } else {
            None
        }
    }

    /// The setting that the device knows by `repr`, if there is one.
    pub fn from_repr(repr: usize) -> (r: Option<HdrEotf>)
        ensures
            r == Self::of_repr(repr as int),
    {
        if repr == 0 {
            Some(HdrEotf::GammaSdr)
        } else if repr == 1 {
            Some(HdrEotf::GammaHdr)
        } else if repr == 2 {
            Some(HdrEotf::Pq)
        } else if repr == 3 {
            Some(HdrEotf::Hlg)
        } else {
            None
        }
    }

    /// A setting is found again by its number, and by no other number.
    pub proof fn lemma_repr_round_trip(v: HdrEotf, repr: int)
        ensures
            Self::of_repr(v.repr()) == Some(v),
            Self::of_repr(repr) == Some(v) ==> repr == v.repr(),
    {
    }

    /// The name that the setting is shown under.
    pub fn as_ref(&self) -> (r: &'static str)
        ensures
            r@ == self.name(),
    {
        match self {
            HdrEotf::GammaSdr => "Gamma (SDR)",
            HdrEotf::GammaHdr => "Gamma (HDR)",
            HdrEotf::Pq => "ST.2084 / PQ",
            HdrEotf::Hlg => "Hybrid log-gamma / HLG",
        }
    }

    /// Every setting, in the order of the device's numbers.
    pub fn all() -> (r: Vec<HdrEotf>)
        ensures
            r@ == seq![HdrEotf::GammaSdr, HdrEotf::GammaHdr, HdrEotf::Pq, HdrEotf::Hlg],
    {
        vec![HdrEotf::GammaSdr, HdrEotf::GammaHdr, HdrEotf::Pq, HdrEotf::Hlg]
    }
}

impl Default for HdrEotf {
    fn default() -> (r: HdrEotf)
        ensures
            r == HdrEotf::Pq,
    {
        HdrEotf::Pq
    }
}

/// The primaries named in the HDR metadata.
#[derive(Debug, Clone, Copy, PartialEq, Eq, Structural)]
pub enum Primaries {
    Rec709,
    Rec2020,
    DisplayP3,
    DciP3,
    P3D60,
}

impl Primaries {
    /// The number that the device knows the setting by.
    pub open spec fn repr(self) -> int {
        match self {
            Primaries::Rec709 => 0,
            Primaries::Rec2020 => 1,
            Primaries::DisplayP3 => 2,
            Primaries::DciP3 => 3,
            Primaries::P3D60 => 4,
        }
    }

    /// The name that the setting is shown under.
    pub open spec fn name(self) -> Seq<char> {
        match self {
            Primaries::Rec709 => "Rec.709"@,
            Primaries::Rec2020 => "Rec.2020 / D65"@,
            Primaries::DisplayP3 => "P3 / D65"@,
            Primaries::DciP3 => "DCI-P3 (Theater)"@,
            Primaries::P3D60 => "P3 D60 (ACES Cinema)"@,
        }
    }

    /// The number that the device knows the setting by.
    pub fn value(self) -> (r: usize)
        ensures
            r == self.repr(),
    {
        match self {
            Primaries::Rec709 => 0,
            Primaries::Rec2020 => 1,
            Primaries::DisplayP3 => 2,
            Primaries::DciP3 => 3,
            Primaries::P3D60 => 4,
        }
    }

    /// The setting that the device knows by `repr`, if there is one.
    pub open spec fn of_repr(repr: int) -> Option<Primaries> {
        if repr == 0 {
            Some(Primaries::Rec709)
        } else if repr == 1 {
            Some(Primaries::Rec2020)
        } else if repr == 2 {
            Some(Primaries::DisplayP3)
        } else if repr == 3 {
            Some(Primaries::DciP3)
        } else if repr == 4 {
            Some(Primaries::P3D60)
        } else {
            None
        }
    }

    /// The setting that the device knows by `repr`, if there is one.
    pub fn from_repr(repr: usize) -> (r: Option<Primaries>)
        ensures
            r == Self::of_repr(repr as int),
    {
        if repr == 0 {
            Some(Primaries::Rec709)
        } else if repr == 1 {
            Some(Primaries::Rec2020)
        } else if repr == 2 {
            Some(Primaries::DisplayP3)
        } else if repr == 3 {
            Some(Primaries::DciP3)
        } else if repr == 4 {
            Some(Primaries::P3D60)
        } else {
            None
        }
    }

    /// A setting is found again by its number, and by no other number.
    pub proof fn lemma_repr_round_trip(v: Primaries, repr: int)
        ensures
            Self::of_repr(v.repr()) == Some(v),
            Self::of_repr(repr) == Some(v) ==> repr == v.repr(),
    {
    }

    /// The name that the setting is shown under.
    pub fn as_ref(&self) -> (r: &'static str)
        ensures
            r@ == self.name(),
    {
        match self {
            Primaries::Rec709 => "Rec.709",
            Primaries::Rec2020 => "Rec.2020 / D65",
            Primaries::DisplayP3 => "P3 / D65",
            Primaries::DciP3 => "DCI-P3 (Theater)",
            Primaries::P3D60 => "P3 D60 (ACES Cinema)",
        }
    }

    /// Every setting, in the order of the device's numbers.
    pub fn all() -> (r: Vec<Primaries>)
        ensures
            r@ == seq![Primaries::Rec709, Primaries::Rec2020, Primaries::DisplayP3, Primaries::DciP3, Primaries::P3D60],
    {
        vec![Primaries::Rec709, Primaries::Rec2020, Primaries::DisplayP3, Primaries::DciP3, Primaries::P3D60]
    }
}

impl Default for Primaries {
    fn default() -> (r: Primaries)
        ensures
            r == Primaries::DisplayP3,
    {
        Primaries::DisplayP3
    }
}

/// How Dolby Vision content is mapped.
#[derive(Debug, Clone, Copy, PartialEq, Eq, Structural)]
pub enum DoviMapMode {
    Absolute,
    Relative,
}

impl DoviMapMode {
    /// The number that the device knows the setting by.
    pub open spec fn repr(self) -> int {
        match self {
            DoviMapMode::Absolute => 1,
            DoviMapMode::Relative => 2,
        }
    }

    /// The name that the setting is shown under.
    pub open spec fn name(self) -> Seq<char> {
        match self {
            DoviMapMode::Absolute => "Verify / Absolute"@,
            DoviMapMode::Relative => "Calibrate / Relative"@,
        }
    }

    /// The number that the device knows the setting by.
    pub fn value(self) -> (r: usize)
        ensures
            r == self.repr(),
    {
        match self {
            DoviMapMode::Absolute => 1,
            DoviMapMode::Relative => 2,
        }
    }

    /// The setting that the device knows by `repr`, if there is one.
    pub open spec fn of_repr(repr: int) -> Option<DoviMapMode> {
        if repr == 1 {
            Some(DoviMapMode::Absolute)
        } else if repr == 2 {
            Some(DoviMapMode::Relative)
        } else {
            None
        }
    }

    /// The setting that the device knows by `repr`, if there is one.
    pub fn from_repr(repr: usize) -> (r: Option<DoviMapMode>)
        ensures
            r == Self::of_repr(repr as int),
    {
        if repr == 1 {
            Some(DoviMapMode::Absolute)
        } else if repr == 2 {
            Some(DoviMapMode::Relative)
        } else {
            None
        }
    }

    /// A setting is found again by its number, and by no other number.
    pub proof fn lemma_repr_round_trip(v: DoviMapMode, repr: int)
        ensures
            Self::of_repr(v.repr()) == Some(v),
            Self::of_repr(repr) == Some(v) ==> repr == v.repr(),
    {
    }

    /// The name that the setting is shown under.
    pub fn as_ref(&self) -> (r: &'static str)
        ensures
            r@ == self.name(),
    {
        match self {
            DoviMapMode::Absolute => "Verify / Absolute",
            DoviMapMode::Relative => "Calibrate / Relative",
        }
    }

    /// Every setting, in the order of the device's numbers.
    pub fn all() -> (r: Vec<DoviMapMode>)
        ensures
            r@ == seq![DoviMapMode::Absolute, DoviMapMode::Relative],
    {
        vec![DoviMapMode::Absolute, DoviMapMode::Relative]
    }
}

impl Default for DoviMapMode {
    fn default() -> (r: DoviMapMode)
        ensures
            r == DoviMapMode::Relative,
    {
        DoviMapMode::Relative
    }
}

impl From<bool> for QuantRange {
    fn from(v: bool) -> (r: QuantRange) {
        if v {
            QuantRange::Limited
        } else {
            QuantRange::Full
        }
    }
}

impl vstd::std_specs::convert::FromSpecImpl<bool> for QuantRange {
    open spec fn obeys_from_spec() -> bool {
        true
    }

    open spec fn from_spec(v: bool) -> QuantRange {
        if v {
            QuantRange::Limited
        } else {
            QuantRange::Full
        }
    }
}

/// The HDR metadata that the generator sends with its output.
#[derive(Debug, Clone, Copy, PartialEq, Eq, Structural)]
pub struct HdrMetadata {
    pub eotf: HdrEotf,
    pub primaries: Primaries,
    pub max_mdl: u16,
    pub min_mdl: u16,
    pub maxcll: u16,
    pub maxfall: u16,
}

impl Default for HdrMetadata {
    fn default() -> (r: HdrMetadata)
        ensures
            r == (HdrMetadata {
                eotf: HdrEotf::Pq,
                primaries: Primaries::DisplayP3,
                max_mdl: 0,
                min_mdl: 0,
                maxcll: 0,
                maxfall: 0,
            }),
    {
        HdrMetadata {
            eotf: HdrEotf::Pq,
            primaries: Primaries::DisplayP3,
            max_mdl: 0,
            min_mdl: 0,
            maxcll: 0,
            maxfall: 0,
        }
    }
}

} // verus!
