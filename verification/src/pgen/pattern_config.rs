//! The pattern that the generator shows: a patch on a background.

use vstd::prelude::*;
use crate::pgen::BitDepth;

verus! {

/// Where the patch stands on the display.
#[derive(Debug, Clone, Copy, PartialEq, Eq, Structural)]
pub enum TestPatternPosition {
    Center,
    TopLeft,
    TopRight,
    BottomLeft,
    BottomRight,
}

/// How much of the display the patch covers.
#[derive(Debug, Clone, Copy, PartialEq, Eq, Structural)]
pub enum TestPatternSize {
    Percent1,
    Percent2,
    Percent5,
    Percent10,
    Percent25,
    Percent50,
    Percent75,
    Percent100,
}

/// The pattern as the operator has set it up.
#[derive(Debug, Clone, Copy, PartialEq, Eq)]
pub struct PGenPatternConfig {
    pub limited_range: bool,
    pub bit_depth: BitDepth,
    pub patch_colour: [u16; 3],
    pub background_colour: [u16; 3],
    pub position: (u16, u16),
    pub preset_position: TestPatternPosition,
    pub patch_size: (u16, u16),
    pub preset_size: TestPatternSize,
}

impl Default for TestPatternPosition {
    fn default() -> (r: TestPatternPosition)
        ensures
            r == TestPatternPosition::Center,
    {
        TestPatternPosition::Center
    }
}

impl Default for TestPatternSize {
    fn default() -> (r: TestPatternSize)
        ensures
            r == TestPatternSize::Percent10,
    {
        TestPatternSize::Percent10
    }
}

impl PGenPatternConfig {
    /// The pattern before anything is set up: a mid grey patch of ten bits
    /// on black, a tenth of the display, in its centre.
    pub open spec fn default_config() -> PGenPatternConfig {
        PGenPatternConfig {
            limited_range: false,
            position: (0, 0),
            patch_size: (0, 0),
            bit_depth: BitDepth::Ten,
            patch_colour: [128, 128, 128],
            background_colour: [0, 0, 0],
            preset_position: TestPatternPosition::Center,
            preset_size: TestPatternSize::Percent10,
        }
    }
}

impl Default for PGenPatternConfig {
    fn default() -> (r: PGenPatternConfig)
        ensures
            r == PGenPatternConfig::default_config(),
            r.limited_range == false,
            r.bit_depth == BitDepth::Ten,
            r.patch_colour@ == seq![128u16, 128u16, 128u16],
            r.background_colour@ == seq![0u16, 0u16, 0u16],
            r.position == (0u16, 0u16),
            r.patch_size == (0u16, 0u16),
            r.preset_position == TestPatternPosition::Center,
            r.preset_size == TestPatternSize::Percent10,
    {
        let r = PGenPatternConfig {
            limited_range: false,
            position: (0, 0),
            patch_size: (0, 0),
            bit_depth: BitDepth::Ten,
            patch_colour: [128, 128, 128],
            background_colour: [0, 0, 0],
            preset_position: TestPatternPosition::Center,
            preset_size: TestPatternSize::Percent10,
        };
        assert(r.patch_colour@ =~= seq![128u16, 128u16, 128u16]);
        assert(r.background_colour@ =~= seq![0u16, 0u16, 0u16]);
        r
    }
}

impl TestPatternPosition {
    /// The name that the position is shown under.
    pub open spec fn name(self) -> Seq<char> {
        match self {
            TestPatternPosition::Center => "Center"@,
            TestPatternPosition::TopLeft => "Top left"@,
            TestPatternPosition::TopRight => "Top right"@,
            TestPatternPosition::BottomLeft => "Bottom left"@,
            TestPatternPosition::BottomRight => "Bottom right"@,
        }
    }

    /// The name that the position is shown under.
    pub fn as_ref(&self) -> (r: &'static str)
        ensures
            r@ == self.name(),
    {
        match self {
            TestPatternPosition::Center => "Center",
            TestPatternPosition::TopLeft => "Top left",
            TestPatternPosition::TopRight => "Top right",
            TestPatternPosition::BottomLeft => "Bottom left",
            TestPatternPosition::BottomRight => "Bottom right",
        }
    }

    /// Whether a patch of this size fits the display where the position puts it.
    pub open spec fn fits(self, width: u16, height: u16, patch_size: (u16, u16)) -> bool {
        match self {
            TestPatternPosition::Center => patch_size.0 / 2 <= width / 2 && patch_size.1 / 2
                <= height / 2,
            TestPatternPosition::TopLeft => true,
            TestPatternPosition::TopRight => patch_size.0 <= width,
            TestPatternPosition::BottomLeft => patch_size.1 <= height,
            TestPatternPosition::BottomRight => patch_size.0 <= width && patch_size.1 <= height,
        }
    }

    /// The offset of the patch's top left corner on a display of the given size.
    pub open spec fn position(self, width: u16, height: u16, patch_size: (u16, u16)) -> (int, int) {
        match self {
            TestPatternPosition::Center => (
                width / 2 - patch_size.0 / 2,
                height / 2 - patch_size.1 / 2,
            ),
            TestPatternPosition::TopLeft => (0, 0),
            TestPatternPosition::TopRight => (width - patch_size.0, 0),
            TestPatternPosition::BottomLeft => (0, height - patch_size.1),
            TestPatternPosition::BottomRight => (width - patch_size.0, height - patch_size.1),
        }
    }

    /// The offset of the patch's top left corner on a display of the given size.
    pub fn compute_position(&self, width: u16, height: u16, patch_size: (u16, u16)) -> (r: (
        u16,
        u16,
    ))
        requires
            self.fits(width, height, patch_size),
        ensures
            (r.0 as int, r.1 as int) == self.position(width, height, patch_size),
    {
        match self {
            TestPatternPosition::Center => {
                let (w2, h2) = (width / 2, height / 2);
                let (pw2, ph2) = (patch_size.0 / 2, patch_size.1 / 2);
                (w2 - pw2, h2 - ph2)
            },
            TestPatternPosition::TopLeft => (0, 0),
            TestPatternPosition::TopRight => (width - patch_size.0, 0),
            TestPatternPosition::BottomLeft => (0, height - patch_size.1),
            TestPatternPosition::BottomRight => (width - patch_size.0, height - patch_size.1),
        }
    }

    /// Whether a patch of this size fits the display where the position puts it.
    pub fn patch_fits(&self, width: u16, height: u16, patch_size: (u16, u16)) -> (r: bool)
        ensures
            r == self.fits(width, height, patch_size),
    {
        match self {
            TestPatternPosition::Center => patch_size.0 / 2 <= width / 2 && patch_size.1 / 2
                <= height / 2,
            TestPatternPosition::TopLeft => true,
            TestPatternPosition::TopRight => patch_size.0 <= width,
            TestPatternPosition::BottomLeft => patch_size.1 <= height,
            TestPatternPosition::BottomRight => patch_size.0 <= width && patch_size.1 <= height,
        }
    }
}

impl TestPatternSize {
    /// The name that the size is shown under.
    pub open spec fn name(self) -> Seq<char> {
        match self {
            TestPatternSize::Percent1 => "1% window"@,
            TestPatternSize::Percent2 => "2% window"@,
            TestPatternSize::Percent5 => "5% window"@,
            TestPatternSize::Percent10 => "10% window"@,
            TestPatternSize::Percent25 => "25% window"@,
            TestPatternSize::Percent50 => "50% window"@,
            TestPatternSize::Percent75 => "75% window"@,
            TestPatternSize::Percent100 => "100% window"@,
        }
    }

    /// The covered share of the display's area, in hundredths.
    pub open spec fn share(self) -> int {
        match self {
            TestPatternSize::Percent1 => 1,
            TestPatternSize::Percent2 => 2,
            TestPatternSize::Percent5 => 5,
            TestPatternSize::Percent10 => 10,
            TestPatternSize::Percent25 => 25,
            TestPatternSize::Percent50 => 50,
            TestPatternSize::Percent75 => 75,
            TestPatternSize::Percent100 => 100,
        }
    }

    /// The name that the size is shown under.
    pub fn as_ref(&self) -> (r: &'static str)
        ensures
            r@ == self.name(),
    {
        match self {
            TestPatternSize::Percent1 => "1% window",
            TestPatternSize::Percent2 => "2% window",
            TestPatternSize::Percent5 => "5% window",
            TestPatternSize::Percent10 => "10% window",
            TestPatternSize::Percent25 => "25% window",
            TestPatternSize::Percent50 => "50% window",
            TestPatternSize::Percent75 => "75% window",
            TestPatternSize::Percent100 => "100% window",
        }
    }

    /// The covered share of the display's area, in hundredths.
    pub fn percent(&self) -> (r: u8)
        ensures
            r == self.share(),
    {
        match self {
            TestPatternSize::Percent1 => 1,
            TestPatternSize::Percent2 => 2,
            TestPatternSize::Percent5 => 5,
            TestPatternSize::Percent10 => 10,
            TestPatternSize::Percent25 => 25,
            TestPatternSize::Percent50 => 50,
            TestPatternSize::Percent75 => 75,
            TestPatternSize::Percent100 => 100,
        }
    }
}

} // verus!
