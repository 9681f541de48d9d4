//! The list of patches that this program measures one after the other.

use vstd::prelude::*;
use crate::pgen::pattern_config::PGenPatternConfig;
use crate::utils::{get_rgb_real_range, rgb_range_max, rgb_range_min, Rgb};

verus! {

/// The lists of patches that come with the program.
#[derive(Debug, Clone, Copy, PartialEq, Eq, Structural)]
pub enum PatchListPreset {
    Basic,
    Primaries,
    Secondaries,
    Greyscale,
    SaturationSweep,
    MinMax,
}

impl Default for PatchListPreset {
    fn default() -> (r: PatchListPreset)
        ensures
            r == PatchListPreset::Basic,
    {
        PatchListPreset::Basic
    }
}

impl PatchListPreset {
    /// The name that the list is shown under.
    pub open spec fn name(self) -> Seq<char> {
        match self {
            PatchListPreset::Basic => "Basic"@,
            PatchListPreset::Primaries => "Primaries"@,
            PatchListPreset::Secondaries => "Secondaries"@,
            PatchListPreset::Greyscale => "22 pts greyscale"@,
            PatchListPreset::SaturationSweep => "Saturation sweep"@,
            PatchListPreset::MinMax => "Min/max brightness"@,
        }
    }

    /// The name that the list is shown under.
    pub fn as_ref(&self) -> (r: &'static str)
        ensures
            r@ == self.name(),
    {
        match self {
            PatchListPreset::Basic => "Basic",
            PatchListPreset::Primaries => "Primaries",
            PatchListPreset::Secondaries => "Secondaries",
            PatchListPreset::Greyscale => "22 pts greyscale",
            PatchListPreset::SaturationSweep => "Saturation sweep",
            PatchListPreset::MinMax => "Min/max brightness",
        }
    }
}

/// One patch of the list, and whether it has been measured.
#[derive(Debug, Clone, Copy, PartialEq, Eq)]
pub struct InternalPattern {
    pub rgb: Rgb,
    pub measured: bool,
}

/// The list of patches and where the measuring stands in it.
#[derive(Debug, Clone, PartialEq, Eq)]
pub struct InternalGenerator {
    pub started: bool,
    pub auto_advance: bool,
    pub read_selected_continuously: bool,
    pub preset: PatchListPreset,
    pub list: Vec<InternalPattern>,
    pub selected_idx: Option<usize>,
}

/// What follows a reading.
#[derive(Debug, Clone, Copy, PartialEq, Eq, Structural)]
pub enum AfterReading {
    /// The selected patch is measured next.
    MeasureSelected,
    /// The measuring ends and the display goes blank.
    Stop,
}

pub struct InternalGeneratorView {
    pub started: bool,
    pub auto_advance: bool,
    pub read_selected_continuously: bool,
    pub preset: PatchListPreset,
    pub list: Seq<InternalPattern>,
    pub selected_idx: Option<usize>,
}

impl View for InternalGenerator {
    type V = InternalGeneratorView;

    open spec fn view(&self) -> InternalGeneratorView {
        InternalGeneratorView {
            started: self.started,
            auto_advance: self.auto_advance,
            read_selected_continuously: self.read_selected_continuously,
            preset: self.preset,
            list: self.list@,
            selected_idx: self.selected_idx,
        }
    }
}

/// Whether the selection can move on: patches are advanced through by
/// themselves and the selected one is not the last.
pub open spec fn can_advance(g: InternalGeneratorView) -> bool {
    g.auto_advance && g.selected_idx.is_some() && g.selected_idx.unwrap() < g.list.len() - 1
}

/// The list after a reading of the selected patch has come, or has failed to come.
pub open spec fn after_reading(g: InternalGeneratorView, got_result: bool) -> (
    InternalGeneratorView,
    AfterReading,
) {
    if !got_result {
        (InternalGeneratorView { started: false, ..g }, AfterReading::Stop)
    } else {
        let list = if g.selected_idx.is_some() && g.selected_idx.unwrap() < g.list.len() {
            g.list.update(
                g.selected_idx.unwrap() as int,
                InternalPattern { measured: true, ..g.list[g.selected_idx.unwrap() as int] },
            )
        } else {
            g.list
        };
        let selected_idx = if can_advance(g) {
            Some((g.selected_idx.unwrap() + 1) as usize)
        } else {
            g.selected_idx
        };
        let goes_on = g.started && (can_advance(g) || (!g.auto_advance
            && g.read_selected_continuously));
        (
            InternalGeneratorView { list, selected_idx, started: goes_on, ..g },
            if goes_on {
                AfterReading::MeasureSelected
            } else {
                AfterReading::Stop
            },
        )
    }
}

impl InternalGenerator {
    /// The selected patch, if one is selected that is in the list.
    pub fn selected_patch(&self) -> (r: Option<&InternalPattern>)
        ensures
            r == match self.selected_idx {
                Some(i) => if i < self.list@.len() {
                    Some(&self.list@[i as int])
                } else {
                    None
                },
                None => None,
            },
    {
        match self.selected_idx {
            Some(i) => if i < self.list.len() {
                Some(&self.list[i])
            } else {
                None
            },
            None => None,
        }
    }

    /// Takes note of the outcome of a reading of the selected patch and
    /// tells how the measuring goes on. A reading that has come marks the
    /// patch as measured; the selection moves to the next patch where
    /// patches are advanced through; the measuring goes on while it was not
    /// stopped and there is a patch to go on with.
    pub fn handle_spotread_result(&mut self, got_result: bool) -> (r: AfterReading)
        requires
            got_result ==> old(self).list@.len() > 0,
        ensures
            (final(self)@, r) == after_reading(old(self)@, got_result),
    {
        if !got_result {
            self.started = false;
            return AfterReading::Stop;
        }
        let last_idx: usize = self.list.len() - 1;
        let mut can_advance = false;
        match self.selected_idx {
            Some(i) => {
                if i < self.list.len() {
                    let patch = InternalPattern { rgb: self.list[i].rgb, measured: true };
                    self.list.set(i, patch);
                }
                if self.auto_advance && i < last_idx {
                    can_advance = true;
                    self.selected_idx = Some(i + 1);
                }
            },
            None => {},
        }
        let continuous_selected = !self.auto_advance && self.read_selected_continuously;
        if self.started && (can_advance || continuous_selected) {
            AfterReading::MeasureSelected
        } else {
            self.started = false;
            AfterReading::Stop
        }
    }
}

/// The three primaries and the three colours between them, in thousandths.
pub open spec fn primaries_and_secondaries() -> Seq<[u16; 3]> {
    seq![
        [1000u16, 0u16, 0u16],
        [0u16, 1000u16, 0u16],
        [0u16, 0u16, 1000u16],
        [1000u16, 1000u16, 0u16],
        [1000u16, 0u16, 1000u16],
        [0u16, 1000u16, 1000u16],
    ]
}

/// The grey of the step `i`, in thousandths: black, three steps of a
/// fortieth, then from a tenth to white in steps of a twentieth.
pub open spec fn grey_step(i: int) -> u16 {
    if i < 4 {
        (25 * i) as u16
    } else {
        (100 + 50 * (i - 4)) as u16
    }
}

/// A component of a colour at `point` quarters of its saturation, in
/// thousandths: what the colour has stays, what it lacks is filled up by
/// what is missing to four quarters.
pub open spec fn desaturated(c: u16, point: int) -> u16 {
    if c == 1000 {
        1000
    } else {
        (250 * (4 - point)) as u16
    }
}

/// The colour `c` at `point` quarters of its saturation, in thousandths.
pub open spec fn at_saturation(c: [u16; 3], point: int) -> [u16; 3] {
    [desaturated(c[0], point), desaturated(c[1], point), desaturated(c[2], point)]
}

/// The patches of a list, each red, green and blue in thousandths of the full range.
pub open spec fn preset_patches(preset: PatchListPreset) -> Seq<[u16; 3]> {
    match preset {
        PatchListPreset::Basic => seq![
            [0u16, 0u16, 0u16],
            [1000u16, 0u16, 0u16],
            [0u16, 1000u16, 0u16],
            [0u16, 0u16, 1000u16],
            [1000u16, 1000u16, 1000u16],
        ],
        PatchListPreset::Primaries => seq![
            [1000u16, 0u16, 0u16],
            [0u16, 1000u16, 0u16],
            [0u16, 0u16, 1000u16],
        ],
        PatchListPreset::Secondaries => primaries_and_secondaries(),
        PatchListPreset::Greyscale => Seq::new(
            23,
            |i: int| [grey_step(i), grey_step(i), grey_step(i)],
        ),
        PatchListPreset::SaturationSweep => Seq::new(
            24,
            |i: int| at_saturation(primaries_and_secondaries()[i / 4], i % 4 + 1),
        ),
        PatchListPreset::MinMax => seq![[0u16, 0u16, 0u16], [1000u16, 1000u16, 1000u16]],
    }
}

/// A component of `c` thousandths in a range that begins at `min` and is
/// `real_max` wide, rounded to the nearest value, halves upwards.
pub open spec fn scaled_component(c: u16, min: u16, real_max: u16) -> u16 {
    ((2 * c * real_max + 1000) / 2000 + min) as u16
}

/// The patch of a colour in thousandths, not measured yet.
pub open spec fn scaled_patch(c: [u16; 3], min: u16, real_max: u16) -> InternalPattern {
    InternalPattern {
        rgb: [
            scaled_component(c[0], min, real_max),
            scaled_component(c[1], min, real_max),
            scaled_component(c[2], min, real_max),
        ],
        measured: false,
    }
}

/// Whether no component of the colours is above a thousand.
pub open spec fn within_thousand(list: Seq<[u16; 3]>) -> bool {
    forall|i: int|
        0 <= i < list.len() ==> (#[trigger] list[i])[0] <= 1000 && list[i][1] <= 1000 && list[i][2]
            <= 1000
}

fn six_colours() -> (r: [[u16; 3]; 6])
    ensures
        r@ == primaries_and_secondaries(),
{
    let r = [[1000, 0, 0], [0, 1000, 0], [0, 0, 1000], [1000, 1000, 0], [1000, 0, 1000], [0, 1000, 1000]];
    assert(r@ =~= primaries_and_secondaries());
    r
}

impl PatchListPreset {
    /// The patches of the list, each red, green and blue in thousandths of the full range.
    pub fn rgb_thousandths(&self) -> (r: Vec<[u16; 3]>)
        ensures
            r@ == preset_patches(*self),
            within_thousand(r@),
    {
        let mut list: Vec<[u16; 3]> = Vec::new();
        match self {
            PatchListPreset::Basic => {
                list.push([0, 0, 0]);
                list.push([1000, 0, 0]);
                list.push([0, 1000, 0]);
                list.push([0, 0, 1000]);
                list.push([1000, 1000, 1000]);
                assert(list@ =~= preset_patches(*self));
            },
            PatchListPreset::Primaries => {
                list.push([1000, 0, 0]);
                list.push([0, 1000, 0]);
                list.push([0, 0, 1000]);
                assert(list@ =~= preset_patches(*self));
            },
            PatchListPreset::Secondaries => {
                let colours = six_colours();
                let mut i: usize = 0;
                while i < 6
                    invariant
                        i <= 6,
                        colours@ == primaries_and_secondaries(),
                        list@.len() == i,
                        forall|j: int| 0 <= j < i ==> list@[j] == primaries_and_secondaries()[j],
                    decreases 6 - i,
                {
                    list.push(colours[i]);
                    i += 1;
                }
                assert(list@ =~= preset_patches(*self));
            },
            PatchListPreset::Greyscale => {
                let mut i: u16 = 0;
                while i < 23
                    invariant
                        i <= 23,
                        list@.len() == i,
                        forall|j: int|
                            0 <= j < i ==> list@[j] == [grey_step(j), grey_step(j), grey_step(j)],
                    decreases 23 - i,
                {
                    let v: u16 = if i < 4 {
                        25 * i
                    } else {
                        100 + 50 * (i - 4)
                    };
                    let patch = [v, v, v];
                    assert(patch =~= [grey_step(i as int), grey_step(i as int), grey_step(i as int)]);
                    list.push(patch);
                    i += 1;
                }
                assert(list@ =~= preset_patches(*self));
            },
            PatchListPreset::SaturationSweep => {
                let colours = six_colours();
                let mut i: usize = 0;
                while i < 24
                    invariant
                        i <= 24,
                        colours@ == primaries_and_secondaries(),
                        list@.len() == i,
                        forall|j: int|
                            0 <= j < i ==> list@[j] == at_saturation(
                                primaries_and_secondaries()[j / 4],
                                j % 4 + 1,
                            ),
                    decreases 24 - i,
                {
                    let c = colours[i / 4];
                    let rest: u16 = 250 * (3 - (i % 4) as u16);
                    let patch: [u16; 3] = [
                        if c[0] == 1000 {
                            1000
                        } else {
                            rest
                        },
                        if c[1] == 1000 {
                            1000
                        } else {
                            rest
                        },
                        if c[2] == 1000 {
                            1000
                        } else {
                            rest
                        },
                    ];
                    assert(patch =~= at_saturation(
                        primaries_and_secondaries()[i as int / 4],
                        i as int % 4 + 1,
                    ));
                    list.push(patch);
                    i += 1;
                }
                assert(list@ =~= preset_patches(*self));
            },
            PatchListPreset::MinMax => {
                list.push([0, 0, 0]);
                list.push([1000, 1000, 1000]);
                assert(list@ =~= preset_patches(*self));
            },
        }
        list
    }
}

/// A component of `c` thousandths in the given range.
fn scale_component(c: u16, min: u16, real_max: u16) -> (r: u16)
    requires
        c <= 1000,
        min + real_max <= 65535,
    ensures
        r == scaled_component(c, min, real_max),
{
    let c64: u64 = c as u64;
    let width: u64 = real_max as u64;
    assert(2 * c64 * width <= 2000 * 65535) by (nonlinear_arith)
        requires
            c64 <= 1000,
            width <= 65535,
    ;
    let product: u64 = 2 * c64 * width;
    assert(product <= 2000 * width) by (nonlinear_arith)
        requires
            product == 2 * c64 * width,
            c64 <= 1000,
    ;
    let q: u64 = (product + 1000) / 2000;
    (q + min as u64) as u16
}

impl InternalGenerator {
    /// Replaces the list by the patches of the preset, in the bit depth
    /// and range of the pattern; none of them is measured.
    pub fn load_preset(&mut self, config: &PGenPatternConfig)
        ensures
            final(self).started == old(self).started,
            final(self).auto_advance == old(self).auto_advance,
            final(self).read_selected_continuously == old(self).read_selected_continuously,
            final(self).preset == old(self).preset,
            final(self).selected_idx == old(self).selected_idx,
            final(self).list@.len() == preset_patches(old(self).preset).len(),
            forall|i: int|
                0 <= i < final(self).list@.len() ==> #[trigger] final(self).list@[i]
                    == scaled_patch(
                    preset_patches(old(self).preset)[i],
                    rgb_range_min(config.limited_range, config.bit_depth.repr() as u8) as u16,
                    (rgb_range_max(config.limited_range, config.bit_depth.repr() as u8)
                        - rgb_range_min(config.limited_range, config.bit_depth.repr() as u8)) as u16,
                ),
    {
        let (min, real_max) = get_rgb_real_range(config.limited_range, config.bit_depth.value() as u8);
        let patches = self.preset.rgb_thousandths();
        self.list.clear();
        let mut i: usize = 0;
        while i < patches.len()
            invariant
                i <= patches.len(),
                min + real_max <= 65535,
                within_thousand(patches@),
                self.list@.len() == i,
                self.started == old(self).started,
                self.auto_advance == old(self).auto_advance,
                self.read_selected_continuously == old(self).read_selected_continuously,
                self.preset == old(self).preset,
                self.selected_idx == old(self).selected_idx,
                forall|j: int|
                    0 <= j < i ==> #[trigger] self.list@[j] == scaled_patch(
                        patches@[j],
                        min,
                        real_max,
                    ),
            decreases patches.len() - i,
        {
            let c = patches[i];
            assert(patches@[i as int][0] <= 1000);
            let rgb = [
                scale_component(c[0], min, real_max),
                scale_component(c[1], min, real_max),
                scale_component(c[2], min, real_max),
            ];
            assert(rgb =~= scaled_patch(c, min, real_max).rgb);
            self.list.push(InternalPattern { rgb, measured: false });
            i += 1;
        }
    }
}

/// A list of patches is as long as its preset says: five, three, six,
/// twenty-three, twenty-four and two patches.
pub proof fn lemma_preset_lengths(preset: PatchListPreset)
    ensures
        preset_patches(preset).len() == match preset {
            PatchListPreset::Basic => 5nat,
            PatchListPreset::Primaries => 3nat,
            PatchListPreset::Secondaries => 6nat,
            PatchListPreset::Greyscale => 23nat,
            PatchListPreset::SaturationSweep => 24nat,
            PatchListPreset::MinMax => 2nat,
        },
{
}

} // verus!
