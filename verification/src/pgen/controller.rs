//! What the controller knows of the generator, and how the generator's
//! answers change it.

use vstd::prelude::*;
use vstd::slice::slice_subrange;
use vstd::string::StringSliceAdditionalSpecFns;
use crate::bytes::{find_byte, find_space, offset_of, parse_unsigned, space_offset, trim, trimmed,
    unsigned_decimal_up_to};
use vstd::utf8::valid_utf8;
use crate::decimal::{decimal_of, parse_decimal, Decimal};
use crate::outside::{base64_standard_decode, decode_base64, is_utf8};
use crate::pgen::client::{ConnectState, IpAddress, SocketAddress};
use crate::pgen::pattern_config::PGenPatternConfig;
use crate::pgen::{BitDepth, ColorFormat, Colorimetry, DoviMapMode, DynamicRange, HdrEotf, HdrMetadata,
    Primaries, QuantRange};

verus! {

/// A mode that the display can be driven in.
#[derive(Debug, Clone, Copy, PartialEq, Eq)]
pub struct DisplayMode {
    pub id: usize,
    /// Width and height.
    pub resolution: (u16, u16),
    /// In hertz.
    pub refresh_rate: Decimal,
}

/// Why a line does not describe a display mode.
#[derive(Debug, Clone, Copy, PartialEq, Eq, Structural)]
pub enum DisplayModeError {
    /// What stands before the bracket is not a number.
    Id,
    /// Fewer than two dimensions stand in the resolution.
    Resolution,
    /// What stands before `Hz` is not a number.
    RefreshRate,
}

/// `s` from offset `from` on; nothing where `from` is behind the end.
pub open spec fn tail_from(s: Seq<u8>, from: int) -> Seq<u8> {
    if 0 <= from <= s.len() {
        s.subrange(from, s.len() as int)
    } else {
        Seq::empty()
    }
}

/// The text of the mode's number: what stands before the first bracket.
pub open spec fn id_text(line: Seq<u8>) -> Seq<u8> {
    line.subrange(0, offset_of(line, 0x5b))
}

/// What follows the first bracket.
pub open spec fn after_bracket(line: Seq<u8>) -> Seq<u8> {
    tail_from(line, offset_of(line, 0x5b) + 1)
}

/// The text of the resolution: what follows the bracket, up to the first whitespace.
pub open spec fn resolution_text(line: Seq<u8>) -> Seq<u8> {
    after_bracket(line).subrange(0, space_offset(after_bracket(line)))
}

/// The text of the refresh rate: what follows the whitespace behind the
/// resolution, up to the first `H`, trimmed.
pub open spec fn rate_text(line: Seq<u8>) -> Seq<u8> {
    let rest = tail_from(after_bracket(line), space_offset(after_bracket(line)) + 1);
    trimmed(rest.subrange(0, offset_of(rest, 0x48)))
}

/// The first two numbers among the parts that `x` divides `s` into, behind
/// the numbers already `got`; parts that are no number are passed over.
pub open spec fn first_two_dims(s: Seq<u8>, got: Seq<u16>) -> Option<(u16, u16)>
    decreases s.len(),
{
    if got.len() >= 2 {
        Some((got[0], got[1]))
    } else {
        let n = offset_of(s, 0x78);
        let more = match unsigned_decimal_up_to(s.subrange(0, n), 65535) {
            Some(v) => got.push(v as u16),
            None => got,
        };
        if 0 <= n < s.len() {
            first_two_dims(s.subrange(n + 1, s.len() as int), more)
        } else if more.len() >= 2 {
            Some((more[0], more[1]))
        } else {
            None
        }
    }
}

/// The mode that a line describes: `<id>[<width>x<height> <rate>Hz ...`.
pub open spec fn display_mode_of(line: Seq<u8>) -> Result<DisplayMode, DisplayModeError> {
    match unsigned_decimal_up_to(id_text(line), usize::MAX as u64) {
        None => Err(DisplayModeError::Id),
        Some(id) => match first_two_dims(resolution_text(line), Seq::empty()) {
            None => Err(DisplayModeError::Resolution),
            Some(resolution) => match decimal_of(rate_text(line)) {
                None => Err(DisplayModeError::RefreshRate),
                Some(refresh_rate) => Ok(
                    DisplayMode { id: id as usize, resolution, refresh_rate },
                ),
            },
        },
    }
}

/// The first two numbers among the parts that `x` divides `s` into.
fn parse_dims(s: &[u8]) -> (r: Option<(u16, u16)>)
    ensures
        r == first_two_dims(s@, Seq::empty()),
{
    let mut got: Vec<u16> = Vec::new();
    let mut pos: usize = 0;
    assert(s@.subrange(0, s.len() as int) =~= s@);
    loop
        invariant
            pos <= s.len(),
            got@.len() < 2,
            first_two_dims(s@, Seq::empty()) == first_two_dims(
                s@.subrange(pos as int, s.len() as int),
                got@,
            ),
        decreases s.len() - pos,
    {
        let rest = slice_subrange(s, pos, s.len());
        let n = find_byte(rest, 0x78);
        let part = slice_subrange(rest, 0, n);
        match parse_unsigned(part, 65535) {
            Some(v) => {
                got.push(v as u16);
            },
            None => {},
        }
        if got.len() >= 2 {
            proof {
                if n < rest.len() {
                    assert(first_two_dims(rest@.subrange(n + 1, rest@.len() as int), got@)
                        == Some((got@[0], got@[1])));
                }
            }
            return Some((got[0], got[1]));
        }
        if n >= rest.len() {
            return None;
        }
        assert(rest@.subrange(n + 1, rest@.len() as int) =~= s@.subrange(
            pos + n + 1,
            s.len() as int,
        ));
        pos = pos + n + 1;
    }
}

impl DisplayMode {
    /// The mode that a line of the generator's list of modes describes.
    pub fn try_from_str(line: &str) -> (r: Result<DisplayMode, DisplayModeError>)
        ensures
            r == display_mode_of(line.spec_bytes()),
    {
        Self::try_from_bytes(line.as_bytes())
    }

    /// The mode that a line of the generator's list of modes describes.
    pub fn try_from_bytes(line: &[u8]) -> (r: Result<DisplayMode, DisplayModeError>)
        ensures
            r == display_mode_of(line@),
    {
        let bracket = find_byte(line, 0x5b);
        let id = match parse_unsigned(slice_subrange(line, 0, bracket), usize::MAX as u64) {
            Some(id) => id as usize,
            None => { return Err(DisplayModeError::Id); },
        };
        let rest = if bracket < line.len() {
            slice_subrange(line, bracket + 1, line.len())
        } else {
            slice_subrange(line, line.len(), line.len())
        };
        assert(rest@ =~= after_bracket(line@));
        let space = find_space(rest);
        let resolution = match parse_dims(slice_subrange(rest, 0, space)) {
            Some(d) => d,
            None => { return Err(DisplayModeError::Resolution); },
        };
        let rest2 = if space < rest.len() {
            slice_subrange(rest, space + 1, rest.len())
        } else {
            slice_subrange(rest, rest.len(), rest.len())
        };
        assert(rest2@ =~= tail_from(rest@, space + 1));
        let h = find_byte(rest2, 0x48);
        let refresh_rate = match parse_decimal(trim(slice_subrange(rest2, 0, h))) {
            Some(d) => d,
            None => { return Err(DisplayModeError::RefreshRate); },
        };
        Ok(DisplayMode { id, resolution, refresh_rate })
    }
}

impl DisplayMode {
    /// Whether two modes are the same mode.
    pub fn same_as(&self, other: &DisplayMode) -> (r: bool)
        ensures
            r == (*self == *other),
    {
        self.id == other.id && self.resolution.0 == other.resolution.0 && self.resolution.1
            == other.resolution.1 && self.refresh_rate.mantissa == other.refresh_rate.mantissa
            && self.refresh_rate.scale == other.refresh_rate.scale
    }

    /// Whether the mode is 1920 by 1080 at 60 Hz.
    pub open spec fn is_full_hd_60(self) -> bool {
        self.resolution == (1920u16, 1080u16) && self.refresh_rate.is_whole(60)
    }

    /// Whether the mode is 1920 by 1080 at 60 Hz.
    pub fn is_1080p60(&self) -> (r: bool)
        ensures
            r == self.is_full_hd_60(),
    {
        self.resolution.0 == 1920 && self.resolution.1 == 1080 && self.refresh_rate.equals_whole(
            60,
        )
    }
}

impl Default for DisplayMode {
    fn default() -> (r: DisplayMode)
        ensures
            r == (DisplayMode {
                id: 0,
                resolution: (0u16, 0u16),
                refresh_rate: Decimal { mantissa: 0, scale: 0 },
            }),
    {
        DisplayMode { id: 0, resolution: (0, 0), refresh_rate: Decimal { mantissa: 0, scale: 0 } }
    }
}

/// `line` without the carriage return at its end, if one stands there.
pub open spec fn strip_cr(line: Seq<u8>) -> Seq<u8> {
    if line.len() > 0 && line.last() == 0x0d {
        line.drop_last()
    } else {
        line
    }
}

/// The first line of `s`: what stands before the first line feed, without a
/// carriage return before that line feed.
pub open spec fn first_line(s: Seq<u8>) -> Seq<u8> {
    let n = offset_of(s, 0x0a);
    if 0 <= n < s.len() {
        strip_cr(s.subrange(0, n))
    } else {
        s
    }
}

/// The modes that the lines of `s` describe, in their order; lines that
/// describe no mode are passed over.
pub open spec fn modes_in(s: Seq<u8>) -> Seq<DisplayMode>
    decreases s.len(),
{
    if s.len() == 0 {
        Seq::empty()
    } else {
        let n = offset_of(s, 0x0a);
        let head = match display_mode_of(first_line(s)) {
            Ok(mode) => seq![mode],
            Err(_) => Seq::empty(),
        };
        if 0 <= n < s.len() {
            head + modes_in(s.subrange(n + 1, s.len() as int))
        } else {
            head
        }
    }
}

/// The modes that a decoded list of modes holds, if the list is text.
pub open spec fn modes_of_list(decoded: Seq<u8>) -> Option<Seq<DisplayMode>> {
    if valid_utf8(decoded) {
        Some(modes_in(decoded))
    } else {
        None
    }
}

/// The modes that the generator's answer holds: the value is base64, and
/// what it decodes to is the list.
pub open spec fn modes_of_answer(value: Seq<u8>) -> Option<Seq<DisplayMode>> {
    match base64_standard_decode(value) {
        Some(decoded) => modes_of_list(decoded),
        None => None,
    }
}

/// The modes that a decoded list of modes holds, one to a line.
pub fn display_modes_from_list(decoded: &[u8]) -> (r: Option<Vec<DisplayMode>>)
    ensures
        match r {
            Some(modes) => modes_of_list(decoded@) == Some(modes@),
            None => modes_of_list(decoded@).is_none(),
        },
{
    if !is_utf8(decoded) {
        return None;
    }
    let mut modes: Vec<DisplayMode> = Vec::new();
    let mut pos: usize = 0;
    assert(decoded@.subrange(0, decoded.len() as int) =~= decoded@);
    while pos < decoded.len()
        invariant
            pos <= decoded.len(),
            modes_in(decoded@) == modes@ + modes_in(decoded@.subrange(pos as int, decoded.len() as int)),
        decreases decoded.len() - pos,
    {
        let rest = slice_subrange(decoded, pos, decoded.len());
        let n = find_byte(rest, 0x0a);
        let line = if n < rest.len() {
            let part = slice_subrange(rest, 0, n);
            if n > 0 && part[n - 1] == 0x0d {
                slice_subrange(part, 0, n - 1)
            } else {
                part
            }
        } else {
            rest
        };
        assert(line@ =~= first_line(rest@));
        let ghost before = modes@;
        match DisplayMode::try_from_bytes(line) {
            Ok(mode) => {
                modes.push(mode);
            },
            Err(_) => {},
        }
        if n < rest.len() {
            assert(rest@.subrange(n + 1, rest@.len() as int) =~= decoded@.subrange(
                pos + n + 1,
                decoded.len() as int,
            ));
            assert(modes@ + modes_in(rest@.subrange(n + 1, rest@.len() as int)) =~= before
                + modes_in(rest@));
            pos = pos + n + 1;
        } else {
            assert(modes@ =~= before + modes_in(rest@));
            assert(decoded@.subrange(decoded.len() as int, decoded.len() as int) =~= Seq::<
                u8,
            >::empty());
            pos = decoded.len();
        }
    }
    assert(modes_in(decoded@.subrange(pos as int, decoded.len() as int)) =~= Seq::<
        DisplayMode,
    >::empty());
    assert(modes@ + Seq::<DisplayMode>::empty() =~= modes@);
    Some(modes)
}

/// The modes that the generator's answer to the question for its modes holds.
pub fn display_modes_from_answer(value: &[u8]) -> (r: Option<Vec<DisplayMode>>)
    ensures
        match r {
            Some(modes) => modes_of_answer(value@) == Some(modes@),
            None => modes_of_answer(value@).is_none(),
        },
{
    match decode_base64(value) {
        Ok(decoded) => display_modes_from_list(decoded.as_slice()),
        Err(_) => None,
    }
}

/// The settings of the generator's output.
#[derive(Debug, Clone, Copy, PartialEq, Eq, Structural)]
pub struct PGenOutputConfig {
    pub format: ColorFormat,
    pub bit_depth: BitDepth,
    pub quant_range: QuantRange,
    pub colorimetry: Colorimetry,
    pub dynamic_range: DynamicRange,
    pub hdr_meta: HdrMetadata,
    pub dovi_map_mode: DoviMapMode,
}

impl Default for PGenOutputConfig {
    fn default() -> (r: PGenOutputConfig)
        ensures
            r == (PGenOutputConfig {
                format: ColorFormat::Rgb,
                bit_depth: BitDepth::Ten,
                quant_range: QuantRange::Full,
                colorimetry: Colorimetry::Default,
                dynamic_range: DynamicRange::Sdr,
                hdr_meta: HdrMetadata {
                    eotf: HdrEotf::Pq,
                    primaries: Primaries::DisplayP3,
                    max_mdl: 0,
                    min_mdl: 0,
                    maxcll: 0,
                    maxfall: 0,
                },
                dovi_map_mode: DoviMapMode::Relative,
            }),
    {
        PGenOutputConfig {
            format: ColorFormat::Rgb,
            bit_depth: BitDepth::Ten,
            quant_range: QuantRange::Full,
            colorimetry: Colorimetry::Default,
            dynamic_range: DynamicRange::Sdr,
            hdr_meta: HdrMetadata {
                eotf: HdrEotf::Pq,
                primaries: Primaries::DisplayP3,
                max_mdl: 0,
                min_mdl: 0,
                maxcll: 0,
                maxfall: 0,
            },
            dovi_map_mode: DoviMapMode::Relative,
        }
    }
}

/// What the generator has told of itself.
#[derive(Debug, Clone, PartialEq, Eq)]
pub struct PGenInfo {
    pub version: String,
    pub pid: String,
    pub current_display_mode: DisplayMode,
    pub display_modes: Vec<DisplayMode>,
    pub output_config: PGenOutputConfig,
}

pub struct PGenInfoView {
    pub version: Seq<char>,
    pub pid: Seq<char>,
    pub current_display_mode: DisplayMode,
    pub display_modes: Seq<DisplayMode>,
    pub output_config: PGenOutputConfig,
}

impl View for PGenInfo {
    type V = PGenInfoView;

    open spec fn view(&self) -> PGenInfoView {
        PGenInfoView {
            version: self.version@,
            pid: self.pid@,
            current_display_mode: self.current_display_mode,
            display_modes: self.display_modes@,
            output_config: self.output_config,
        }
    }
}

/// What is taken for granted of a generator that has told nothing yet.
pub open spec fn default_info() -> PGenInfoView {
    PGenInfoView {
        version: Seq::empty(),
        pid: Seq::empty(),
        current_display_mode: DisplayMode {
            id: 0,
            resolution: (0u16, 0u16),
            refresh_rate: Decimal { mantissa: 0, scale: 0 },
        },
        display_modes: Seq::empty(),
        output_config: PGenOutputConfig {
            format: ColorFormat::Rgb,
            bit_depth: BitDepth::Ten,
            quant_range: QuantRange::Full,
            colorimetry: Colorimetry::Default,
            dynamic_range: DynamicRange::Sdr,
            hdr_meta: HdrMetadata {
                eotf: HdrEotf::Pq,
                primaries: Primaries::DisplayP3,
                max_mdl: 0,
                min_mdl: 0,
                maxcll: 0,
                maxfall: 0,
            },
            dovi_map_mode: DoviMapMode::Relative,
        },
    }
}

impl Default for PGenInfo {
    fn default() -> (r: PGenInfo)
        ensures
            r@ == default_info(),
    {
        PGenInfo {
            version: String::new(),
            pid: String::new(),
            current_display_mode: DisplayMode::default(),
            display_modes: Vec::new(),
            output_config: PGenOutputConfig::default(),
        }
    }
}

/// What the controller knows: whether the generator is reached, what it
/// has told of itself, and the pattern that is set up.
#[derive(Debug, Clone, PartialEq, Eq)]
pub struct PGenControllerState {
    pub connected_state: ConnectState,
    pub pgen_info: Option<PGenInfo>,
    pub pattern_config: PGenPatternConfig,
}

impl Default for PGenControllerState {
    fn default() -> (r: PGenControllerState)
        ensures
            !r.connected_state.connected,
            r.connected_state.error.is_none(),
            r.pgen_info.is_none(),
            r.pattern_config == PGenPatternConfig::default_config(),
    {
        PGenControllerState {
            connected_state: ConnectState::default(),
            pgen_info: None,
            pattern_config: PGenPatternConfig::default(),
        }
    }
}

impl PGenControllerState {
    /// The address at which a generator is looked for before one is named:
    /// any address of this machine, port 85.
    pub fn default_socket_addr() -> (r: SocketAddress)
        ensures
            r == (SocketAddress { ip: IpAddress::V4([0u8, 0u8, 0u8, 0u8]), port: 85 }),
    {
        SocketAddress { ip: IpAddress::V4([0, 0, 0, 0]), port: 85 }
    }

    /// Whether the generator puts out Dolby Vision.
    pub open spec fn in_dovi_mode(&self) -> bool {
        match self.pgen_info {
            Some(info) => info.output_config.dynamic_range == DynamicRange::Dovi,
            None => false,
        }
    }

    /// Whether the generator puts out Dolby Vision.
    pub fn is_dovi_mode(&self) -> (r: bool)
        ensures
            r == self.in_dovi_mode(),
    {
        match &self.pgen_info {
            Some(info) => info.output_config.dynamic_range == DynamicRange::Dovi,
            None => false,
        }
    }

    /// Whether the patch that is set up lies within the current mode's resolution.
    pub open spec fn patch_fits_mode(&self) -> bool {
        match self.pgen_info {
            Some(info) => self.pattern_config.patch_size.0 <= info.current_display_mode.resolution.0
                && self.pattern_config.patch_size.1 <= info.current_display_mode.resolution.1,
            None => true,
        }
    }

    /// The resolution of the current mode, and how far right and how far
    /// down the patch can be moved in it.
    pub fn compute_max_pattern_size_and_position(&self) -> (r: Option<(u16, u16, u16, u16)>)
        requires
            self.patch_fits_mode(),
        ensures
            match self.pgen_info {
                Some(info) => r == Some(
                    (
                        info.current_display_mode.resolution.0,
                        info.current_display_mode.resolution.1,
                        (info.current_display_mode.resolution.0
                            - self.pattern_config.patch_size.0) as u16,
                        (info.current_display_mode.resolution.1
                            - self.pattern_config.patch_size.1) as u16,
                    ),
                ),
                None => r.is_none(),
            },
    {
        match &self.pgen_info {
            Some(info) => {
                let (max_w, max_h) = info.current_display_mode.resolution;
                let (width, height) = self.pattern_config.patch_size;
                Some((max_w, max_h, max_w - width, max_h - height))
            },
            None => None,
        }
    }

    /// Takes a patch size for the current mode and puts the patch where
    /// the preset position has it. Nothing changes while the generator has
    /// told nothing of itself.
    pub fn set_pattern_size_and_pos(&mut self, patch_size: (u16, u16))
        requires
            old(self).pgen_info.is_some() ==> old(self).pattern_config.preset_position.fits(
                old(self).pgen_info.unwrap().current_display_mode.resolution.0,
                old(self).pgen_info.unwrap().current_display_mode.resolution.1,
                patch_size,
            ),
        ensures
            final(self).connected_state == old(self).connected_state,
            final(self).pgen_info == old(self).pgen_info,
            match old(self).pgen_info {
                Some(info) => {
                    &&& final(self).pattern_config.patch_size == patch_size
                    &&& (
                        final(self).pattern_config.position.0 as int,
                        final(self).pattern_config.position.1 as int,
                    ) == old(self).pattern_config.preset_position.position(
                        info.current_display_mode.resolution.0,
                        info.current_display_mode.resolution.1,
                        patch_size,
                    )
                    &&& final(self).pattern_config.limited_range == old(
                        self,
                    ).pattern_config.limited_range
                    &&& final(self).pattern_config.bit_depth == old(self).pattern_config.bit_depth
                    &&& final(self).pattern_config.patch_colour == old(
                        self,
                    ).pattern_config.patch_colour
                    &&& final(self).pattern_config.background_colour == old(
                        self,
                    ).pattern_config.background_colour
                    &&& final(self).pattern_config.preset_position == old(
                        self,
                    ).pattern_config.preset_position
                    &&& final(self).pattern_config.preset_size == old(
                        self,
                    ).pattern_config.preset_size
                },
                None => final(self).pattern_config == old(self).pattern_config,
            },
    {
        let resolution = match &self.pgen_info {
            Some(info) => Some(info.current_display_mode.resolution),
            None => None,
        };
        match resolution {
            Some((width, height)) => {
                let position = self.pattern_config.preset_position.compute_position(
                    width,
                    height,
                    patch_size,
                );
                self.pattern_config.patch_size = patch_size;
                self.pattern_config.position = position;
            },
            None => {},
        }
    }
}

} // verus!
