//! The commands that read and write the generator's settings, and what its
//! answers to them mean.

use vstd::prelude::*;
use vstd::string::StringSliceAdditionalSpecFns;
use vstd::utf8::{encode_utf8, is_char_boundary};
use crate::pgen::controller::DisplayMode;
use crate::pgen::{BitDepth, ColorFormat, Colorimetry, DoviMapMode, DynamicRange, HdrEotf, Primaries,
    QuantRange};
use crate::bytes::{find, first_occurrence, last_token, last_word, parse_unsigned, same_bytes,
    unsigned_decimal_up_to};

verus! {

/// A command that asks the generator for one of its settings.
#[derive(Debug, Clone, Copy, PartialEq, Eq, Structural)]
pub enum PGenGetConfCommand {
    GetPGeneratorVersion,
    GetPGeneratorPid,
    GetCurrentMode,
    GetModesAvailable,
    GetColorFormat,
    GetBitDepth,
    GetQuantRange,
    GetColorimetry,
    GetOutputIsSDR,
    GetOutputIsHDR,
    GetOutputIsLLDV,
    GetOutputIsStdDovi,
    GetDoviMapMode,
    GetHdrEotf,
    GetHdrPrimaries,
    GetHdrMaxMdl,
    GetHdrMinMdl,
    GetHdrMaxCLL,
    GetHdrMaxFALL,
    GetOutputRange,
}

impl PGenGetConfCommand {
    /// The word that the generator knows the command by.
    pub open spec fn name(self) -> Seq<char> {
        match self {
            PGenGetConfCommand::GetPGeneratorVersion => "GET_PGENERATOR_VERSION"@,
            PGenGetConfCommand::GetPGeneratorPid => "GET_PGENERATOR_IS_EXECUTED"@,
            PGenGetConfCommand::GetCurrentMode => "GET_MODE"@,
            PGenGetConfCommand::GetModesAvailable => "GET_MODES_AVAILABLE"@,
            PGenGetConfCommand::GetColorFormat => "GET_PGENERATOR_CONF_COLOR_FORMAT"@,
            PGenGetConfCommand::GetBitDepth => "GET_PGENERATOR_CONF_MAX_BPC"@,
            PGenGetConfCommand::GetQuantRange => "GET_PGENERATOR_CONF_RGB_QUANT_RANGE"@,
            PGenGetConfCommand::GetColorimetry => "GET_PGENERATOR_CONF_COLORIMETRY"@,
            PGenGetConfCommand::GetOutputIsSDR => "GET_PGENERATOR_CONF_IS_SDR"@,
            PGenGetConfCommand::GetOutputIsHDR => "GET_PGENERATOR_CONF_IS_HDR"@,
            PGenGetConfCommand::GetOutputIsLLDV => "GET_PGENERATOR_CONF_IS_LL_DOVI"@,
            PGenGetConfCommand::GetOutputIsStdDovi => "GET_PGENERATOR_CONF_IS_STD_DOVI"@,
            PGenGetConfCommand::GetDoviMapMode => "GET_PGENERATOR_CONF_DV_MAP_MODE"@,
            PGenGetConfCommand::GetHdrEotf => "GET_PGENERATOR_CONF_EOTF"@,
            PGenGetConfCommand::GetHdrPrimaries => "GET_PGENERATOR_CONF_PRIMARIES"@,
            PGenGetConfCommand::GetHdrMaxMdl => "GET_PGENERATOR_CONF_MAX_LUMA"@,
            PGenGetConfCommand::GetHdrMinMdl => "GET_PGENERATOR_CONF_MIN_LUMA"@,
            PGenGetConfCommand::GetHdrMaxCLL => "GET_PGENERATOR_CONF_MAX_CLL"@,
            PGenGetConfCommand::GetHdrMaxFALL => "GET_PGENERATOR_CONF_MAX_FALL"@,
            PGenGetConfCommand::GetOutputRange => "GET_OUTPUT_RANGE"@,
        }
    }

    /// The bytes of the command's word.
    pub open spec fn name_bytes(self) -> Seq<u8> {
        encode_utf8(self.name())
    }

    /// The word that the generator knows the command by.
    pub fn as_ref(&self) -> (r: &'static str)
        ensures
            r@ == self.name(),
    {
        match self {
            PGenGetConfCommand::GetPGeneratorVersion => "GET_PGENERATOR_VERSION",
            PGenGetConfCommand::GetPGeneratorPid => "GET_PGENERATOR_IS_EXECUTED",
            PGenGetConfCommand::GetCurrentMode => "GET_MODE",
            PGenGetConfCommand::GetModesAvailable => "GET_MODES_AVAILABLE",
            PGenGetConfCommand::GetColorFormat => "GET_PGENERATOR_CONF_COLOR_FORMAT",
            PGenGetConfCommand::GetBitDepth => "GET_PGENERATOR_CONF_MAX_BPC",
            PGenGetConfCommand::GetQuantRange => "GET_PGENERATOR_CONF_RGB_QUANT_RANGE",
            PGenGetConfCommand::GetColorimetry => "GET_PGENERATOR_CONF_COLORIMETRY",
            PGenGetConfCommand::GetOutputIsSDR => "GET_PGENERATOR_CONF_IS_SDR",
            PGenGetConfCommand::GetOutputIsHDR => "GET_PGENERATOR_CONF_IS_HDR",
            PGenGetConfCommand::GetOutputIsLLDV => "GET_PGENERATOR_CONF_IS_LL_DOVI",
            PGenGetConfCommand::GetOutputIsStdDovi => "GET_PGENERATOR_CONF_IS_STD_DOVI",
            PGenGetConfCommand::GetDoviMapMode => "GET_PGENERATOR_CONF_DV_MAP_MODE",
            PGenGetConfCommand::GetHdrEotf => "GET_PGENERATOR_CONF_EOTF",
            PGenGetConfCommand::GetHdrPrimaries => "GET_PGENERATOR_CONF_PRIMARIES",
            PGenGetConfCommand::GetHdrMaxMdl => "GET_PGENERATOR_CONF_MAX_LUMA",
            PGenGetConfCommand::GetHdrMinMdl => "GET_PGENERATOR_CONF_MIN_LUMA",
            PGenGetConfCommand::GetHdrMaxCLL => "GET_PGENERATOR_CONF_MAX_CLL",
            PGenGetConfCommand::GetHdrMaxFALL => "GET_PGENERATOR_CONF_MAX_FALL",
            PGenGetConfCommand::GetOutputRange => "GET_OUTPUT_RANGE",
        }
    }

    /// The commands that are sent after connecting, in their order.
    pub open spec fn base_info() -> Seq<PGenGetConfCommand> {
        seq![
            PGenGetConfCommand::GetPGeneratorVersion,
            PGenGetConfCommand::GetPGeneratorPid,
            PGenGetConfCommand::GetModesAvailable,
            PGenGetConfCommand::GetCurrentMode,
            PGenGetConfCommand::GetColorFormat,
            PGenGetConfCommand::GetBitDepth,
            PGenGetConfCommand::GetQuantRange,
            PGenGetConfCommand::GetColorimetry,
            PGenGetConfCommand::GetOutputIsSDR,
            PGenGetConfCommand::GetOutputIsHDR,
            PGenGetConfCommand::GetOutputIsLLDV,
            PGenGetConfCommand::GetOutputIsStdDovi,
            PGenGetConfCommand::GetDoviMapMode,
            PGenGetConfCommand::GetHdrEotf,
            PGenGetConfCommand::GetHdrPrimaries,
            PGenGetConfCommand::GetHdrMaxMdl,
            PGenGetConfCommand::GetHdrMinMdl,
            PGenGetConfCommand::GetHdrMaxCLL,
            PGenGetConfCommand::GetHdrMaxFALL,
        ]
    }

    /// The commands that are sent after connecting, in their order.
    pub fn base_info_commands() -> (r: Vec<PGenGetConfCommand>)
        ensures
            r@ == Self::base_info(),
    {
        vec![
            PGenGetConfCommand::GetPGeneratorVersion,
            PGenGetConfCommand::GetPGeneratorPid,
            PGenGetConfCommand::GetModesAvailable,
            PGenGetConfCommand::GetCurrentMode,
            PGenGetConfCommand::GetColorFormat,
            PGenGetConfCommand::GetBitDepth,
            PGenGetConfCommand::GetQuantRange,
            PGenGetConfCommand::GetColorimetry,
            PGenGetConfCommand::GetOutputIsSDR,
            PGenGetConfCommand::GetOutputIsHDR,
            PGenGetConfCommand::GetOutputIsLLDV,
            PGenGetConfCommand::GetOutputIsStdDovi,
            PGenGetConfCommand::GetDoviMapMode,
            PGenGetConfCommand::GetHdrEotf,
            PGenGetConfCommand::GetHdrPrimaries,
            PGenGetConfCommand::GetHdrMaxMdl,
            PGenGetConfCommand::GetHdrMinMdl,
            PGenGetConfCommand::GetHdrMaxCLL,
            PGenGetConfCommand::GetHdrMaxFALL,
        ]
    }

    /// Where the value begins in an answer: one byte behind the first
    /// occurrence of the command's word, which has to be a place where the
    /// answer can be cut.
    pub open spec fn value_offset(self, res: Seq<u8>) -> Option<int> {
        match first_occurrence(res, self.name_bytes()) {
            Some(at) => Some(at + self.name_bytes().len() + 1),
            None => None,
        }
    }

    /// Whether the answer can be split: it does not hold the command's word,
    /// or it can be cut one byte behind it.
    pub open spec fn splits(self, res: Seq<u8>) -> bool {
        match self.value_offset(res) {
            Some(mid) => mid <= res.len() && is_char_boundary(res, mid),
            None => true,
        }
    }

    /// The value in an answer: what follows the command's word and the one
    /// byte behind it.
    pub open spec fn value_of(self, res: Seq<u8>) -> Option<Seq<u8>> {
        match self.value_offset(res) {
            Some(mid) => Some(res.subrange(mid, res.len() as int)),
            None => None,
        }
    }

    /// Whether the answer can be split.
    pub fn can_split(&self, res: &str) -> (r: bool)
        ensures
            r == self.splits(res.spec_bytes()),
    {
        let name = self.as_ref().as_bytes();
        let bytes = res.as_bytes();
        match find(bytes, name) {
            Some(at) => {
                assert(at + name.len() <= bytes.len());
                let end = at + name.len();
                end < bytes.len() && res.is_char_boundary(end + 1)
            },
            None => true,
        }
    }

    /// The value in an answer to this command, if the answer holds the command's word.
    pub fn split_command_result<'a>(&self, res: &'a str) -> (r: Option<&'a str>)
        requires
            self.splits(res.spec_bytes()),
        ensures
            match r {
                Some(value) => self.value_of(res.spec_bytes()) == Some(value.spec_bytes()),
                None => self.value_of(res.spec_bytes()).is_none(),
            },
    {
        let name = self.as_ref().as_bytes();
        let bytes = res.as_bytes();
        match find(bytes, name) {
            Some(at) => {
                assert(at + name.len() + 1 <= bytes.len());
                let (_, value) = res.split_at(at + name.len() + 1);
                Some(value)
            },
            None => None,
        }
    }

    /// Whether the output range in an answer is limited: the last word of
    /// the value is not `full`.
    pub open spec fn output_range_of(res: Seq<u8>) -> Option<bool> {
        match PGenGetConfCommand::GetOutputRange.value_of(res) {
            Some(value) => match last_token(value) {
                Some(word) => Some(word != "full".spec_bytes()),
                None => None,
            },
            None => None,
        }
    }

    /// Whether the output range that the generator reports is the limited one.
    pub fn parse_get_output_range(res: String) -> (r: Option<bool>)
        requires
            PGenGetConfCommand::GetOutputRange.splits(encode_utf8(res@)),
        ensures
            r == Self::output_range_of(encode_utf8(res@)),
    {
        match PGenGetConfCommand::GetOutputRange.split_command_result(res.as_str()) {
            Some(value) => match last_word(value.as_bytes()) {
                Some(word) => Some(!same_bytes(word, "full".as_bytes())),
                None => None,
            },
            None => None,
        }
    }

    /// Whether the value in an answer is `1`.
    pub open spec fn bool_of(self, res: Seq<u8>) -> bool {
        self.value_of(res) == Some("1".spec_bytes())
    }

    /// Whether the generator reports the setting as switched on.
    pub fn parse_bool_config(&self, res: String) -> (r: bool)
        requires
            self.splits(encode_utf8(res@)),
        ensures
            r == self.bool_of(encode_utf8(res@)),
    {
        match self.split_command_result(res.as_str()) {
            Some(value) => same_bytes(value.as_bytes(), "1".as_bytes()),
            None => false,
        }
    }

    /// The number that the value in an answer writes.
    pub open spec fn number_of(self, res: Seq<u8>, max: u64) -> Option<u64> {
        match self.value_of(res) {
            Some(value) => unsigned_decimal_up_to(value, max),
            None => None,
        }
    }

    /// The number that the generator reports, if it is a number not above `max`.
    pub fn parse_number_config(&self, res: String, max: u64) -> (r: Option<u64>)
        requires
            self.splits(encode_utf8(res@)),
        ensures
            r == self.number_of(encode_utf8(res@), max),
    {
        match self.split_command_result(res.as_str()) {
            Some(value) => parse_unsigned(value.as_bytes(), max),
            None => None,
        }
    }

    /// The value in an answer, or `Unknown` where the answer does not hold the command's word.
    pub open spec fn string_of(self, res: Seq<u8>) -> Seq<u8> {
        match self.value_of(res) {
            Some(value) => value,
            None => "Unknown".spec_bytes(),
        }
    }

    /// The text that the generator reports.
    pub fn parse_string_config<'a>(&self, res: &'a str) -> (r: &'a str)
        requires
            self.splits(res.spec_bytes()),
        ensures
            r.spec_bytes() == self.string_of(res.spec_bytes()),
    {
        match self.split_command_result(res) {
            Some(value) => value,
            None => "Unknown",
        }
    }
}

/// A command that changes one of the generator's settings.
#[derive(Debug, Clone, Copy, PartialEq, Eq)]
pub enum PGenSetConfCommand {
    SetDisplayMode(DisplayMode),
    SetColorFormat(ColorFormat),
    SetBitDepth(BitDepth),
    SetQuantRange(QuantRange),
    SetColorimetry(Colorimetry),
    SetOutputIsSDR(bool),
    SetOutputIsHDR(bool),
    SetOutputIsLLDV(bool),
    SetOutputIsStdDovi(bool),
    SetDoviStatus(bool),
    SetDoviInterface(bool),
    SetDoviMapMode(DoviMapMode),
    SetHdrEotf(HdrEotf),
    SetHdrPrimaries(Primaries),
    SetHdrMaxMdl(u16),
    SetHdrMinMdl(u16),
    SetHdrMaxCLL(u16),
    SetHdrMaxFALL(u16),
}

impl PGenSetConfCommand {
    /// The word that the generator knows the command by.
    pub open spec fn name(self) -> Seq<char> {
        match self {
            PGenSetConfCommand::SetDisplayMode(_) => "SET_MODE"@,
            PGenSetConfCommand::SetColorFormat(_) => "SET_PGENERATOR_CONF_COLOR_FORMAT"@,
            PGenSetConfCommand::SetBitDepth(_) => "SET_PGENERATOR_CONF_MAX_BPC"@,
            PGenSetConfCommand::SetQuantRange(_) => "SET_PGENERATOR_CONF_RGB_QUANT_RANGE"@,
            PGenSetConfCommand::SetColorimetry(_) => "SET_PGENERATOR_CONF_COLORIMETRY"@,
            PGenSetConfCommand::SetOutputIsSDR(_) => "SET_PGENERATOR_CONF_IS_SDR"@,
            PGenSetConfCommand::SetOutputIsHDR(_) => "SET_PGENERATOR_CONF_IS_HDR"@,
            PGenSetConfCommand::SetOutputIsLLDV(_) => "SET_PGENERATOR_CONF_IS_LL_DOVI"@,
            PGenSetConfCommand::SetOutputIsStdDovi(_) => "SET_PGENERATOR_CONF_IS_STD_DOVI"@,
            PGenSetConfCommand::SetDoviStatus(_) => "SET_PGENERATOR_CONF_DV_STATUS"@,
            PGenSetConfCommand::SetDoviInterface(_) => "SET_PGENERATOR_CONF_DV_INTERFACE"@,
            PGenSetConfCommand::SetDoviMapMode(_) => "SET_PGENERATOR_CONF_DV_MAP_MODE"@,
            PGenSetConfCommand::SetHdrEotf(_) => "SET_PGENERATOR_CONF_EOTF"@,
            PGenSetConfCommand::SetHdrPrimaries(_) => "SET_PGENERATOR_CONF_PRIMARIES"@,
            PGenSetConfCommand::SetHdrMaxMdl(_) => "SET_PGENERATOR_CONF_MAX_LUMA"@,
            PGenSetConfCommand::SetHdrMinMdl(_) => "SET_PGENERATOR_CONF_MIN_LUMA"@,
            PGenSetConfCommand::SetHdrMaxCLL(_) => "SET_PGENERATOR_CONF_MAX_CLL"@,
            PGenSetConfCommand::SetHdrMaxFALL(_) => "SET_PGENERATOR_CONF_MAX_FALL"@,
        }
    }

    /// The number that the command sets.
    pub open spec fn number(self) -> int {
        match self {
            PGenSetConfCommand::SetDisplayMode(mode) => mode.id as int,
            PGenSetConfCommand::SetColorFormat(v) => v.repr(),
            PGenSetConfCommand::SetBitDepth(v) => v.repr(),
            PGenSetConfCommand::SetQuantRange(v) => v.repr(),
            PGenSetConfCommand::SetColorimetry(v) => v.repr(),
            PGenSetConfCommand::SetOutputIsSDR(v) => if v {
                1
            } else {
                0
            },
            PGenSetConfCommand::SetOutputIsHDR(v) => if v {
                1
            } else {
                0
            },
            PGenSetConfCommand::SetOutputIsLLDV(v) => if v {
                1
            } else {
                0
            },
            PGenSetConfCommand::SetOutputIsStdDovi(v) => if v {
                1
            } else {
                0
            },
            PGenSetConfCommand::SetDoviStatus(v) => if v {
                1
            } else {
                0
            },
            PGenSetConfCommand::SetDoviInterface(v) => if v {
                1
            } else {
                0
            },
            PGenSetConfCommand::SetDoviMapMode(v) => v.repr(),
            PGenSetConfCommand::SetHdrEotf(v) => v.repr(),
            PGenSetConfCommand::SetHdrPrimaries(v) => v.repr(),
            PGenSetConfCommand::SetHdrMaxMdl(v) => v as int,
            PGenSetConfCommand::SetHdrMinMdl(v) => v as int,
            PGenSetConfCommand::SetHdrMaxCLL(v) => v as int,
            PGenSetConfCommand::SetHdrMaxFALL(v) => v as int,
        }
    }

    /// The word that the generator knows the command by.
    pub fn as_ref(&self) -> (r: &'static str)
        ensures
            r@ == self.name(),
    {
        match self {
            PGenSetConfCommand::SetDisplayMode(_) => "SET_MODE",
            PGenSetConfCommand::SetColorFormat(_) => "SET_PGENERATOR_CONF_COLOR_FORMAT",
            PGenSetConfCommand::SetBitDepth(_) => "SET_PGENERATOR_CONF_MAX_BPC",
            PGenSetConfCommand::SetQuantRange(_) => "SET_PGENERATOR_CONF_RGB_QUANT_RANGE",
            PGenSetConfCommand::SetColorimetry(_) => "SET_PGENERATOR_CONF_COLORIMETRY",
            PGenSetConfCommand::SetOutputIsSDR(_) => "SET_PGENERATOR_CONF_IS_SDR",
            PGenSetConfCommand::SetOutputIsHDR(_) => "SET_PGENERATOR_CONF_IS_HDR",
            PGenSetConfCommand::SetOutputIsLLDV(_) => "SET_PGENERATOR_CONF_IS_LL_DOVI",
            PGenSetConfCommand::SetOutputIsStdDovi(_) => "SET_PGENERATOR_CONF_IS_STD_DOVI",
            PGenSetConfCommand::SetDoviStatus(_) => "SET_PGENERATOR_CONF_DV_STATUS",
            PGenSetConfCommand::SetDoviInterface(_) => "SET_PGENERATOR_CONF_DV_INTERFACE",
            PGenSetConfCommand::SetDoviMapMode(_) => "SET_PGENERATOR_CONF_DV_MAP_MODE",
            PGenSetConfCommand::SetHdrEotf(_) => "SET_PGENERATOR_CONF_EOTF",
            PGenSetConfCommand::SetHdrPrimaries(_) => "SET_PGENERATOR_CONF_PRIMARIES",
            PGenSetConfCommand::SetHdrMaxMdl(_) => "SET_PGENERATOR_CONF_MAX_LUMA",
            PGenSetConfCommand::SetHdrMinMdl(_) => "SET_PGENERATOR_CONF_MIN_LUMA",
            PGenSetConfCommand::SetHdrMaxCLL(_) => "SET_PGENERATOR_CONF_MAX_CLL",
            PGenSetConfCommand::SetHdrMaxFALL(_) => "SET_PGENERATOR_CONF_MAX_FALL",
        }
    }

    /// The number that the command sets.
    pub fn value(self) -> (r: usize)
        ensures
            r == self.number(),
    {
        match self {
            PGenSetConfCommand::SetDisplayMode(mode) => mode.id,
            PGenSetConfCommand::SetColorFormat(v) => v.value(),
            PGenSetConfCommand::SetBitDepth(v) => v.value(),
            PGenSetConfCommand::SetQuantRange(v) => v.value(),
            PGenSetConfCommand::SetColorimetry(v) => v.value(),
            PGenSetConfCommand::SetOutputIsSDR(v) => if v {
                1
            } else {
                0
            },
            PGenSetConfCommand::SetOutputIsHDR(v) => if v {
                1
            } else {
                0
            },
            PGenSetConfCommand::SetOutputIsLLDV(v) => if v {
                1
            } else {
                0
            },
            PGenSetConfCommand::SetOutputIsStdDovi(v) => if v {
                1
            } else {
                0
            },
            PGenSetConfCommand::SetDoviStatus(v) => if v {
                1
            } else {
                0
            },
            PGenSetConfCommand::SetDoviInterface(v) => if v {
                1
            } else {
                0
            },
            PGenSetConfCommand::SetDoviMapMode(v) => v.value(),
            PGenSetConfCommand::SetHdrEotf(v) => v.value(),
            PGenSetConfCommand::SetHdrPrimaries(v) => v.value(),
            PGenSetConfCommand::SetHdrMaxMdl(v) => v as usize,
            PGenSetConfCommand::SetHdrMinMdl(v) => v as usize,
            PGenSetConfCommand::SetHdrMaxCLL(v) => v as usize,
            PGenSetConfCommand::SetHdrMaxFALL(v) => v as usize,
        }
    }

    /// The commands that switch the output to a dynamic range.
    pub open spec fn base_config(dynamic_range: DynamicRange) -> Seq<PGenSetConfCommand> {
        let is_sdr = dynamic_range == DynamicRange::Sdr;
        let is_hdr = dynamic_range == DynamicRange::Hdr;
        let is_dovi = dynamic_range == DynamicRange::Dovi;
        seq![
            PGenSetConfCommand::SetOutputIsSDR(is_sdr),
            PGenSetConfCommand::SetOutputIsHDR(is_hdr || is_dovi),
            PGenSetConfCommand::SetOutputIsLLDV(is_dovi),
            PGenSetConfCommand::SetOutputIsStdDovi(is_dovi),
            PGenSetConfCommand::SetDoviStatus(is_dovi),
            PGenSetConfCommand::SetDoviInterface(is_dovi),
        ]
    }

    /// The settings that go with a dynamic range.
    pub open spec fn default_config(dynamic_range: DynamicRange) -> Seq<PGenSetConfCommand> {
        match dynamic_range {
            DynamicRange::Sdr => seq![PGenSetConfCommand::SetColorimetry(Colorimetry::Bt709Ycc)],
            DynamicRange::Hdr => seq![
                PGenSetConfCommand::SetColorimetry(Colorimetry::Bt2020Rgb),
                PGenSetConfCommand::SetBitDepth(BitDepth::Ten),
                PGenSetConfCommand::SetHdrPrimaries(Primaries::DisplayP3),
            ],
            DynamicRange::Dovi => seq![
                PGenSetConfCommand::SetColorFormat(ColorFormat::Rgb),
                PGenSetConfCommand::SetQuantRange(QuantRange::Full),
                PGenSetConfCommand::SetBitDepth(BitDepth::Eight),
                PGenSetConfCommand::SetColorimetry(Colorimetry::Bt709Ycc),
                PGenSetConfCommand::SetDoviMapMode(DoviMapMode::Absolute),
                PGenSetConfCommand::SetHdrPrimaries(Primaries::Rec2020),
            ],
        }
    }

    fn base_config_for_dynamic_range(dynamic_range: DynamicRange) -> (r: Vec<PGenSetConfCommand>)
        ensures
            r@ == Self::base_config(dynamic_range),
    {
        let is_sdr = dynamic_range == DynamicRange::Sdr;
        let is_hdr = dynamic_range == DynamicRange::Hdr;
        let is_dovi = dynamic_range == DynamicRange::Dovi;
        vec![
            PGenSetConfCommand::SetOutputIsSDR(is_sdr),
            PGenSetConfCommand::SetOutputIsHDR(is_hdr || is_dovi),
            PGenSetConfCommand::SetOutputIsLLDV(is_dovi),
            PGenSetConfCommand::SetOutputIsStdDovi(is_dovi),
            PGenSetConfCommand::SetDoviStatus(is_dovi),
            PGenSetConfCommand::SetDoviInterface(is_dovi),
        ]
    }

    fn default_sdr_config() -> (r: Vec<PGenSetConfCommand>)
        ensures
            r@ == Self::default_config(DynamicRange::Sdr),
    {
        vec![PGenSetConfCommand::SetColorimetry(Colorimetry::Bt709Ycc)]
    }

    fn default_hdr_config() -> (r: Vec<PGenSetConfCommand>)
        ensures
            r@ == Self::default_config(DynamicRange::Hdr),
    {
        vec![
            PGenSetConfCommand::SetColorimetry(Colorimetry::Bt2020Rgb),
            PGenSetConfCommand::SetBitDepth(BitDepth::Ten),
            PGenSetConfCommand::SetHdrPrimaries(Primaries::DisplayP3),
        ]
    }

    fn dovi_config() -> (r: Vec<PGenSetConfCommand>)
        ensures
            r@ == Self::default_config(DynamicRange::Dovi),
    {
        vec![
            PGenSetConfCommand::SetColorFormat(ColorFormat::Rgb),
            PGenSetConfCommand::SetQuantRange(QuantRange::Full),
            PGenSetConfCommand::SetBitDepth(BitDepth::Eight),
            PGenSetConfCommand::SetColorimetry(Colorimetry::Bt709Ycc),
            PGenSetConfCommand::SetDoviMapMode(DoviMapMode::Absolute),
            PGenSetConfCommand::SetHdrPrimaries(Primaries::Rec2020),
        ]
    }

    /// The commands that switch the output to a dynamic range and set what goes with it.
    pub fn commands_for_dynamic_range(dynamic_range: DynamicRange) -> (r: Vec<PGenSetConfCommand>)
        ensures
            r@ == Self::base_config(dynamic_range) + Self::default_config(dynamic_range),
    {
        let mut commands = Self::base_config_for_dynamic_range(dynamic_range);
        let mut defaults = match dynamic_range {
            DynamicRange::Sdr => Self::default_sdr_config(),
            DynamicRange::Hdr => Self::default_hdr_config(),
            DynamicRange::Dovi => Self::dovi_config(),
        };
        commands.append(&mut defaults);
        commands
    }
}

} // verus!
