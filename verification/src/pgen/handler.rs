//! How the controller takes in the generator's answers.

use vstd::prelude::*;
use vstd::utf8::{decode_utf8, encode_utf8, encode_utf8_decode_utf8};
use crate::pgen::client::ConnectState;
use crate::pgen::commands::{PGenGetConfCommand, PGenSetConfCommand};
use crate::pgen::controller::{default_info, display_mode_of, display_modes_from_answer,
    modes_of_answer, DisplayMode, PGenControllerState, PGenInfo, PGenInfoView, PGenOutputConfig};
use crate::pgen::pattern_config::PGenPatternConfig;
use crate::utils::{rescaled, scale_pattern_config_rgb_values};
use crate::pgen::{BitDepth, ColorFormat, Colorimetry, DoviMapMode, DynamicRange, HdrEotf,
    HdrMetadata, Primaries, QuantRange};

verus! {

/// What the generator answered to a command, or why it could not be asked.
#[derive(Debug, Clone, PartialEq, Eq)]
pub enum PGenCommandResponse {
    NotConnected,
    Busy,
    /// The command went out; the flag tells whether an answer came back.
    Okay(bool),
    Errored(String),
    Alive(bool),
    Connect(ConnectState),
    Quit(ConnectState),
    Shutdown(ConnectState),
    Reboot(ConnectState),
    MultipleGetConfRes(Vec<(PGenGetConfCommand, String)>),
    /// With each command, whether the generator took the setting.
    MultipleSetConfRes(Vec<(PGenSetConfCommand, bool)>),
}

/// The controller of the generator.
#[derive(Debug, Clone, PartialEq, Eq)]
pub struct PGenController {
    pub state: PGenControllerState,
}

/// The number in an answer, taken as the number of a setting.
pub open spec fn setting_number(cmd: PGenGetConfCommand, res: Seq<u8>) -> Option<int> {
    match cmd.number_of(res, usize::MAX as u64) {
        Some(n) => Some(n as int),
        None => None,
    }
}

/// The output settings after an answer of the generator has been taken in.
pub open spec fn output_config_after(
    cfg: PGenOutputConfig,
    cmd: PGenGetConfCommand,
    res: Seq<u8>,
) -> PGenOutputConfig {
    let number = setting_number(cmd, res);
    let small = cmd.number_of(res, 65535);
    let hdr = cfg.hdr_meta;
    match cmd {
        PGenGetConfCommand::GetColorFormat => match number {
            Some(n) => match ColorFormat::of_repr(n) {
                Some(format) => PGenOutputConfig { format, ..cfg },
                None => cfg,
            },
            None => cfg,
        },
        PGenGetConfCommand::GetBitDepth => match number {
            Some(n) => match BitDepth::of_repr(n) {
                Some(bit_depth) => PGenOutputConfig { bit_depth, ..cfg },
                None => cfg,
            },
            None => cfg,
        },
        PGenGetConfCommand::GetQuantRange => match number {
            Some(n) => match QuantRange::of_repr(n) {
                Some(quant_range) => PGenOutputConfig { quant_range, ..cfg },
                None => cfg,
            },
            None => cfg,
        },
        PGenGetConfCommand::GetColorimetry => match number {
            Some(n) => match Colorimetry::of_repr(n) {
                Some(colorimetry) => PGenOutputConfig { colorimetry, ..cfg },
                None => cfg,
            },
            None => cfg,
        },
        PGenGetConfCommand::GetDoviMapMode => match number {
            Some(n) => match DoviMapMode::of_repr(n) {
                Some(dovi_map_mode) => PGenOutputConfig { dovi_map_mode, ..cfg },
                None => cfg,
            },
            None => cfg,
        },
        PGenGetConfCommand::GetOutputRange => match PGenGetConfCommand::output_range_of(res) {
            Some(limited) => PGenOutputConfig {
                quant_range: if limited {
                    QuantRange::Limited
                } else {
                    QuantRange::Full
                },
                ..cfg
            },
            None => cfg,
        },
        PGenGetConfCommand::GetOutputIsSDR => if cmd.bool_of(res) {
            PGenOutputConfig { dynamic_range: DynamicRange::Sdr, ..cfg }
        } else {
            cfg
        },
        PGenGetConfCommand::GetOutputIsHDR => if cmd.bool_of(res) {
            PGenOutputConfig { dynamic_range: DynamicRange::Hdr, ..cfg }
        } else {
            cfg
        },
        PGenGetConfCommand::GetOutputIsLLDV | PGenGetConfCommand::GetOutputIsStdDovi => if cmd.bool_of(
            res,
        ) {
            PGenOutputConfig { dynamic_range: DynamicRange::Dovi, ..cfg }
        } else {
            cfg
        },
        PGenGetConfCommand::GetHdrEotf => match number {
            Some(n) => match HdrEotf::of_repr(n) {
                Some(eotf) => PGenOutputConfig { hdr_meta: HdrMetadata { eotf, ..hdr }, ..cfg },
                None => cfg,
            },
            None => cfg,
        },
        PGenGetConfCommand::GetHdrPrimaries => match number {
            Some(n) => match Primaries::of_repr(n) {
                Some(primaries) => PGenOutputConfig {
                    hdr_meta: HdrMetadata { primaries, ..hdr },
                    ..cfg
                },
                None => cfg,
            },
            None => cfg,
        },
        PGenGetConfCommand::GetHdrMaxMdl => match small {
            Some(v) => PGenOutputConfig { hdr_meta: HdrMetadata { max_mdl: v as u16, ..hdr }, ..cfg },
            None => cfg,
        },
        PGenGetConfCommand::GetHdrMinMdl => match small {
            Some(v) => PGenOutputConfig { hdr_meta: HdrMetadata { min_mdl: v as u16, ..hdr }, ..cfg },
            None => cfg,
        },
        PGenGetConfCommand::GetHdrMaxCLL => match small {
            Some(v) => PGenOutputConfig { hdr_meta: HdrMetadata { maxcll: v as u16, ..hdr }, ..cfg },
            None => cfg,
        },
        PGenGetConfCommand::GetHdrMaxFALL => match small {
            Some(v) => PGenOutputConfig { hdr_meta: HdrMetadata { maxfall: v as u16, ..hdr }, ..cfg },
            None => cfg,
        },
        _ => cfg,
    }
}

/// What is known of the generator after one of its answers has been taken
/// in; with it, whether the pattern is of limited range, and whether the
/// display mode was told.
pub open spec fn get_answer_applied(
    info: PGenInfoView,
    limited_range: bool,
    cmd: PGenGetConfCommand,
    res: Seq<u8>,
) -> (PGenInfoView, bool, bool) {
    let output_config = output_config_after(info.output_config, cmd, res);
    match cmd {
        PGenGetConfCommand::GetPGeneratorVersion => (
            PGenInfoView { version: decode_utf8(cmd.string_of(res)), ..info },
            limited_range,
            false,
        ),
        PGenGetConfCommand::GetPGeneratorPid => (
            PGenInfoView { pid: decode_utf8(cmd.string_of(res)), ..info },
            limited_range,
            false,
        ),
        PGenGetConfCommand::GetCurrentMode => match display_mode_of(cmd.string_of(res)) {
            Ok(mode) => (PGenInfoView { current_display_mode: mode, ..info }, limited_range, true),
            Err(_) => (info, limited_range, false),
        },
        PGenGetConfCommand::GetModesAvailable => match modes_of_answer(cmd.string_of(res)) {
            Some(display_modes) => (PGenInfoView { display_modes, ..info }, limited_range, false),
            None => (info, limited_range, false),
        },
        PGenGetConfCommand::GetQuantRange => (
            PGenInfoView { output_config, ..info },
            match setting_number(cmd, res) {
                Some(n) => match QuantRange::of_repr(n) {
                    Some(quant_range) => quant_range == QuantRange::Limited,
                    None => limited_range,
                },
                None => limited_range,
            },
            false,
        ),
        _ => (PGenInfoView { output_config, ..info }, limited_range, false),
    }
}

/// The same after a row of answers, taken in one after the other; the
/// last flag tells whether any of them told the display mode.
pub open spec fn get_answers_applied(
    info: PGenInfoView,
    limited_range: bool,
    answers: Seq<(PGenGetConfCommand, String)>,
) -> (PGenInfoView, bool, bool)
    decreases answers.len(),
{
    if answers.len() == 0 {
        (info, limited_range, false)
    } else {
        let (before, limited, changed) = get_answers_applied(
            info,
            limited_range,
            answers.drop_last(),
        );
        let (after, limited2, changed2) = get_answer_applied(
            before,
            limited,
            answers.last().0,
            encode_utf8(answers.last().1@),
        );
        (after, limited2, changed || changed2)
    }
}

/// Whether every answer of a row can be split at its command's word.
pub open spec fn answers_split(answers: Seq<(PGenGetConfCommand, String)>) -> bool {
    forall|i: int|
        0 <= i < answers.len() ==> (#[trigger] answers[i]).0.splits(encode_utf8(answers[i].1@))
}

fn number_setting(cmd: PGenGetConfCommand, res: String) -> (r: Option<usize>)
    requires
        cmd.splits(encode_utf8(res@)),
    ensures
        match r {
            Some(n) => setting_number(cmd, encode_utf8(res@)) == Some(n as int),
            None => setting_number(cmd, encode_utf8(res@)).is_none(),
        },
{
    match cmd.parse_number_config(res, usize::MAX as u64) {
        Some(n) => Some(n as usize),
        None => None,
    }
}

fn small_number(cmd: PGenGetConfCommand, res: String) -> (r: Option<u16>)
    requires
        cmd.splits(encode_utf8(res@)),
    ensures
        match r {
            Some(n) => cmd.number_of(encode_utf8(res@), 65535) == Some(n as u64),
            None => cmd.number_of(encode_utf8(res@), 65535).is_none(),
        },
{
    match cmd.parse_number_config(res, 65535) {
        Some(n) => Some(n as u16),
        None => None,
    }
}

/// Takes one answer of the generator in.
fn apply_get_answer(
    info: &mut PGenInfo,
    limited_range: &mut bool,
    cmd: PGenGetConfCommand,
    res: String,
) -> (changed: bool)
    requires
        cmd.splits(encode_utf8(res@)),
    ensures
        (final(info)@, *final(limited_range), changed) == get_answer_applied(
            old(info)@,
            *old(limited_range),
            cmd,
            encode_utf8(res@),
        ),
{
    let ghost bytes = encode_utf8(res@);
    match cmd {
        PGenGetConfCommand::GetPGeneratorVersion => {
            let value = cmd.parse_string_config(res.as_str());
            proof {
                encode_utf8_decode_utf8(value@);
            }
            info.version = value.to_owned();
            false
        },
        PGenGetConfCommand::GetPGeneratorPid => {
            let value = cmd.parse_string_config(res.as_str());
            proof {
                encode_utf8_decode_utf8(value@);
            }
            info.pid = value.to_owned();
            false
        },
        PGenGetConfCommand::GetCurrentMode => {
            match DisplayMode::try_from_str(cmd.parse_string_config(res.as_str())) {
                Ok(mode) => {
                    info.current_display_mode = mode;
                    true
                },
                Err(_) => false,
            }
        },
        PGenGetConfCommand::GetModesAvailable => {
            match display_modes_from_answer(cmd.parse_string_config(res.as_str()).as_bytes()) {
                Some(modes) => {
                    info.display_modes = modes;
                },
                None => {},
            }
            false
        },
        PGenGetConfCommand::GetColorFormat => {
            match number_setting(cmd, res) {
                Some(n) => match ColorFormat::from_repr(n) {
                    Some(format) => {
                        info.output_config.format = format;
                    },
                    None => {},
                },
                None => {},
            }
            false
        },
        PGenGetConfCommand::GetBitDepth => {
            match number_setting(cmd, res) {
                Some(n) => match BitDepth::from_repr(n) {
                    Some(bit_depth) => {
                        info.output_config.bit_depth = bit_depth;
                    },
                    None => {},
                },
                None => {},
            }
            false
        },
        PGenGetConfCommand::GetQuantRange => {
            match number_setting(cmd, res) {
                Some(n) => match QuantRange::from_repr(n) {
                    Some(quant_range) => {
                        info.output_config.quant_range = quant_range;
                        *limited_range = quant_range == QuantRange::Limited;
                    },
                    None => {},
                },
                None => {},
            }
            false
        },
        PGenGetConfCommand::GetColorimetry => {
            match number_setting(cmd, res) {
                Some(n) => match Colorimetry::from_repr(n) {
                    Some(colorimetry) => {
                        info.output_config.colorimetry = colorimetry;
                    },
                    None => {},
                },
                None => {},
            }
            false
        },
        PGenGetConfCommand::GetDoviMapMode => {
            match number_setting(cmd, res) {
                Some(n) => match DoviMapMode::from_repr(n) {
                    Some(dovi_map_mode) => {
                        info.output_config.dovi_map_mode = dovi_map_mode;
                    },
                    None => {},
                },
                None => {},
            }
            false
        },
        PGenGetConfCommand::GetOutputRange => {
            match PGenGetConfCommand::parse_get_output_range(res) {
                Some(limited) => {
                    info.output_config.quant_range = QuantRange::from(limited);
                },
                None => {},
            }
            false
        },
        PGenGetConfCommand::GetOutputIsSDR => {
            if cmd.parse_bool_config(res) {
                info.output_config.dynamic_range = DynamicRange::Sdr;
            }
            false
        },
        PGenGetConfCommand::GetOutputIsHDR => {
            if cmd.parse_bool_config(res) {
                info.output_config.dynamic_range = DynamicRange::Hdr;
            }
            false
        },
        PGenGetConfCommand::GetOutputIsLLDV => {
            if cmd.parse_bool_config(res) {
                info.output_config.dynamic_range = DynamicRange::Dovi;
            }
            false
        },
        PGenGetConfCommand::GetOutputIsStdDovi => {
            if cmd.parse_bool_config(res) {
                info.output_config.dynamic_range = DynamicRange::Dovi;
            }
            false
        },
        PGenGetConfCommand::GetHdrEotf => {
            match number_setting(cmd, res) {
                Some(n) => match HdrEotf::from_repr(n) {
                    Some(eotf) => {
                        info.output_config.hdr_meta.eotf = eotf;
                    },
                    None => {},
                },
                None => {},
            }
            false
        },
        PGenGetConfCommand::GetHdrPrimaries => {
            match number_setting(cmd, res) {
                Some(n) => match Primaries::from_repr(n) {
                    Some(primaries) => {
                        info.output_config.hdr_meta.primaries = primaries;
                    },
                    None => {},
                },
                None => {},
            }
            false
        },
        PGenGetConfCommand::GetHdrMaxMdl => {
            match small_number(cmd, res) {
                Some(v) => {
                    info.output_config.hdr_meta.max_mdl = v;
                },
                None => {},
            }
            false
        },
        PGenGetConfCommand::GetHdrMinMdl => {
            match small_number(cmd, res) {
                Some(v) => {
                    info.output_config.hdr_meta.min_mdl = v;
                },
                None => {},
            }
            false
        },
        PGenGetConfCommand::GetHdrMaxCLL => {
            match small_number(cmd, res) {
                Some(v) => {
                    info.output_config.hdr_meta.maxcll = v;
                },
                None => {},
            }
            false
        },
        PGenGetConfCommand::GetHdrMaxFALL => {
            match small_number(cmd, res) {
                Some(v) => {
                    info.output_config.hdr_meta.maxfall = v;
                },
                None => {},
            }
            false
        },
    }
}

/// The output settings after the generator has taken a setting.
pub open spec fn output_config_set(cfg: PGenOutputConfig, cmd: PGenSetConfCommand) -> PGenOutputConfig {
    let hdr = cfg.hdr_meta;
    match cmd {
        PGenSetConfCommand::SetColorFormat(format) => PGenOutputConfig { format, ..cfg },
        PGenSetConfCommand::SetBitDepth(bit_depth) => PGenOutputConfig { bit_depth, ..cfg },
        PGenSetConfCommand::SetQuantRange(quant_range) => PGenOutputConfig { quant_range, ..cfg },
        PGenSetConfCommand::SetColorimetry(colorimetry) => PGenOutputConfig { colorimetry, ..cfg },
        PGenSetConfCommand::SetOutputIsSDR(on) => if on {
            PGenOutputConfig { dynamic_range: DynamicRange::Sdr, ..cfg }
        } else {
            cfg
        },
        PGenSetConfCommand::SetOutputIsHDR(on) => if on {
            PGenOutputConfig { dynamic_range: DynamicRange::Hdr, ..cfg }
        } else {
            cfg
        },
        PGenSetConfCommand::SetOutputIsLLDV(on) | PGenSetConfCommand::SetOutputIsStdDovi(on) => if on {
            PGenOutputConfig { dynamic_range: DynamicRange::Dovi, ..cfg }
        } else {
            cfg
        },
        PGenSetConfCommand::SetDoviMapMode(dovi_map_mode) => PGenOutputConfig {
            dovi_map_mode,
            ..cfg
        },
        PGenSetConfCommand::SetHdrEotf(eotf) => PGenOutputConfig {
            hdr_meta: HdrMetadata { eotf, ..hdr },
            ..cfg
        },
        PGenSetConfCommand::SetHdrPrimaries(primaries) => PGenOutputConfig {
            hdr_meta: HdrMetadata { primaries, ..hdr },
            ..cfg
        },
        PGenSetConfCommand::SetHdrMaxMdl(max_mdl) => PGenOutputConfig {
            hdr_meta: HdrMetadata { max_mdl, ..hdr },
            ..cfg
        },
        PGenSetConfCommand::SetHdrMinMdl(min_mdl) => PGenOutputConfig {
            hdr_meta: HdrMetadata { min_mdl, ..hdr },
            ..cfg
        },
        PGenSetConfCommand::SetHdrMaxCLL(maxcll) => PGenOutputConfig {
            hdr_meta: HdrMetadata { maxcll, ..hdr },
            ..cfg
        },
        PGenSetConfCommand::SetHdrMaxFALL(maxfall) => PGenOutputConfig {
            hdr_meta: HdrMetadata { maxfall, ..hdr },
            ..cfg
        },
        _ => cfg,
    }
}

/// What is known of the generator after it has answered to one setting;
/// with it, whether the pattern is of limited range, and whether the
/// display mode was set. A setting that the generator did not take changes nothing.
pub open spec fn set_answer_applied(
    info: PGenInfoView,
    limited_range: bool,
    cmd: PGenSetConfCommand,
    taken: bool,
) -> (PGenInfoView, bool, bool) {
    if !taken {
        (info, limited_range, false)
    } else {
        match cmd {
            PGenSetConfCommand::SetDisplayMode(mode) => (
                PGenInfoView { current_display_mode: mode, ..info },
                limited_range,
                true,
            ),
            PGenSetConfCommand::SetQuantRange(quant_range) => (
                PGenInfoView { output_config: output_config_set(info.output_config, cmd), ..info },
                quant_range == QuantRange::Limited,
                false,
            ),
            _ => (
                PGenInfoView { output_config: output_config_set(info.output_config, cmd), ..info },
                limited_range,
                false,
            ),
        }
    }
}

/// The same after a row of answers to settings.
pub open spec fn set_answers_applied(
    info: PGenInfoView,
    limited_range: bool,
    answers: Seq<(PGenSetConfCommand, bool)>,
) -> (PGenInfoView, bool, bool)
    decreases answers.len(),
{
    if answers.len() == 0 {
        (info, limited_range, false)
    } else {
        let (before, limited, changed) = set_answers_applied(
            info,
            limited_range,
            answers.drop_last(),
        );
        let (after, limited2, changed2) = set_answer_applied(
            before,
            limited,
            answers.last().0,
            answers.last().1,
        );
        (after, limited2, changed || changed2)
    }
}

fn apply_set_answer(info: &mut PGenInfo, limited_range: &mut bool, cmd: PGenSetConfCommand) -> (changed:
    bool)
    ensures
        (final(info)@, *final(limited_range), changed) == set_answer_applied(
            old(info)@,
            *old(limited_range),
            cmd,
            true,
        ),
{
    match cmd {
        PGenSetConfCommand::SetDisplayMode(mode) => {
            info.current_display_mode = mode;
            return true;
        },
        PGenSetConfCommand::SetColorFormat(format) => {
            info.output_config.format = format;
        },
        PGenSetConfCommand::SetBitDepth(bit_depth) => {
            info.output_config.bit_depth = bit_depth;
        },
        PGenSetConfCommand::SetQuantRange(quant_range) => {
            info.output_config.quant_range = quant_range;
            *limited_range = quant_range == QuantRange::Limited;
        },
        PGenSetConfCommand::SetColorimetry(colorimetry) => {
            info.output_config.colorimetry = colorimetry;
        },
        PGenSetConfCommand::SetOutputIsSDR(is_sdr) => {
            if is_sdr {
                info.output_config.dynamic_range = DynamicRange::Sdr;
            }
        },
        PGenSetConfCommand::SetOutputIsHDR(is_hdr) => {
            if is_hdr {
                info.output_config.dynamic_range = DynamicRange::Hdr;
            }
        },
        PGenSetConfCommand::SetOutputIsLLDV(is_lldv) => {
            if is_lldv {
                info.output_config.dynamic_range = DynamicRange::Dovi;
            }
        },
        PGenSetConfCommand::SetOutputIsStdDovi(is_std_dovi) => {
            if is_std_dovi {
                info.output_config.dynamic_range = DynamicRange::Dovi;
            }
        },
        PGenSetConfCommand::SetDoviStatus(_) | PGenSetConfCommand::SetDoviInterface(_) => {},
        PGenSetConfCommand::SetDoviMapMode(dovi_map_mode) => {
            info.output_config.dovi_map_mode = dovi_map_mode;
        },
        PGenSetConfCommand::SetHdrEotf(eotf) => {
            info.output_config.hdr_meta.eotf = eotf;
        },
        PGenSetConfCommand::SetHdrPrimaries(primaries) => {
            info.output_config.hdr_meta.primaries = primaries;
        },
        PGenSetConfCommand::SetHdrMaxMdl(max_mdl) => {
            info.output_config.hdr_meta.max_mdl = max_mdl;
        },
        PGenSetConfCommand::SetHdrMinMdl(min_mdl) => {
            info.output_config.hdr_meta.min_mdl = min_mdl;
        },
        PGenSetConfCommand::SetHdrMaxCLL(maxcll) => {
            info.output_config.hdr_meta.maxcll = maxcll;
        },
        PGenSetConfCommand::SetHdrMaxFALL(maxfall) => {
            info.output_config.hdr_meta.maxfall = maxfall;
        },
    }
    false
}

/// What the controller knows of the generator, as a view; nothing where it knows nothing.
pub open spec fn info_view(state: PGenControllerState) -> Option<PGenInfoView> {
    match state.pgen_info {
        Some(info) => Some(info@),
        None => None,
    }
}

impl PGenController {
    /// Takes in the generator's answers to a row of questions, in their
    /// order. A generator that had told nothing is first taken to have the
    /// settings that go without saying. Tells whether the display mode is
    /// among what was told: the patch then has to be sized and placed anew.
    pub fn parse_multiple_get_conf_commands_res(
        &mut self,
        res: Vec<(PGenGetConfCommand, String)>,
    ) -> (changed_mode: bool)
        requires
            answers_split(res@),
        ensures
            ({
                let start = match info_view(old(self).state) {
                    Some(info) => info,
                    None => default_info(),
                };
                let (info, limited_range, changed) = get_answers_applied(
                    start,
                    old(self).state.pattern_config.limited_range,
                    res@,
                );
                &&& info_view(final(self).state) == Some(info)
                &&& final(self).state.pattern_config == (PGenPatternConfig {
                    limited_range,
                    ..old(self).state.pattern_config
                })
                &&& changed_mode == changed
                &&& final(self).state.connected_state == old(self).state.connected_state
            }),
    {
        let mut info = match self.state.pgen_info.take() {
            Some(info) => info,
            None => PGenInfo::default(),
        };
        let ghost start = info@;
        let ghost limited0 = self.state.pattern_config.limited_range;
        let mut limited_range = self.state.pattern_config.limited_range;
        let mut changed_mode = false;
        let mut i: usize = 0;
        assert(res@.subrange(0, 0) =~= Seq::<(PGenGetConfCommand, String)>::empty());
        while i < res.len()
            invariant
                i <= res.len(),
                answers_split(res@),
                (info@, limited_range, changed_mode) == get_answers_applied(
                    start,
                    limited0,
                    res@.subrange(0, i as int),
                ),
            decreases res.len() - i,
        {
            let cmd = res[i].0;
            let answer = res[i].1.clone();
            proof {
                assert(res@.subrange(0, i + 1).drop_last() =~= res@.subrange(0, i as int));
                assert(res@.subrange(0, i + 1).last() == res@[i as int]);
                assert(res@[i as int].0.splits(encode_utf8(res@[i as int].1@)));
            }
            let changed = apply_get_answer(&mut info, &mut limited_range, cmd, answer);
            changed_mode = changed_mode || changed;
            i += 1;
        }
        assert(res@.subrange(0, res@.len() as int) =~= res@);
        self.state.pgen_info = Some(info);
        self.state.pattern_config.limited_range = limited_range;
        changed_mode
    }

    /// Takes in the generator's answers to a row of settings. Only what
    /// the generator took is taken over; nothing changes while the
    /// generator has told nothing of itself. Tells whether the display
    /// mode was set.
    pub fn parse_multiple_set_conf_commands_res(&mut self, res: &[(PGenSetConfCommand, bool)]) -> (changed_mode:
        bool)
        ensures
            final(self).state.connected_state == old(self).state.connected_state,
            match info_view(old(self).state) {
                Some(start) => ({
                    let (info, limited_range, changed) = set_answers_applied(
                        start,
                        old(self).state.pattern_config.limited_range,
                        res@,
                    );
                    &&& info_view(final(self).state) == Some(info)
                    &&& final(self).state.pattern_config == (PGenPatternConfig {
                        limited_range,
                        ..old(self).state.pattern_config
                    })
                    &&& changed_mode == changed
                }),
                None => final(self).state == old(self).state && !changed_mode,
            },
    {
        let mut info = match self.state.pgen_info.take() {
            Some(info) => info,
            None => {
                return false;
            },
        };
        let ghost start = info@;
        let ghost limited0 = self.state.pattern_config.limited_range;
        let mut limited_range = self.state.pattern_config.limited_range;
        let mut changed_mode = false;
        let mut i: usize = 0;
        assert(res@.subrange(0, 0) =~= Seq::<(PGenSetConfCommand, bool)>::empty());
        while i < res.len()
            invariant
                i <= res.len(),
                (info@, limited_range, changed_mode) == set_answers_applied(
                    start,
                    limited0,
                    res@.subrange(0, i as int),
                ),
            decreases res.len() - i,
        {
            let (cmd, taken) = res[i];
            proof {
                assert(res@.subrange(0, i + 1).drop_last() =~= res@.subrange(0, i as int));
                assert(res@.subrange(0, i + 1).last() == res@[i as int]);
            }
            if taken {
                let changed = apply_set_answer(&mut info, &mut limited_range, cmd);
                changed_mode = changed_mode || changed;
            }
            i += 1;
        }
        assert(res@.subrange(0, res@.len() as int) =~= res@);
        self.state.pgen_info = Some(info);
        self.state.pattern_config.limited_range = limited_range;
        changed_mode
    }
}

/// What taking in an answer has changed.
#[derive(Debug, Clone, Copy, PartialEq, Eq, Structural)]
pub struct ResponseOutcome {
    /// The state is to be shown anew.
    pub state_updated: bool,
    /// The display mode was told or set: the patch is to be sized and placed anew.
    pub changed_mode: bool,
}

/// The pattern that is set up once `config` has been asked for: its depth
/// and colours are those of `config`, the rest stays; where the generator
/// puts out Dolby Vision, a pattern that is not of eight bits is brought to
/// eight bits of full range.
pub open spec fn pattern_after(
    current: PGenPatternConfig,
    dovi: bool,
    config: PGenPatternConfig,
) -> PGenPatternConfig {
    if dovi && config.bit_depth != BitDepth::Eight {
        PGenPatternConfig {
            bit_depth: BitDepth::Eight,
            limited_range: false,
            patch_colour: [
                rescaled(config.patch_colour[0], 8, 10, false, false) as u16,
                rescaled(config.patch_colour[1], 8, 10, false, false) as u16,
                rescaled(config.patch_colour[2], 8, 10, false, false) as u16,
            ],
            background_colour: [
                rescaled(config.background_colour[0], 8, 10, false, false) as u16,
                rescaled(config.background_colour[1], 8, 10, false, false) as u16,
                rescaled(config.background_colour[2], 8, 10, false, false) as u16,
            ],
            ..current
        }
    } else {
        PGenPatternConfig {
            bit_depth: config.bit_depth,
            patch_colour: config.patch_colour,
            background_colour: config.background_colour,
            ..current
        }
    }
}

/// The first of the modes that is 1920 by 1080 at 60 Hz.
pub open spec fn first_full_hd_60(modes: Seq<DisplayMode>) -> Option<DisplayMode>
    decreases modes.len(),
{
    if modes.len() == 0 {
        None
    } else if modes[0].is_full_hd_60() {
        Some(modes[0])
    } else {
        first_full_hd_60(modes.drop_first())
    }
}

fn find_full_hd_60(modes: &Vec<DisplayMode>) -> (r: Option<DisplayMode>)
    ensures
        r == first_full_hd_60(modes@),
{
    let mut i: usize = 0;
    assert(modes@.subrange(0, modes@.len() as int) =~= modes@);
    while i < modes.len()
        invariant
            i <= modes.len(),
            first_full_hd_60(modes@) == first_full_hd_60(
                modes@.subrange(i as int, modes@.len() as int),
            ),
        decreases modes.len() - i,
    {
        let mode = modes[i];
        assert(modes@.subrange(i as int, modes@.len() as int).drop_first() =~= modes@.subrange(
            i + 1,
            modes@.len() as int,
        ));
        if mode.is_1080p60() {
            return Some(mode);
        }
        i += 1;
    }
    None
}

fn same_colour(a: &[u16; 3], b: &[u16; 3]) -> (r: bool)
    ensures
        r == (*a == *b),
{
    let r = a[0] == b[0] && a[1] == b[1] && a[2] == b[2];
    proof {
        if r {
            assert(*a =~= *b);
        }
    }
    r
}

impl PGenController {
    /// A controller that knows nothing of the generator yet.
    pub fn new() -> (r: PGenController)
        ensures
            r.state.pgen_info.is_none(),
            !r.state.connected_state.connected,
            r.state.connected_state.error.is_none(),
            r.state.pattern_config == PGenPatternConfig::default_config(),
    {
        PGenController { state: PGenControllerState::default() }
    }

    /// Whether every answer of a row can be split at its command's word.
    pub fn can_parse(res: &Vec<(PGenGetConfCommand, String)>) -> (r: bool)
        ensures
            r == answers_split(res@),
    {
        let mut i: usize = 0;
        while i < res.len()
            invariant
                i <= res.len(),
                forall|k: int| 0 <= k < i ==> (#[trigger] res@[k]).0.splits(encode_utf8(res@[k].1@)),
            decreases res.len() - i,
        {
            if !res[i].0.can_split(res[i].1.as_str()) {
                return false;
            }
            i += 1;
        }
        true
    }

    /// The pixel format of the output, RGB while the generator has told nothing.
    pub fn get_color_format(&self) -> (r: ColorFormat)
        ensures
            r == match self.state.pgen_info {
                Some(info) => info.output_config.format,
                None => ColorFormat::Rgb,
            },
    {
        match &self.state.pgen_info {
            Some(info) => info.output_config.format,
            None => ColorFormat::Rgb,
        }
    }

    /// Takes in what the generator answered to a command.
    pub fn handle_pgen_response(&mut self, res: PGenCommandResponse) -> (r: ResponseOutcome)
        requires
            res matches PGenCommandResponse::MultipleGetConfRes(answers) ==> answers_split(answers@),
        ensures
            r.state_updated == match res {
                PGenCommandResponse::Busy | PGenCommandResponse::Okay(_) => false,
                PGenCommandResponse::Alive(alive) => alive != old(
                    self,
                ).state.connected_state.connected,
                _ => true,
            },
            match res {
                PGenCommandResponse::NotConnected => {
                    &&& !final(self).state.connected_state.connected
                    &&& final(self).state.connected_state.error == old(
                        self,
                    ).state.connected_state.error
                    &&& final(self).state.pgen_info == old(self).state.pgen_info
                    &&& final(self).state.pattern_config == old(self).state.pattern_config
                    &&& !r.changed_mode
                },
                PGenCommandResponse::Busy | PGenCommandResponse::Okay(_) => final(self).state == old(
                    self,
                ).state && !r.changed_mode,
                PGenCommandResponse::Errored(e) => {
                    &&& final(self).state.connected_state.connected == old(
                        self,
                    ).state.connected_state.connected
                    &&& final(self).state.connected_state.error == Some(e)
                    &&& final(self).state.pgen_info == old(self).state.pgen_info
                    &&& final(self).state.pattern_config == old(self).state.pattern_config
                    &&& !r.changed_mode
                },
                PGenCommandResponse::Alive(alive) => {
                    &&& final(self).state.connected_state.connected == alive
                    &&& final(self).state.connected_state.error == old(
                        self,
                    ).state.connected_state.error
                    &&& final(self).state.pgen_info == old(self).state.pgen_info
                    &&& final(self).state.pattern_config == old(self).state.pattern_config
                    &&& !r.changed_mode
                },
                PGenCommandResponse::Connect(state) | PGenCommandResponse::Quit(state)
                | PGenCommandResponse::Shutdown(state) | PGenCommandResponse::Reboot(state) => {
                    &&& final(self).state.connected_state == state
                    &&& final(self).state.pgen_info == old(self).state.pgen_info
                    &&& final(self).state.pattern_config == old(self).state.pattern_config
                    &&& !r.changed_mode
                },
                PGenCommandResponse::MultipleGetConfRes(answers) => ({
                    let start = match info_view(old(self).state) {
                        Some(info) => info,
                        None => default_info(),
                    };
                    let (info, limited_range, changed) = get_answers_applied(
                        start,
                        old(self).state.pattern_config.limited_range,
                        answers@,
                    );
                    &&& info_view(final(self).state) == Some(info)
                    &&& final(self).state.pattern_config == (PGenPatternConfig {
                        limited_range,
                        ..old(self).state.pattern_config
                    })
                    &&& r.changed_mode == changed
                    &&& final(self).state.connected_state == old(self).state.connected_state
                }),
                PGenCommandResponse::MultipleSetConfRes(answers) => {
                    &&& final(self).state.connected_state == old(self).state.connected_state
                    &&& match info_view(old(self).state) {
                        Some(start) => ({
                            let (info, limited_range, changed) = set_answers_applied(
                                start,
                                old(self).state.pattern_config.limited_range,
                                answers@,
                            );
                            &&& info_view(final(self).state) == Some(info)
                            &&& final(self).state.pattern_config == (PGenPatternConfig {
                                limited_range,
                                ..old(self).state.pattern_config
                            })
                            &&& r.changed_mode == changed
                        }),
                        None => final(self).state == old(self).state && !r.changed_mode,
                    }
                },
            },
    {
        let mut state_updated = match &res {
            PGenCommandResponse::Busy | PGenCommandResponse::Okay(_) => false,
            PGenCommandResponse::Alive(is_alive) => *is_alive
                != self.state.connected_state.connected,
            _ => true,
        };
        let mut changed_mode = false;
        match res {
            PGenCommandResponse::NotConnected => {
                self.state.connected_state.connected = false;
            },
            PGenCommandResponse::Busy | PGenCommandResponse::Okay(_) => {},
            PGenCommandResponse::Errored(e) => {
                self.state.connected_state.error = Some(e);
            },
            PGenCommandResponse::Alive(is_alive) => {
                self.state.connected_state.connected = is_alive;
            },
            PGenCommandResponse::Connect(state) => {
                self.state.connected_state = state;
            },
            PGenCommandResponse::Quit(state) => {
                self.state.connected_state = state;
            },
            PGenCommandResponse::Shutdown(state) => {
                self.state.connected_state = state;
            },
            PGenCommandResponse::Reboot(state) => {
                self.state.connected_state = state;
            },
            PGenCommandResponse::MultipleGetConfRes(answers) => {
                changed_mode = self.parse_multiple_get_conf_commands_res(answers);
            },
            PGenCommandResponse::MultipleSetConfRes(answers) => {
                changed_mode = self.parse_multiple_set_conf_commands_res(answers.as_slice());
            },
        }
        ResponseOutcome { state_updated, changed_mode }
    }

    /// Sets a pattern up for sending, and tells whether it is to be sent:
    /// a pattern whose patch has the colour of the one that is set up
    /// already is not sent again, and changes nothing.
    pub fn send_pattern_from_cfg(&mut self, config: PGenPatternConfig) -> (send: bool)
        ensures
            send == (old(self).state.pattern_config.patch_colour != config.patch_colour),
            final(self).state.connected_state == old(self).state.connected_state,
            final(self).state.pgen_info == old(self).state.pgen_info,
            final(self).state.pattern_config == if send {
                pattern_after(old(self).state.pattern_config, old(self).state.in_dovi_mode(), config)
            } else {
                old(self).state.pattern_config
            },
    {
        if same_colour(&self.state.pattern_config.patch_colour, &config.patch_colour) {
            return false;
        }
        let mut new_pattern_cfg = PGenPatternConfig {
            limited_range: self.state.pattern_config.limited_range,
            bit_depth: config.bit_depth,
            patch_colour: config.patch_colour,
            background_colour: config.background_colour,
            position: self.state.pattern_config.position,
            preset_position: self.state.pattern_config.preset_position,
            patch_size: self.state.pattern_config.patch_size,
            preset_size: self.state.pattern_config.preset_size,
        };
        let eight = match new_pattern_cfg.bit_depth {
            BitDepth::Eight => true,
            BitDepth::Ten => false,
        };
        if self.state.is_dovi_mode() && !eight {
            scale_pattern_config_rgb_values(&mut new_pattern_cfg, 8, 10, false, false);
            proof {
                let want = pattern_after(old(self).state.pattern_config, true, config);
                assert(new_pattern_cfg.patch_colour =~= want.patch_colour);
                assert(new_pattern_cfg.background_colour =~= want.background_colour);
                assert(new_pattern_cfg.bit_depth == BitDepth::Eight);
            }
        }
        self.state.pattern_config = new_pattern_cfg;
        true
    }

    /// Sets a black pattern up for sending, and tells whether it is to be sent.
    pub fn set_blank(&mut self) -> (send: bool)
        ensures
            send == (old(self).state.pattern_config.patch_colour != [0u16, 0u16, 0u16]),
            final(self).state.connected_state == old(self).state.connected_state,
            final(self).state.pgen_info == old(self).state.pgen_info,
            final(self).state.pattern_config == if send {
                pattern_after(
                    old(self).state.pattern_config,
                    old(self).state.in_dovi_mode(),
                    PGenPatternConfig {
                        patch_colour: [0u16, 0u16, 0u16],
                        background_colour: [0u16, 0u16, 0u16],
                        ..old(self).state.pattern_config
                    },
                )
            } else {
                old(self).state.pattern_config
            },
    {
        let mut config = self.state.pattern_config;
        config.patch_colour = [0, 0, 0];
        config.background_colour = [0, 0, 0];
        self.send_pattern_from_cfg(config)
    }

    /// Gets ready for Dolby Vision: looks for the first mode of 1920 by
    /// 1080 at 60 Hz among those that the generator has told and, if
    /// there is one, sets the pattern to eight bits. Gives the mode and
    /// whether the display has to be switched to it; nothing, and no
    /// change, where no such mode is known.
    pub fn prepare_dolby_vision(&mut self) -> (r: Option<(DisplayMode, bool)>)
        ensures
            final(self).state.connected_state == old(self).state.connected_state,
            final(self).state.pgen_info == old(self).state.pgen_info,
            match old(self).state.pgen_info {
                Some(info) => match first_full_hd_60(info.display_modes@) {
                    Some(mode) => {
                        &&& r == Some((mode, info.current_display_mode != mode))
                        &&& final(self).state.pattern_config == (PGenPatternConfig {
                            bit_depth: BitDepth::Eight,
                            ..old(self).state.pattern_config
                        })
                    },
                    None => r.is_none() && final(self).state.pattern_config == old(
                        self,
                    ).state.pattern_config,
                },
                None => r.is_none() && final(self).state.pattern_config == old(
                    self,
                ).state.pattern_config,
            },
    {
        let found = match &self.state.pgen_info {
            Some(info) => find_full_hd_60(&info.display_modes),
            None => None,
        };
        match found {
            Some(mode) => self.finish_dolby_vision(mode),
            None => None,
        }
    }

    fn finish_dolby_vision(&mut self, mode: DisplayMode) -> (r: Option<(DisplayMode, bool)>)
        requires
            old(self).state.pgen_info.is_some(),
        ensures
            final(self).state.connected_state == old(self).state.connected_state,
            final(self).state.pgen_info == old(self).state.pgen_info,
            r == Some((mode, old(self).state.pgen_info.unwrap().current_display_mode != mode)),
            final(self).state.pattern_config == (PGenPatternConfig {
                bit_depth: BitDepth::Eight,
                ..old(self).state.pattern_config
            }),
    {
        let needs_mode_switch = match &self.state.pgen_info {
            Some(info) => !info.current_display_mode.same_as(&mode),
            None => false,
        };
        self.state.pattern_config.bit_depth = BitDepth::Eight;
        Some((mode, needs_mode_switch))
    }
}

/// The quantisation range that goes with a pixel format: full with RGB, limited otherwise.
pub fn quant_range_for_format(format: ColorFormat) -> (r: QuantRange)
    ensures
        r == if format == ColorFormat::Rgb {
            QuantRange::Full
        } else {
            QuantRange::Limited
        },
{
    match format {
        ColorFormat::Rgb => QuantRange::Full,
        ColorFormat::YCbCr444 | ColorFormat::YCbCr422 => QuantRange::Limited,
    }
}

/// The two settings that change the pixel format of the output.
pub fn update_output_color_format(format: ColorFormat) -> (r: Vec<PGenSetConfCommand>)
    ensures
        r@ == seq![
            PGenSetConfCommand::SetColorFormat(format),
            PGenSetConfCommand::SetQuantRange(
                if format == ColorFormat::Rgb {
                    QuantRange::Full
                } else {
                    QuantRange::Limited
                },
            ),
        ],
{
    vec![
        PGenSetConfCommand::SetColorFormat(format),
        PGenSetConfCommand::SetQuantRange(quant_range_for_format(format)),
    ]
}

} // verus!
