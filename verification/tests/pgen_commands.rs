use pgen_client::pgen::commands::{PGenGetConfCommand, PGenSetConfCommand};
use pgen_client::pgen::controller::{DisplayMode, DisplayModeError};
use pgen_client::decimal::{parse_decimal, Decimal};
use pgen_client::pgen::{
    BitDepth, ColorFormat, Colorimetry, DoviMapMode, DynamicRange, HdrEotf, Primaries, QuantRange,
};

#[test]
fn parse_display_mode_str() {
    let line = "13[1920x1080 59.94Hz 148.35MHz phsync,pvsync]";

    let mode = DisplayMode::try_from_str(line).unwrap();
    assert_eq!(mode.id, 13);
    assert_eq!(mode.resolution, (1920, 1080));
    assert_eq!(mode.refresh_rate, Decimal { mantissa: 5994, scale: 2 });
    let rate = mode.refresh_rate.mantissa as f32 / 10f32.powi(mode.refresh_rate.scale as i32);
    assert_eq!(rate, 59.94);
}

#[test]
fn display_mode_errors() {
    assert_eq!(DisplayMode::try_from_str("x[1920x1080 60Hz]"), Err(DisplayModeError::Id));
    assert_eq!(DisplayMode::try_from_str("[1920x1080 60Hz]"), Err(DisplayModeError::Id));
    assert_eq!(DisplayMode::try_from_str(""), Err(DisplayModeError::Id));
    assert_eq!(DisplayMode::try_from_str("1[1920 60Hz]"), Err(DisplayModeError::Resolution));
    assert_eq!(DisplayMode::try_from_str("1[1920x 60Hz]"), Err(DisplayModeError::Resolution));
    assert_eq!(DisplayMode::try_from_str("1[70000x1080 60Hz]"), Err(DisplayModeError::Resolution));
    assert_eq!(DisplayMode::try_from_str("1[1920x1080 fastHz]"), Err(DisplayModeError::RefreshRate));
    assert_eq!(DisplayMode::try_from_str("1[1920x1080"), Err(DisplayModeError::RefreshRate));
    // parts of the resolution that are no number are passed over
    let mode = DisplayMode::try_from_str("+7[axx3840x2160x5  60.000 Hz").unwrap();
    assert_eq!(mode.id, 7);
    assert_eq!(mode.resolution, (3840, 2160));
    assert!(mode.is_1080p60() == false);
    assert_eq!(mode.refresh_rate, Decimal { mantissa: 60, scale: 0 });
    let mode = DisplayMode::try_from_str("2[1920x1080 60Hz]").unwrap();
    assert!(mode.is_1080p60());
    assert!(mode.same_as(&mode));
}

#[test]
fn decimals_are_kept_in_shortest_form() {
    assert_eq!(parse_decimal(b"59.940"), Some(Decimal { mantissa: 5994, scale: 2 }));
    assert_eq!(parse_decimal(b"60.0"), Some(Decimal { mantissa: 60, scale: 0 }));
    assert_eq!(parse_decimal(b"60."), Some(Decimal { mantissa: 60, scale: 0 }));
    assert_eq!(parse_decimal(b".5"), Some(Decimal { mantissa: 5, scale: 1 }));
    assert_eq!(parse_decimal(b"0.001"), Some(Decimal { mantissa: 1, scale: 3 }));
    assert_eq!(parse_decimal(b"007"), Some(Decimal { mantissa: 7, scale: 0 }));
    assert_eq!(parse_decimal(b"18446744073709551615"), Some(Decimal { mantissa: u64::MAX, scale: 0 }));
    assert_eq!(parse_decimal(b"18446744073709551616"), None);
    assert_eq!(parse_decimal(b"1844674407370955161.6"), None);
    assert_eq!(parse_decimal(b""), None);
    assert_eq!(parse_decimal(b"."), None);
    assert_eq!(parse_decimal(b"1.2.3"), None);
    assert_eq!(parse_decimal(b"-1"), None);
    assert_eq!(parse_decimal(b"1e3"), None);
    assert_eq!(parse_decimal(b"1.0x"), None);
    assert!(Decimal { mantissa: 60, scale: 0 }.equals_whole(60));
    assert!(!Decimal { mantissa: 600, scale: 1 }.equals_whole(60));
}

#[test]
fn answers_are_split_behind_the_command() {
    let cmd = PGenGetConfCommand::GetCurrentMode;
    assert_eq!(cmd.as_ref(), "GET_MODE");
    assert!(cmd.can_split("GET_MODE:13[1920x1080 60Hz]"));
    assert_eq!(cmd.split_command_result("GET_MODE:13[1920x1080 60Hz]"), Some("13[1920x1080 60Hz]"));
    assert_eq!(cmd.split_command_result("OK:GET_MODE:"), Some(""));
    assert_eq!(cmd.split_command_result("GET_MODES"), Some(""));
    assert_eq!(cmd.split_command_result("something else"), None);
    assert!(cmd.can_split("something else"));
    // nothing stands behind the command: the answer cannot be cut there
    assert!(!cmd.can_split("GET_MODE"));
    // the byte behind the command is half a character
    assert!(!cmd.can_split("GET_MODEé"));
    assert_eq!(cmd.parse_string_config("GET_MODE=abc"), "abc");
    assert_eq!(cmd.parse_string_config("nothing"), "Unknown");
}

#[test]
fn values_of_answers() {
    let cmd = PGenGetConfCommand::GetOutputIsHDR;
    assert_eq!(cmd.as_ref(), "GET_PGENERATOR_CONF_IS_HDR");
    assert!(cmd.parse_bool_config("GET_PGENERATOR_CONF_IS_HDR:1".to_string()));
    assert!(!cmd.parse_bool_config("GET_PGENERATOR_CONF_IS_HDR:0".to_string()));
    assert!(!cmd.parse_bool_config("GET_PGENERATOR_CONF_IS_HDR:1 ".to_string()));
    assert!(!cmd.parse_bool_config("1".to_string()));

    let cmd = PGenGetConfCommand::GetHdrMaxMdl;
    let answer = |v: &str| format!("GET_PGENERATOR_CONF_MAX_LUMA:{v}");
    assert_eq!(cmd.parse_number_config(answer("1000"), 65535), Some(1000));
    assert_eq!(cmd.parse_number_config(answer("+1000"), 65535), Some(1000));
    assert_eq!(cmd.parse_number_config(answer("65535"), 65535), Some(65535));
    assert_eq!(cmd.parse_number_config(answer("65536"), 65535), None);
    assert_eq!(cmd.parse_number_config(answer("65536"), u64::MAX), Some(65536));
    assert_eq!(cmd.parse_number_config(answer(""), 65535), None);
    assert_eq!(cmd.parse_number_config(answer("+"), 65535), None);
    assert_eq!(cmd.parse_number_config(answer("-1"), 65535), None);
    assert_eq!(cmd.parse_number_config(answer(" 1"), 65535), None);
    assert_eq!(cmd.parse_number_config(answer("12a"), 65535), None);
    assert_eq!(cmd.parse_number_config("other".to_string(), 65535), None);
    // as the standard library reads the same texts
    for text in ["1000", "+1000", "65535", "65536", "", "+", "-1", " 1", "12a", "0099"] {
        assert_eq!(
            cmd.parse_number_config(answer(text), 65535),
            text.parse::<u16>().ok().map(u64::from),
            "{text:?}"
        );
    }

    assert_eq!(
        PGenGetConfCommand::parse_get_output_range("GET_OUTPUT_RANGE:RGB full".to_string()),
        Some(false)
    );
    assert_eq!(
        PGenGetConfCommand::parse_get_output_range("GET_OUTPUT_RANGE:RGB limited \n".to_string()),
        Some(true)
    );
    assert_eq!(
        PGenGetConfCommand::parse_get_output_range("GET_OUTPUT_RANGE:  ".to_string()),
        None
    );
    assert_eq!(PGenGetConfCommand::parse_get_output_range("nothing".to_string()), None);
}

#[test]
fn base_info_is_asked_in_order() {
    let commands = PGenGetConfCommand::base_info_commands();
    assert_eq!(commands.len(), 19);
    assert_eq!(commands[0], PGenGetConfCommand::GetPGeneratorVersion);
    assert_eq!(commands[2], PGenGetConfCommand::GetModesAvailable);
    assert_eq!(commands[3], PGenGetConfCommand::GetCurrentMode);
    assert_eq!(commands[18], PGenGetConfCommand::GetHdrMaxFALL);
    assert!(!commands.contains(&PGenGetConfCommand::GetOutputRange));
}

#[test]
fn settings_have_their_numbers() {
    assert_eq!(BitDepth::Eight.value(), 8);
    assert_eq!(BitDepth::Ten.value(), 10);
    assert_eq!(BitDepth::from_repr(10), Some(BitDepth::Ten));
    assert_eq!(BitDepth::from_repr(9), None);
    assert_eq!(QuantRange::Limited.value(), 1);
    assert_eq!(QuantRange::Full.value(), 2);
    assert_eq!(QuantRange::from_repr(0), None);
    assert_eq!(QuantRange::from(true), QuantRange::Limited);
    assert_eq!(QuantRange::from(false), QuantRange::Full);
    assert_eq!(Colorimetry::Bt2020Rgb.value(), 9);
    assert_eq!(Colorimetry::from_repr(2), Some(Colorimetry::Bt709Ycc));
    assert_eq!(Colorimetry::from_repr(1), None);
    assert_eq!(DoviMapMode::from_repr(1), Some(DoviMapMode::Absolute));
    assert_eq!(HdrEotf::from_repr(3), Some(HdrEotf::Hlg));
    assert_eq!(Primaries::from_repr(4), Some(Primaries::P3D60));
    assert_eq!(Primaries::from_repr(5), None);
    assert_eq!(ColorFormat::from_repr(2), Some(ColorFormat::YCbCr422));
    assert_eq!(DynamicRange::from_repr(2), Some(DynamicRange::Dovi));
    for v in Primaries::all() {
        assert_eq!(Primaries::from_repr(v.value()), Some(v));
    }
    for v in Colorimetry::all() {
        assert_eq!(Colorimetry::from_repr(v.value()), Some(v));
    }
    assert_eq!(BitDepth::default(), BitDepth::Ten);
    assert_eq!(HdrEotf::default(), HdrEotf::Pq);
    assert_eq!(Primaries::default(), Primaries::DisplayP3);
    assert_eq!(DoviMapMode::default(), DoviMapMode::Relative);
    assert_eq!(BitDepth::Eight.as_ref(), "8-bit");
    assert_eq!(Colorimetry::Bt709Ycc.as_ref(), "BT.709 (YCC)");
    assert_eq!(HdrEotf::Hlg.as_ref(), "Hybrid log-gamma / HLG");
}

#[test]
fn set_commands() {
    let mode = DisplayMode::try_from_str("13[1920x1080 59.94Hz").unwrap();
    assert_eq!(PGenSetConfCommand::SetDisplayMode(mode).value(), 13);
    assert_eq!(PGenSetConfCommand::SetDisplayMode(mode).as_ref(), "SET_MODE");
    assert_eq!(PGenSetConfCommand::SetBitDepth(BitDepth::Eight).value(), 8);
    assert_eq!(PGenSetConfCommand::SetOutputIsHDR(true).value(), 1);
    assert_eq!(PGenSetConfCommand::SetOutputIsHDR(false).value(), 0);
    assert_eq!(PGenSetConfCommand::SetHdrMaxCLL(4000).value(), 4000);
    assert_eq!(PGenSetConfCommand::SetHdrMaxCLL(4000).as_ref(), "SET_PGENERATOR_CONF_MAX_CLL");
    assert_eq!(PGenSetConfCommand::SetDoviMapMode(DoviMapMode::Relative).value(), 2);

    assert_eq!(
        PGenSetConfCommand::commands_for_dynamic_range(DynamicRange::Sdr),
        vec![
            PGenSetConfCommand::SetOutputIsSDR(true),
            PGenSetConfCommand::SetOutputIsHDR(false),
            PGenSetConfCommand::SetOutputIsLLDV(false),
            PGenSetConfCommand::SetOutputIsStdDovi(false),
            PGenSetConfCommand::SetDoviStatus(false),
            PGenSetConfCommand::SetDoviInterface(false),
            PGenSetConfCommand::SetColorimetry(Colorimetry::Bt709Ycc),
        ]
    );
    assert_eq!(
        PGenSetConfCommand::commands_for_dynamic_range(DynamicRange::Hdr),
        vec![
            PGenSetConfCommand::SetOutputIsSDR(false),
            PGenSetConfCommand::SetOutputIsHDR(true),
            PGenSetConfCommand::SetOutputIsLLDV(false),
            PGenSetConfCommand::SetOutputIsStdDovi(false),
            PGenSetConfCommand::SetDoviStatus(false),
            PGenSetConfCommand::SetDoviInterface(false),
            PGenSetConfCommand::SetColorimetry(Colorimetry::Bt2020Rgb),
            PGenSetConfCommand::SetBitDepth(BitDepth::Ten),
            PGenSetConfCommand::SetHdrPrimaries(Primaries::DisplayP3),
        ]
    );
    assert_eq!(
        PGenSetConfCommand::commands_for_dynamic_range(DynamicRange::Dovi),
        vec![
            PGenSetConfCommand::SetOutputIsSDR(false),
            PGenSetConfCommand::SetOutputIsHDR(true),
            PGenSetConfCommand::SetOutputIsLLDV(true),
            PGenSetConfCommand::SetOutputIsStdDovi(true),
            PGenSetConfCommand::SetDoviStatus(true),
            PGenSetConfCommand::SetDoviInterface(true),
            PGenSetConfCommand::SetColorFormat(ColorFormat::Rgb),
            PGenSetConfCommand::SetQuantRange(QuantRange::Full),
            PGenSetConfCommand::SetBitDepth(BitDepth::Eight),
            PGenSetConfCommand::SetColorimetry(Colorimetry::Bt709Ycc),
            PGenSetConfCommand::SetDoviMapMode(DoviMapMode::Absolute),
            PGenSetConfCommand::SetHdrPrimaries(Primaries::Rec2020),
        ]
    );
}
