use pgen_client::generators::internal::{
    AfterReading, InternalGenerator, InternalPattern, PatchListPreset,
};
use pgen_client::generators::resolve::{
    check_header, check_packet, message_length, FrameError, ResolveColor, ResolvePattern,
};
use pgen_client::generators::{
    GeneratorClient, GeneratorInfo, GeneratorInterface, GeneratorState, GeneratorType,
    TcpGeneratorInterface,
};
use pgen_client::pgen::pattern_config::PGenPatternConfig;
use pgen_client::pgen::BitDepth;
use pgen_client::read_file::ReadFileType;
use pgen_client::spotread::launch::spotread_args;

#[test]
fn clients_and_interfaces() {
    let client = GeneratorClient::default();
    assert_eq!(client, GeneratorClient::Resolve);
    assert_eq!(client.interface(), GeneratorInterface::Tcp(TcpGeneratorInterface::Resolve));
    assert_eq!(client.interface().client(), client);
    assert_eq!(client.as_ref(), "Resolve");
    assert_eq!(GeneratorType::default(), GeneratorType::Internal);
    assert!(GeneratorType::Internal.is_internal());
    assert!(GeneratorType::External.is_external());
    assert_eq!(GeneratorType::External.as_ref(), "External");
    let mut state = GeneratorState { client, listening: true };
    state.initial_setup();
    assert_eq!(state, GeneratorState::default());
    assert!(!GeneratorInfo::default().listening);
}

#[test]
fn resolve_patterns() {
    let color = ResolveColor { red: 235, green: 235, blue: 235, bits: 10 };
    let background = ResolveColor { red: 16, green: 16, blue: 16, bits: 10 };
    assert_eq!(color.to_array(), [235, 235, 235]);
    assert_eq!(background.to_array(), [16, 16, 16]);
    let pattern = ResolvePattern { color, background };
    assert!(pattern.can_show());
    assert_eq!(
        pattern.to_pgen(),
        PGenPatternConfig {
            bit_depth: BitDepth::Ten,
            patch_colour: [235, 235, 235],
            background_colour: [16, 16, 16],
            ..Default::default()
        }
    );
    let eight = ResolvePattern { color: ResolveColor { bits: 8, ..color }, background };
    assert_eq!(eight.to_pgen().bit_depth, BitDepth::Eight);
    assert!(!ResolvePattern { color: ResolveColor { bits: 12, ..color }, background }.can_show());
    assert_eq!(ResolveColor::default().to_array(), [0, 0, 0]);
}

#[test]
fn resolve_frames() {
    assert_eq!(message_length([0, 0, 0, 0]), 0);
    assert_eq!(message_length([0, 0, 1, 2]), 258);
    assert_eq!(message_length([1, 2, 3, 4]), u32::from_be_bytes([1, 2, 3, 4]));
    assert_eq!(message_length([255; 4]), u32::MAX);
    assert_eq!(check_header(4), Ok(()));
    assert_eq!(check_header(3), Err(FrameError::InvalidHeader));
    assert_eq!(check_header(0), Err(FrameError::InvalidHeader));
    assert_eq!(check_packet([0, 0, 1, 2], 258), Ok(()));
    assert_eq!(check_packet([0, 0, 1, 2], 257), Err(FrameError::ShortPacket));
}

fn generator(len: usize, selected: Option<usize>, auto_advance: bool) -> InternalGenerator {
    InternalGenerator {
        started: true,
        auto_advance,
        read_selected_continuously: false,
        preset: PatchListPreset::default(),
        list: (0..len).map(|i| InternalPattern { rgb: [i as u16; 3], measured: false }).collect(),
        selected_idx: selected,
    }
}

#[test]
fn readings_move_the_selection_on() {
    let mut g = generator(3, Some(0), true);
    assert_eq!(g.selected_patch().map(|p| p.rgb), Some([0, 0, 0]));
    assert_eq!(g.handle_spotread_result(true), AfterReading::MeasureSelected);
    assert!(g.list[0].measured && !g.list[1].measured);
    assert_eq!(g.selected_idx, Some(1));
    assert_eq!(g.handle_spotread_result(true), AfterReading::MeasureSelected);
    assert_eq!(g.selected_idx, Some(2));
    // the last patch: nothing to go on with
    assert_eq!(g.handle_spotread_result(true), AfterReading::Stop);
    assert_eq!(g.selected_idx, Some(2));
    assert!(g.list.iter().all(|p| p.measured));
    assert!(!g.started);

    // a reading that failed stops the measuring
    let mut g = generator(3, Some(0), true);
    assert_eq!(g.handle_spotread_result(false), AfterReading::Stop);
    assert!(!g.started && !g.list[0].measured);
    assert_eq!(g.selected_idx, Some(0));

    // one patch alone, read again and again
    let mut g = generator(3, Some(1), false);
    assert_eq!(g.handle_spotread_result(true), AfterReading::Stop);
    let mut g = generator(3, Some(1), false);
    g.read_selected_continuously = true;
    assert_eq!(g.handle_spotread_result(true), AfterReading::MeasureSelected);
    assert_eq!(g.selected_idx, Some(1));
    assert!(g.started);

    // stopped by hand in the meantime
    let mut g = generator(3, Some(0), true);
    g.started = false;
    assert_eq!(g.handle_spotread_result(true), AfterReading::Stop);
    assert_eq!(g.selected_idx, Some(1));

    // nothing selected
    let mut g = generator(2, None, true);
    assert_eq!(g.selected_patch(), None);
    assert_eq!(g.handle_spotread_result(true), AfterReading::Stop);
    assert!(g.list.iter().all(|p| !p.measured));
    let g = generator(2, Some(5), true);
    assert_eq!(g.selected_patch(), None);
    assert_eq!(PatchListPreset::Greyscale.as_ref(), "22 pts greyscale");
}

#[test]
fn file_dialog() {
    let t = ReadFileType::PatchList;
    assert_eq!(t.title(), "Patch list file");
    assert_eq!(t.filters(), vec![("CSV", vec!["csv"]), ("Text", vec!["txt"])]);
}

#[test]
fn tool_arguments() {
    let args = vec![
        ("-e".to_string(), None),
        ("-y".to_string(), Some("n".to_string())),
        ("".to_string(), Some("x".to_string())),
        ("-c".to_string(), Some("".to_string())),
        ("".to_string(), None),
    ];
    assert_eq!(spotread_args(&args), vec!["-e", "-y", "n", "x", "-c"]);
    assert!(spotread_args(&vec![]).is_empty());
}
