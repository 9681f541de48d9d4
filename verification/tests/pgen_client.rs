use pgen_client::pgen::client::{
    answer_payload, encode_multiple_get, encode_set_conf, frame_command, is_alive_answer,
    is_ok_answer, is_whole_answer, pair_get_conf_results, ConnectState, IpAddress, Offline,
    PGenClient, PGenCommand, PGenTestPattern, SocketAddress,
};
use pgen_client::pgen::commands::{PGenGetConfCommand, PGenSetConfCommand};
use pgen_client::pgen::pattern_config::{PGenPatternConfig, TestPatternPosition};
use pgen_client::pgen::{BitDepth, ColorFormat};

fn address() -> SocketAddress {
    SocketAddress { ip: IpAddress::V4([0, 0, 0, 0]), port: 85 }
}

#[test]
fn patterns_from_a_configuration() {
    let cfg = PGenPatternConfig {
        patch_colour: [940, 64, 512],
        background_colour: [64, 65, 66],
        position: (10, 20),
        patch_size: (30, 40),
        limited_range: true,
        ..Default::default()
    };
    let p = PGenTestPattern::from_config(ColorFormat::YCbCr444, &cfg);
    assert_eq!(
        p,
        PGenTestPattern {
            format: ColorFormat::YCbCr444,
            position: (10, 20),
            patch_size: (30, 40),
            bit_depth: 10,
            rgb: [940, 64, 512],
            bg_rgb: [64, 65, 66],
        }
    );
    // ten bits and not RGB: the background goes out in eight bits, rounded
    assert_eq!(p.command(), b"RGB=RECTANGLE10bit;30,40;0;940,64,512;16,16,17;0,0,10,20;-1".to_vec());
    let p = PGenTestPattern::from_config(ColorFormat::Rgb, &cfg);
    assert_eq!(p.command(), b"RGB=RECTANGLE10bit;30,40;0;940,64,512;64,65,66;0,0,10,20;-1".to_vec());

    let blank = PGenTestPattern::blank(ColorFormat::Rgb, &cfg);
    assert_eq!(blank.rgb, [64, 64, 64]);
    assert_eq!(blank.bg_rgb, [64, 64, 64]);
    assert_eq!(blank.bit_depth, 10);
    let cfg8 = PGenPatternConfig { bit_depth: BitDepth::Eight, ..cfg };
    assert_eq!(PGenTestPattern::blank(ColorFormat::Rgb, &cfg8).rgb, [16, 16, 16]);
    let full = PGenPatternConfig { limited_range: false, ..cfg8 };
    let p = PGenTestPattern::blank(ColorFormat::YCbCr422, &full);
    assert_eq!(p.rgb, [0, 0, 0]);
    assert_eq!(p.command(), b"RGB=RECTANGLE;30,40;0;0,0,0;0,0,0;0,0,10,20;-1".to_vec());
}

#[test]
fn position_on_the_display() {
    assert_eq!(TestPatternPosition::Center.compute_position(1920, 1080, (607, 342)), (657, 369));
    assert_eq!(TestPatternPosition::TopLeft.compute_position(1920, 1080, (607, 342)), (0, 0));
    assert_eq!(TestPatternPosition::TopRight.compute_position(1920, 1080, (607, 342)), (1313, 0));
    assert_eq!(TestPatternPosition::BottomLeft.compute_position(1920, 1080, (607, 342)), (0, 738));
    assert_eq!(TestPatternPosition::BottomRight.compute_position(1920, 1080, (607, 342)), (1313, 738));
    assert!(TestPatternPosition::BottomRight.patch_fits(1920, 1080, (1920, 1080)));
    assert!(!TestPatternPosition::BottomRight.patch_fits(1920, 1080, (1921, 1080)));
    assert!(TestPatternPosition::TopLeft.patch_fits(1, 1, (5, 5)));
    assert!(TestPatternPosition::Center.patch_fits(3, 3, (3, 3)));
    assert!(!TestPatternPosition::Center.patch_fits(3, 3, (4, 3)));
    assert_eq!(TestPatternPosition::Center.as_ref(), "Center");
    assert_eq!(TestPatternPosition::BottomRight.as_ref(), "Bottom right");
}

#[test]
fn messages_on_the_wire() {
    assert_eq!(frame_command(b"IS_ALIVE"), b"IS_ALIVE\x02\x0d".to_vec());
    assert!(is_whole_answer(b"ALIVE\x02\x0d"));
    assert!(is_whole_answer(b"\x02\x0d"));
    assert!(!is_whole_answer(b"ALIVE\x02"));
    assert!(!is_whole_answer(b"\x0d"));
    assert!(!is_whole_answer(b""));
    assert_eq!(answer_payload(b"ALIVE\x02\x0d"), b"ALIVE");
    assert_eq!(answer_payload(b"ALIVE"), b"ALIVE");
    assert_eq!(answer_payload(b""), b"");
    assert!(is_alive_answer(b"ALIVE"));
    assert!(!is_alive_answer(b"ALIVE "));
    assert!(is_ok_answer(b"OK:"));
    assert!(!is_ok_answer(b"OK"));

    assert_eq!(encode_multiple_get(&[]), b"CMD:MULTIPLE:".to_vec());
    assert_eq!(
        encode_multiple_get(&[PGenGetConfCommand::GetCurrentMode]),
        b"CMD:MULTIPLE:GET_MODE".to_vec()
    );
    assert_eq!(
        encode_multiple_get(&[
            PGenGetConfCommand::GetPGeneratorVersion,
            PGenGetConfCommand::GetPGeneratorPid,
            PGenGetConfCommand::GetOutputRange,
        ]),
        b"CMD:MULTIPLE:GET_PGENERATOR_VERSION:GET_PGENERATOR_IS_EXECUTED:GET_OUTPUT_RANGE".to_vec()
    );
    assert_eq!(
        encode_set_conf(PGenSetConfCommand::SetBitDepth(BitDepth::Ten)),
        b"CMD:SET_PGENERATOR_CONF_MAX_BPC:10".to_vec()
    );
    assert_eq!(
        encode_set_conf(PGenSetConfCommand::SetOutputIsSDR(false)),
        b"CMD:SET_PGENERATOR_CONF_IS_SDR:0".to_vec()
    );
}

#[test]
fn answers_go_with_their_questions() {
    let commands = [PGenGetConfCommand::GetPGeneratorVersion, PGenGetConfCommand::GetPGeneratorPid, PGenGetConfCommand::GetCurrentMode];
    let res = "OK:\nGET_PGENERATOR_VERSION:1.6\nGET_PGENERATOR_IS_EXECUTED:123\nGET_MODE:4[é\n";
    assert_eq!(
        pair_get_conf_results(res, &commands),
        vec![
            (PGenGetConfCommand::GetPGeneratorVersion, "GET_PGENERATOR_VERSION:1.6".to_string()),
            (PGenGetConfCommand::GetPGeneratorPid, "GET_PGENERATOR_IS_EXECUTED:123".to_string()),
            (PGenGetConfCommand::GetCurrentMode, "GET_MODE:4[é".to_string()),
        ]
    );
    // fewer lines than questions, and a last line without its line feed
    assert_eq!(
        pair_get_conf_results("OK:\na\n\nb", &[PGenGetConfCommand::GetCurrentMode; 5]),
        vec![
            (PGenGetConfCommand::GetCurrentMode, "a".to_string()),
            (PGenGetConfCommand::GetCurrentMode, "".to_string()),
            (PGenGetConfCommand::GetCurrentMode, "b".to_string()),
        ]
    );
    // fewer questions than lines
    assert_eq!(
        pair_get_conf_results("OK:\na\nb\n", &[PGenGetConfCommand::GetCurrentMode]),
        vec![(PGenGetConfCommand::GetCurrentMode, "a".to_string())]
    );
    assert!(pair_get_conf_results("", &commands).is_empty());
    assert!(pair_get_conf_results("OK:", &commands).is_empty());
    assert!(pair_get_conf_results("OK:\n", &commands).is_empty());
    assert!(pair_get_conf_results("OK:\na", &[]).is_empty());
    // as the standard library divides the same texts
    for res in ["", "\n", "OK:\na\nb", "OK:\n\n\n", "x\ny\n", "\n\nz"] {
        let expected: Vec<_> = res
            .split_terminator('\n')
            .skip(1)
            .zip(commands.iter().copied())
            .map(|(res, c)| (c, res.to_owned()))
            .collect();
        assert_eq!(pair_get_conf_results(res, &commands), expected, "{res:?}");
    }
}

#[test]
fn connection_state() {
    let mut client = PGenClient::new(address());
    assert_eq!(client.connect_state, ConnectState::default());
    assert!(!client.has_stream);
    assert_eq!(client.offline_plan(&PGenCommand::IsAlive), Offline::NotConnected);
    assert_eq!(client.offline_plan(&PGenCommand::Connect), Offline::Proceed);
    assert_eq!(client.offline_plan(&PGenCommand::UpdateSocket(address())), Offline::AddressUpdated);

    client.connect_begins();
    client.connect_done(Some("refused".to_string()), false);
    assert!(!client.has_stream);
    assert_eq!(
        client.connect_state,
        ConnectState { connected: false, error: Some("refused".to_string()) }
    );
    client.connect_begins();
    assert_eq!(client.connect_state.error, None);
    client.connect_done(None, true);
    assert!(client.has_stream && client.connect_state.connected);
    assert_eq!(client.offline_plan(&PGenCommand::IsAlive), Offline::Proceed);
    assert!(client.says_quit());

    assert!(!client.heartbeat_done(false));
    assert!(!client.connect_state.connected);
    assert!(client.heartbeat_done(true));

    // the generator agreed to halt: it is gone
    client.power_command_done(Ok(true));
    assert!(!client.has_stream && !client.connect_state.connected);

    let mut client = PGenClient::new(address());
    client.connect_done(None, true);
    client.power_command_done(Ok(false));
    assert!(client.has_stream && client.connect_state.connected);
    client.power_command_done(Err("timed out".to_string()));
    assert_eq!(client.connect_state.error, Some("timed out".to_string()));
    // an answer to the leave-taking: it is still there
    client.disconnect_done(Ok(true));
    assert!(client.has_stream && client.connect_state.connected);
    client.disconnect_done(Ok(false));
    assert!(!client.has_stream && !client.connect_state.connected);

    let other = SocketAddress { ip: IpAddress::V4([192, 168, 1, 2]), port: 85 };
    let mut client = PGenClient::new(address());
    client.connect_done(None, true);
    client.set_socket_address(&other);
    assert_eq!(client.socket_addr, other);
    assert!(!client.connect_state.connected);
}

#[test]
fn generator_is_looked_for_on_port_85() {
    assert_eq!(
        pgen_client::pgen::controller::PGenControllerState::default_socket_addr(),
        address()
    );
    assert!(pgen_client::utils::range_is_computable_for(true, 8));
    assert!(pgen_client::utils::range_is_computable_for(true, 19));
    assert!(!pgen_client::utils::range_is_computable_for(true, 7));
    assert!(!pgen_client::utils::range_is_computable_for(true, 20));
    assert!(pgen_client::utils::range_is_computable_for(false, 0));
    assert!(pgen_client::utils::range_is_computable_for(false, 15));
    assert!(!pgen_client::utils::range_is_computable_for(false, 16));
    assert_eq!(pgen_client::spotread::driver::Keys::Trigger.to_bytes(), b"\n".to_vec());
    assert_eq!(pgen_client::spotread::driver::Keys::Quit.to_bytes(), b"q\r\n".to_vec());
}
