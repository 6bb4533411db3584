use somars::control::ControlCommand;
use somars::protocol::parse_command;
use somars::protocol::parse_volume;

#[test]
fn test_control_command_creation() {
    // Test that all control commands can be created
    let _play = ControlCommand::Play;
    let _stop = ControlCommand::Stop;
    let _volume_up = ControlCommand::VolumeUp;
    let _volume_down = ControlCommand::VolumeDown;
    let _set_volume = ControlCommand::SetVolume(100);
    let _tune = ControlCommand::Tune("test".to_string());
    let _tune_next = ControlCommand::TuneNext;
    let _tune_prev = ControlCommand::TunePrev;
    let _select_up = ControlCommand::SelectUp;
    let _select_down = ControlCommand::SelectDown;
    let _toggle = ControlCommand::Toggle;
    let _toggle_pause = ControlCommand::TogglePause;
    let _toggle_help = ControlCommand::ToggleHelp;
    let _scroll_history_up = ControlCommand::ScrollHistoryUp;
    let _scroll_history_down = ControlCommand::ScrollHistoryDown;
    let _quit = ControlCommand::Quit;
}

#[test]
fn parse_single_word_commands() {
    assert!(matches!(parse_command(b"play"), Some(ControlCommand::Play)));
    assert!(matches!(parse_command(b"stop"), Some(ControlCommand::Stop)));
    assert!(matches!(parse_command(b"toggle"), Some(ControlCommand::Toggle)));
}

#[test]
fn parse_is_case_insensitive_and_trims() {
    assert!(matches!(parse_command(b"  PLAY  "), Some(ControlCommand::Play)));
    assert!(matches!(parse_command(b"\tVolume   Up\r\n"), Some(ControlCommand::VolumeUp)));
}

#[test]
fn parse_volume_commands() {
    assert!(matches!(parse_command(b"volume up"), Some(ControlCommand::VolumeUp)));
    assert!(matches!(parse_command(b"volume down"), Some(ControlCommand::VolumeDown)));
    assert!(matches!(parse_command(b"volume 1.5"), Some(ControlCommand::SetVolume(150))));
    assert!(matches!(parse_command(b"volume 2.00"), Some(ControlCommand::SetVolume(200))));
    assert!(matches!(parse_command(b"volume 0"), Some(ControlCommand::SetVolume(0))));
    assert!(matches!(parse_command(b"volume .5"), Some(ControlCommand::SetVolume(50))));
}

#[test]
fn parse_rejects_out_of_range_or_malformed_volume() {
    assert!(parse_command(b"volume 2.01").is_none());
    assert!(parse_command(b"volume 3.5").is_none());
    assert!(parse_command(b"volume -1").is_none());
    assert!(parse_command(b"volume abc").is_none());
    assert!(parse_command(b"volume").is_none());
    assert!(parse_command(b"volume 1 2").is_none());
}

#[test]
fn parse_tune_commands() {
    assert!(matches!(parse_command(b"tune next"), Some(ControlCommand::TuneNext)));
    assert!(matches!(parse_command(b"tune prev"), Some(ControlCommand::TunePrev)));
    match parse_command(b"tune GrooveSalad") {
        Some(ControlCommand::Tune(id)) => assert_eq!(id, "groovesalad"),
        other => panic!("expected a tune command, got {:?}", other),
    }
}

#[test]
fn parse_select_commands() {
    assert!(matches!(parse_command(b"select up"), Some(ControlCommand::SelectUp)));
    assert!(matches!(parse_command(b"select down"), Some(ControlCommand::SelectDown)));
}

#[test]
fn parse_drops_unknown_messages() {
    assert!(parse_command(b"").is_none());
    assert!(parse_command(b"   ").is_none());
    assert!(parse_command(b"bogus").is_none());
    assert!(parse_command(b"play now please").is_none());
    assert!(parse_command(b"select sideways").is_none());
}

#[test]
fn parse_volume_token_values() {
    assert_eq!(parse_volume(b"2"), Some(200));
    assert_eq!(parse_volume(b"0.25"), Some(25));
    assert_eq!(parse_volume(b"1."), Some(100));
    assert_eq!(parse_volume(b"00.07"), Some(7));
    assert_eq!(parse_volume(b"0.125"), None);
    assert_eq!(parse_volume(b"2.5"), None);
    assert_eq!(parse_volume(b"."), None);
    assert_eq!(parse_volume(b"1e1"), None);
}
