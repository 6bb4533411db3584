use somars::control::apply;
use somars::control::handle_play;
use somars::control::handle_stop;
use somars::control::monitor_tick;
use somars::control::restart_playback;
use somars::control::App;
use somars::control::ControlCommand;
use somars::control::SinkAction;
use somars::history::push_history;
use somars::history::MessageType;
use somars::monitor::SinkStatus;
use somars::playback::PlaybackState;
use somars::station::Station;

fn station(id: &str) -> Station {
    Station {
        id: id.to_string(),
        title: format!("{} title", id),
        description: String::new(),
        dj: String::new(),
        genre: String::new(),
        url: format!("http://stream.example/{}", id),
        image: String::new(),
        last_playing: String::new(),
    }
}

fn app_with_two_stations() -> App {
    let mut app = App::new(100, 1);
    app.set_stations(vec![station("alpha"), station("beta")]);
    app
}

#[test]
fn ten_seconds_of_playback_are_accounted() {
    // stations [A, B]; play(A) succeeds; ten seconds pass with no
    // underrun signals; stop finds ten seconds on the clock
    let mut app = app_with_two_stations();
    let started = handle_play(&mut app, 0, true);
    assert_eq!(started, Some(0));
    app.tracker.connect_succeeded();
    handle_stop(&mut app, 10_000);
    assert_eq!(app.session.total_played_ms, 10_000);
    assert!(matches!(app.session.state, PlaybackState::Stopped));
}

#[test]
fn six_stalled_seconds_trigger_exactly_one_restart() {
    // play(A), then zero sink progress; once past the 5 s grace window
    // the monitor restarts exactly once and logs one underrun entry
    let mut app = app_with_two_stations();
    handle_play(&mut app, 0, true);
    app.tracker.connect_succeeded();
    let mut restarts = 0;
    let mut t = 250;
    while t <= 11_000 {
        let st = SinkStatus { queue_len: 3, queue_empty: false, paused: false, position_ms: 777 };
        if monitor_tick(&mut app, st, t, true).is_some() {
            restarts += 1;
        }
        t += 250;
    }
    assert_eq!(restarts, 1);
    assert_eq!(app.history.len(), 1);
    assert!(matches!(app.history[0].message_type, MessageType::Error));
    assert!(matches!(app.session.state, PlaybackState::Playing));
}

#[test]
fn restart_follows_the_active_station_not_the_cursor() {
    let mut app = app_with_two_stations();
    handle_play(&mut app, 0, true);
    // the user browses away; recovery still rebinds the playing station
    app.selected_station = Some(1);
    let restarted = restart_playback(&mut app, 1000, true);
    assert_eq!(restarted, Some(0));
    assert_eq!(app.session.active_station, Some(0));
    assert_eq!(app.selected_station, Some(1));
}

#[test]
fn apply_play_and_stop_drive_the_sink() {
    let mut app = app_with_two_stations();
    let act = apply(ControlCommand::Play, &mut app, 0, true);
    assert_eq!(act, SinkAction::Start(0));
    assert!(matches!(app.session.state, PlaybackState::Playing));
    let act = apply(ControlCommand::Stop, &mut app, 4000, true);
    assert_eq!(act, SinkAction::Halt);
    assert!(matches!(app.session.state, PlaybackState::Stopped));
    let act = apply(ControlCommand::Stop, &mut app, 5000, true);
    assert_eq!(act, SinkAction::Idle);
}

#[test]
fn apply_pause_toggles() {
    let mut app = app_with_two_stations();
    apply(ControlCommand::Play, &mut app, 0, true);
    let act = apply(ControlCommand::TogglePause, &mut app, 1000, true);
    assert_eq!(act, SinkAction::Pause);
    assert!(matches!(app.session.state, PlaybackState::Paused));
    let act = apply(ControlCommand::TogglePause, &mut app, 3000, true);
    assert_eq!(act, SinkAction::Resume);
    assert!(matches!(app.session.state, PlaybackState::Playing));
}

#[test]
fn apply_volume_commands() {
    let mut app = app_with_two_stations();
    let act = apply(ControlCommand::VolumeUp, &mut app, 0, true);
    assert_eq!(act, SinkAction::SetVolume(110));
    let act = apply(ControlCommand::SetVolume(-100), &mut app, 0, true);
    assert_eq!(act, SinkAction::SetVolume(0));
    let act = apply(ControlCommand::SetVolume(300), &mut app, 0, true);
    assert_eq!(act, SinkAction::SetVolume(200));
    let act = apply(ControlCommand::VolumeDown, &mut app, 0, true);
    assert_eq!(act, SinkAction::SetVolume(190));
}

#[test]
fn apply_tune_by_id() {
    let mut app = app_with_two_stations();
    let act = apply(ControlCommand::Tune("beta".to_string()), &mut app, 0, true);
    assert_eq!(act, SinkAction::Start(1));
    assert_eq!(app.selected_station, Some(1));
    assert_eq!(app.session.active_station, Some(1));
    let act = apply(ControlCommand::Tune("nonesuch".to_string()), &mut app, 100, true);
    assert_eq!(act, SinkAction::Idle);
    assert_eq!(app.session.active_station, Some(1));
}

#[test]
fn apply_tune_next_wraps() {
    let mut app = app_with_two_stations();
    let act = apply(ControlCommand::TuneNext, &mut app, 0, true);
    assert_eq!(act, SinkAction::Start(1));
    let act = apply(ControlCommand::TuneNext, &mut app, 100, true);
    assert_eq!(act, SinkAction::Start(0));
    let act = apply(ControlCommand::TunePrev, &mut app, 200, true);
    assert_eq!(act, SinkAction::Start(1));
}

#[test]
fn apply_selection_and_shell_commands() {
    let mut app = app_with_two_stations();
    assert_eq!(app.selected_station, Some(0));
    apply(ControlCommand::SelectDown, &mut app, 0, true);
    assert_eq!(app.selected_station, Some(1));
    apply(ControlCommand::SelectDown, &mut app, 0, true);
    assert_eq!(app.selected_station, Some(1));
    apply(ControlCommand::SelectUp, &mut app, 0, true);
    assert_eq!(app.selected_station, Some(0));
    apply(ControlCommand::ToggleHelp, &mut app, 0, true);
    assert!(app.show_help);
    apply(ControlCommand::Quit, &mut app, 0, true);
    assert!(app.should_quit);
}

#[test]
fn apply_toggle_follows_the_state() {
    let mut app = app_with_two_stations();
    let act = apply(ControlCommand::Toggle, &mut app, 0, true);
    assert_eq!(act, SinkAction::Start(0));
    let act = apply(ControlCommand::Toggle, &mut app, 1000, true);
    assert_eq!(act, SinkAction::Halt);
}

#[test]
fn history_is_append_only_and_timestamped() {
    let mut log = Vec::new();
    push_history(&mut log, "first".to_string(), MessageType::Info);
    push_history(&mut log, "second".to_string(), MessageType::System);
    assert_eq!(log.len(), 2);
    assert_eq!(log[0].message, "first");
    assert!(matches!(log[1].message_type, MessageType::System));
    assert_eq!(log[0].timestamp.chars().count(), 8);
}

#[test]
fn history_scrolling_stays_in_bounds() {
    let mut app = App::new(100, 1);
    apply(ControlCommand::ScrollHistoryUp, &mut app, 0, true);
    assert_eq!(app.history_scroll, None);
    push_history(&mut app.history, "a".to_string(), MessageType::Info);
    push_history(&mut app.history, "b".to_string(), MessageType::Info);
    apply(ControlCommand::ScrollHistoryUp, &mut app, 0, true);
    assert_eq!(app.history_scroll, Some(0));
    apply(ControlCommand::ScrollHistoryDown, &mut app, 0, true);
    assert_eq!(app.history_scroll, Some(1));
    apply(ControlCommand::ScrollHistoryDown, &mut app, 0, true);
    assert_eq!(app.history_scroll, Some(1));
}

#[test]
fn test_config_default() {
    let config = somars::config::Config::default();
    assert_eq!(config.volume, 100);
    assert_eq!(config.log_level, 1);
    assert_eq!(config.udp_port, 8069);
    assert_eq!(config.udp_enabled, false);
    assert_eq!(config.last_station, None);
}

#[test]
fn test_config_volume_clamping() {
    let config = somars::config::Config::default();
    assert!(config.volume <= 200);
    assert_eq!(config.clamped_volume(), 100);
    let loud = somars::config::Config { volume: 1234, ..somars::config::Config::default() };
    assert_eq!(loud.clamped_volume(), 200);
}
