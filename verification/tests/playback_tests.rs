use somars::playback::PlaybackSession;
use somars::playback::PlaybackState;

fn fresh(volume: u32) -> PlaybackSession {
    PlaybackSession::new(volume)
}

#[test]
fn time_accounting_across_pause_and_resume() {
    // play at 1000, pause at 4000, resume at 6000, stop at 9000:
    // the two Playing intervals sum to 3000 + 3000 milliseconds
    let mut s = fresh(100);
    s.play(0, 1000, true);
    assert!(matches!(s.state, PlaybackState::Playing));
    s.pause(4000);
    assert!(matches!(s.state, PlaybackState::Paused));
    assert_eq!(s.total_played_ms, 3000);
    s.pause(6000);
    assert!(matches!(s.state, PlaybackState::Playing));
    assert_eq!(s.total_played_ms, 3000);
    s.stop(false, 9000);
    assert!(matches!(s.state, PlaybackState::Stopped));
    assert_eq!(s.total_played_ms, 6000);
}

#[test]
fn stop_twice_is_idempotent() {
    let mut s = fresh(100);
    s.play(0, 0, true);
    s.stop(false, 2500);
    let after_first = s;
    s.stop(false, 4000);
    assert!(matches!(s.state, PlaybackState::Stopped));
    assert_eq!(s, after_first);
    assert_eq!(s.total_played_ms, 2500);
}

#[test]
fn stop_is_a_no_op_while_paused() {
    let mut s = fresh(100);
    s.play(0, 0, true);
    s.pause(1000);
    let paused = s;
    s.stop(false, 2000);
    assert_eq!(s, paused);
}

#[test]
fn soft_stop_resumes_a_stopped_session() {
    let mut s = fresh(100);
    s.play(0, 0, true);
    s.stop(false, 1000);
    s.stop(true, 3000);
    assert!(matches!(s.state, PlaybackState::Playing));
    assert_eq!(s.playback_start_ms, Some(3000));
    assert_eq!(s.total_played_ms, 1000);
}

#[test]
fn command_order_converges_on_the_last_play() {
    // Play(A), Stop, Play(B) against Stop, Play(A), Play(B): as long as
    // Play(B) arrives last, both interleavings end in the same session
    let mut one = fresh(100);
    one.play(0, 100, true);
    one.stop(false, 200);
    one.play(1, 300, true);

    let mut two = fresh(100);
    two.stop(false, 100);
    two.play(0, 200, true);
    two.play(1, 300, true);

    assert_eq!(one, two);
    assert!(matches!(one.state, PlaybackState::Playing));
    assert_eq!(one.active_station, Some(1));
}

#[test]
fn set_volume_clamps_both_ends() {
    // minus one unit and three units of gain, in hundredths
    let mut s = fresh(100);
    s.set_volume(-100);
    assert_eq!(s.volume, 0);
    s.set_volume(300);
    assert_eq!(s.volume, 200);
    s.set_volume(137);
    assert_eq!(s.volume, 137);
}

#[test]
fn volume_steps_saturate() {
    let mut s = fresh(195);
    s.volume_up();
    assert_eq!(s.volume, 200);
    s.volume_up();
    assert_eq!(s.volume, 200);
    let mut s = fresh(5);
    s.volume_down();
    assert_eq!(s.volume, 0);
    s.volume_down();
    assert_eq!(s.volume, 0);
}

#[test]
fn a_new_play_supersedes_the_old_binding() {
    let mut s = fresh(100);
    s.play(0, 0, true);
    s.stop(false, 8000);
    assert_eq!(s.total_played_ms, 8000);
    s.play(1, 9000, true);
    // the new binding starts its accounting from zero
    assert_eq!(s.total_played_ms, 0);
    assert_eq!(s.active_station, Some(1));
    assert_eq!(s.playback_start_ms, Some(9000));
}

#[test]
fn failed_connect_leaves_the_session_stopped() {
    let mut s = fresh(100);
    s.play(0, 1000, false);
    assert!(matches!(s.state, PlaybackState::Stopped));
    assert_eq!(s.active_station, Some(0));
    assert_eq!(s.total_played_ms, 0);
}

#[test]
fn current_played_counts_the_open_interval() {
    let mut s = fresh(100);
    s.play(0, 1000, true);
    assert_eq!(s.current_played_ms(4500), 3500);
    s.pause(4500);
    assert_eq!(s.current_played_ms(9000), 3500);
}
