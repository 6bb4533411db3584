use somars::monitor::required_backoff_ms;
use somars::monitor::SinkStatus;
use somars::monitor::UnderrunTracker;

fn healthy(position_ms: u64) -> SinkStatus {
    SinkStatus { queue_len: 4, queue_empty: false, paused: false, position_ms }
}

fn starved(position_ms: u64) -> SinkStatus {
    SinkStatus { queue_len: 0, queue_empty: true, paused: false, position_ms }
}

#[test]
fn backoff_doubles_and_caps() {
    assert_eq!(required_backoff_ms(0), 500);
    assert_eq!(required_backoff_ms(1), 1000);
    assert_eq!(required_backoff_ms(2), 2000);
    assert_eq!(required_backoff_ms(3), 4000);
    assert_eq!(required_backoff_ms(4), 8000);
    assert_eq!(required_backoff_ms(5), 16000);
    assert_eq!(required_backoff_ms(6), 30000);
    assert_eq!(required_backoff_ms(7), 30000);
    assert_eq!(required_backoff_ms(40), 30000);
}

#[test]
fn success_resets_backoff_to_the_floor() {
    let mut t = UnderrunTracker::new();
    let _ = t.tick(starved(0), 6000, 0);
    let _ = t.tick(starved(0), 7000, 0);
    assert!(t.restart_attempts > 0);
    t.connect_succeeded();
    assert_eq!(t.restart_attempts, 0);
    assert_eq!(required_backoff_ms(t.restart_attempts), 500);
}

#[test]
fn no_restart_inside_the_grace_window() {
    let mut t = UnderrunTracker::new();
    t.begin_connect(1000);
    t.connect_succeeded();
    // a blatantly starved sink, but the grace window (5 s) still runs
    let restart = t.tick(starved(0), 6000, 1000);
    assert!(!restart);
    assert!(!t.underrun_detected);
    // past the window the same sample does trigger
    let restart = t.tick(starved(0), 6001, 1000);
    assert!(restart);
    assert!(t.underrun_detected);
}

#[test]
fn loading_suppresses_detection() {
    let mut t = UnderrunTracker::new();
    t.begin_connect(0);
    // never signalled connected: loading stays on
    let restart = t.tick(starved(0), 60000, 0);
    assert!(!restart);
}

#[test]
fn backoff_gates_successive_restarts() {
    let mut t = UnderrunTracker::new();
    // first restart fires freely (no earlier restart to back off from)
    assert!(t.tick(starved(0), 10000, 0));
    // one attempt on the counter: the pause is now 1000 ms
    assert!(!t.tick(starved(0), 10400, 0));
    assert!(!t.tick(starved(0), 10999, 0));
    assert!(t.tick(starved(0), 11000, 0));
    // two attempts: the pause doubles to 2000 ms
    assert!(!t.tick(starved(0), 12999, 0));
    assert!(t.tick(starved(0), 13000, 0));
}

#[test]
fn frozen_position_counts_only_after_the_stall_window() {
    let mut t = UnderrunTracker::new();
    t.connect_succeeded();
    // queue healthy, position frozen, playback began at 10000
    let _ = t.tick(healthy(500), 12000, 10000);
    // 4 s into playback: not yet a stall
    assert!(!t.tick(healthy(500), 14000, 10000));
    // past 5 s of playback with no movement: a stall
    assert!(t.tick(healthy(500), 15100, 10000));
}

#[test]
fn moving_position_is_no_stall() {
    let mut t = UnderrunTracker::new();
    let _ = t.tick(healthy(1000), 10000, 0);
    assert!(!t.tick(healthy(1250), 10250, 0));
    assert!(!t.tick(healthy(1500), 10500, 0));
}
