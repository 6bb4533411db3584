//! Control intents and the command router.
//!
//! Every source of control — the keyboard decoder, the network channel,
//! the startup auto-play directive — normalises what it wants into one
//! `ControlCommand` value, and every command passes through [`apply`],
//! called from one logical execution context per tick. That single seam
//! serialises all mutation of the application state: no source touches
//! the session directly, so races between sources cannot corrupt it.
//!
//! [`apply`] returns the sink work the shell must perform; the router
//! itself does no I/O.

use vstd::prelude::*;

use crate::history::HistoryMessage;
use crate::history::MessageType;
use crate::history::push_history;
use crate::i18n::t;
use crate::monitor::SinkStatus;
use crate::monitor::UnderrunTracker;
use crate::playback::PlaybackSession;
use crate::playback::PlaybackState;
use crate::station::Station;

verus! {

/// One control intent, whatever its origin.
#[derive(Debug, Clone)]
pub enum ControlCommand {
    /// Start playback of the selected station.
    Play,
    /// Hard stop.
    Stop,
    /// Toggle between Playing and Paused.
    TogglePause,
    /// Raise the stored volume by one step.
    VolumeUp,
    /// Lower the stored volume by one step.
    VolumeDown,
    /// Store this volume, in hundredths of unit gain, clamped.
    SetVolume(i32),
    /// Select the station with this id and play it.
    Tune(String),
    /// Select the next station and play it.
    TuneNext,
    /// Select the previous station and play it.
    TunePrev,
    /// Move the selection cursor up.
    SelectUp,
    /// Move the selection cursor down.
    SelectDown,
    /// Stop if playing, play the selection if stopped.
    Toggle,
    /// Show or hide the help overlay.
    ToggleHelp,
    /// Scroll the history view up.
    ScrollHistoryUp,
    /// Scroll the history view down.
    ScrollHistoryDown,
    /// Leave the program.
    Quit,
}

/// What the shell must do to the audio sink after a command was applied.
#[derive(Clone, Copy, Debug, PartialEq, Eq, Structural)]
pub enum SinkAction {
    /// Nothing.
    Idle,
    /// Supersede the sink's content with a fresh stream of this station.
    Start(usize),
    /// Halt the sink and empty it.
    Halt,
    /// Pause the sink's output.
    Pause,
    /// Resume the sink's output.
    Resume,
    /// Apply this volume, in hundredths of unit gain, to the sink.
    SetVolume(u32),
}

/// The whole application state the tick loop owns.
#[derive(Debug)]
pub struct App {
    /// The station directory, handed over once by the resolver.
    pub stations: Vec<Station>,
    /// The UI cursor; merely a cursor, not the playing station.
    pub selected_station: Option<usize>,
    /// The one authoritative playback state.
    pub session: PlaybackSession,
    /// Stall-detection state of the underrun monitor.
    pub tracker: UnderrunTracker,
    /// The append-only diagnostics log.
    pub history: Vec<HistoryMessage>,
    /// Cursor into the history view.
    pub history_scroll: Option<usize>,
    /// The station directory is still being fetched.
    pub loading: bool,
    /// The help overlay is shown.
    pub show_help: bool,
    /// Log verbosity: 1 is minimal, 2 verbose.
    pub log_level: u8,
    /// The host loop should exit.
    pub should_quit: bool,
}

/// Selection moved one station up; from nowhere it lands on the first
/// station, if any.
pub open spec fn spec_select_up(sel: Option<usize>, n: usize) -> Option<usize> {
    match sel {
        Some(s) => if s > 0 {
            Some((s - 1) as usize)
        } else {
            Some(s)
        },
        None => if n > 0 {
            Some(0usize)
        } else {
            None
        },
    }
}

/// Selection moved one station down, pinned to the directory; frozen
/// while the directory is still loading.
pub open spec fn spec_select_down(sel: Option<usize>, n: usize, loading: bool) -> Option<usize> {
    if loading {
        sel
    } else {
        match sel {
            Some(s) => if s + 1 < n {
                Some((s + 1) as usize)
            } else {
                sel
            },
            None => if n > 0 {
                Some(0usize)
            } else {
                None
            },
        }
    }
}

/// History cursor moved one entry up; from nowhere it lands on the first
/// entry.
pub open spec fn spec_scroll_up(sel: Option<usize>, len: usize) -> Option<usize> {
    if len == 0 {
        sel
    } else {
        match sel {
            Some(i) => if i > 0 {
                Some((i - 1) as usize)
            } else {
                Some(i)
            },
            None => Some(0usize),
        }
    }
}

/// History cursor moved one entry down, pinned to the log's end.
pub open spec fn spec_scroll_down(sel: Option<usize>, len: usize) -> Option<usize> {
    if len == 0 {
        sel
    } else {
        let i = match sel {
            Some(i) => i,
            None => 0usize,
        };
        if i + 1 < len {
            Some((i + 1) as usize)
        } else {
            sel
        }
    }
}

/// `i` is the first index of `s` whose station carries `id`.
pub open spec fn spec_first_station(s: Seq<Station>, id: Seq<char>, i: int) -> bool {
    &&& 0 <= i < s.len()
    &&& s[i].id@ == id
    &&& forall|j: int| 0 <= j < i ==> s[j].id@ != id
}

/// Everything outside the selection, session, tracker and log is as it
/// was.
pub open spec fn spec_same_shell(a: App, b: App) -> bool {
    &&& b.stations == a.stations
    &&& b.history_scroll == a.history_scroll
    &&& b.loading == a.loading
    &&& b.show_help == a.show_help
    &&& b.log_level == a.log_level
    &&& b.should_quit == a.should_quit
}

/// A play of station `i` went through the session and anchored a fresh
/// grace window on the tracker.
pub open spec fn spec_play_step(a: App, b: App, i: usize, now_ms: u64, connected: bool) -> bool {
    &&& b.session == a.session.spec_play(i, now_ms, connected)
    &&& b.tracker == (UnderrunTracker {
        station_loading: true,
        grace_start_ms: now_ms,
        ..a.tracker
    })
}

impl App {
    /// Internal consistency of the whole state.
    pub open spec fn inv(self) -> bool {
        &&& self.session.inv()
        &&& (self.history_scroll matches Some(i) ==> i < self.history@.len())
    }

    /// The clock reading `now_ms` is no earlier than any mark held.
    pub open spec fn sync(self, now_ms: u64) -> bool {
        &&& self.session.sync(now_ms)
        &&& self.tracker.sync(now_ms)
    }

    /// A fresh application: empty directory still loading, cursor on the
    /// first slot, stopped session, idle tracker, empty log.
    pub fn new(volume: u32, log_level: u8) -> (a: App)
        requires
            volume <= crate::playback::MAX_VOLUME,
        ensures
            a.inv(),
            a.stations@.len() == 0,
            a.selected_station == Some(0usize),
            a.session == PlaybackSession::spec_new(volume),
            a.tracker == UnderrunTracker::spec_new(),
            a.history@.len() == 0,
            a.history_scroll is None,
            a.loading,
            !a.show_help,
            a.log_level == log_level,
            !a.should_quit,
    {
        App {
            stations: Vec::new(),
            selected_station: Some(0),
            session: PlaybackSession::new(volume),
            tracker: UnderrunTracker::new(),
            history: Vec::new(),
            history_scroll: None,
            loading: true,
            show_help: false,
            log_level,
            should_quit: false,
        }
    }

    /// The resolver delivered the directory: store it and leave the
    /// loading state.
    pub fn set_stations(&mut self, stations: Vec<Station>)
        requires
            old(self).inv(),
        ensures
            final(self).inv(),
            *final(self) == (App { stations, loading: false, ..*old(self) }),
    {
        self.stations = stations;
        self.loading = false;
    }
}

/// Index of the first station carrying `id`, if any does.
pub fn find_station(stations: &Vec<Station>, id: &String) -> (r: Option<usize>)
    ensures
        match r {
            Some(i) => spec_first_station(stations@, id@, i as int),
            None => forall|j: int| 0 <= j < stations@.len() ==> stations@[j].id@ != id@,
        },
{
    let n = stations.len();
    let mut i: usize = 0;
    while i < n
        invariant
            n == stations@.len(),
            i <= n,
            forall|j: int| 0 <= j < i ==> stations@[j].id@ != id@,
        decreases n - i,
    {
        if stations[i].id == *id {
            proof {
                assert(spec_first_station(stations@, id@, i as int));
            }
            return Some(i);
        }
        i = i + 1;
    }
    None
}

/// Start playback of the selected station, superseding any binding. The
/// connect outcome is the caller's; on a valid selection the session and
/// tracker take the play step and the started index comes back, else
/// nothing changes.
pub fn handle_play(app: &mut App, now_ms: u64, connected: bool) -> (started: Option<usize>)
    requires
        old(app).inv(),
        old(app).sync(now_ms),
    ensures
        final(app).inv(),
        final(app).sync(now_ms),
        spec_same_shell(*old(app), *final(app)),
        final(app).selected_station == old(app).selected_station,
        final(app).history == old(app).history,
        ({
            let sel = old(app).selected_station;
            if sel is Some && sel->0 < old(app).stations@.len() {
                &&& started == Some(sel->0)
                &&& spec_play_step(*old(app), *final(app), sel->0, now_ms, connected)
            } else {
                &&& started is None
                &&& final(app).session == old(app).session
                &&& final(app).tracker == old(app).tracker
            }
        }),
{
    match app.selected_station {
        Some(i) => {
            if i < app.stations.len() {
                app.session.play(i, now_ms, connected);
                app.tracker.begin_connect(now_ms);
                Some(i)
            } else {
                None
            }
        },
        None => None,
    }
}

/// Hard-stop playback; a no-op unless the session is Playing.
pub fn handle_stop(app: &mut App, now_ms: u64)
    requires
        old(app).inv(),
        old(app).sync(now_ms),
    ensures
        final(app).inv(),
        final(app).sync(now_ms),
        spec_same_shell(*old(app), *final(app)),
        final(app).selected_station == old(app).selected_station,
        final(app).history == old(app).history,
        final(app).tracker == old(app).tracker,
        final(app).session == old(app).session.spec_stop(false, now_ms),
{
    app.session.stop(false, now_ms);
}

/// Move the selection cursor one station up.
pub fn handle_up(app: &mut App)
    requires
        old(app).inv(),
    ensures
        final(app).inv(),
        *final(app) == (App {
            selected_station: spec_select_up(
                old(app).selected_station,
                old(app).stations@.len() as usize,
            ),
            ..*old(app)
        }),
{
    match app.selected_station {
        Some(s) => {
            if s > 0 {
                app.selected_station = Some(s - 1);
            }
        },
        None => {
            if app.stations.len() > 0 {
                app.selected_station = Some(0);
            }
        },
    }
}

/// Move the selection cursor one station down.
pub fn handle_down(app: &mut App)
    requires
        old(app).inv(),
    ensures
        final(app).inv(),
        *final(app) == (App {
            selected_station: spec_select_down(
                old(app).selected_station,
                old(app).stations@.len() as usize,
                old(app).loading,
            ),
            ..*old(app)
        }),
{
    if !app.loading {
        let n = app.stations.len();
        match app.selected_station {
            Some(s) => {
                if n > 0 && s < n - 1 {
                    app.selected_station = Some(s + 1);
                }
            },
            None => {
                if app.stations.len() > 0 {
                    app.selected_station = Some(0);
                }
            },
        }
    }
}

/// Raise the stored volume by one step.
pub fn handle_volume_up(app: &mut App)
    requires
        old(app).inv(),
    ensures
        final(app).inv(),
        *final(app) == (App {
            session: final(app).session,
            ..*old(app)
        }),
        final(app).session == (PlaybackSession {
            volume: final(app).session.volume,
            ..old(app).session
        }),
        final(app).session.volume == if old(app).session.volume + crate::playback::VOLUME_STEP
            <= crate::playback::MAX_VOLUME {
            (old(app).session.volume + crate::playback::VOLUME_STEP) as u32
        } else {
            crate::playback::MAX_VOLUME
        },
{
    app.session.volume_up();
}

/// Lower the stored volume by one step.
pub fn handle_volume_down(app: &mut App)
    requires
        old(app).inv(),
    ensures
        final(app).inv(),
        *final(app) == (App {
            session: final(app).session,
            ..*old(app)
        }),
        final(app).session == (PlaybackSession {
            volume: final(app).session.volume,
            ..old(app).session
        }),
        final(app).session.volume == if old(app).session.volume >= crate::playback::VOLUME_STEP {
            (old(app).session.volume - crate::playback::VOLUME_STEP) as u32
        } else {
            0u32
        },
{
    app.session.volume_down();
}

/// Scroll the history view one entry up.
pub fn handle_history_scroll_up(app: &mut App)
    requires
        old(app).inv(),
    ensures
        final(app).inv(),
        *final(app) == (App {
            history_scroll: spec_scroll_up(
                old(app).history_scroll,
                old(app).history@.len() as usize,
            ),
            ..*old(app)
        }),
{
    if app.history.len() > 0 {
        match app.history_scroll {
            Some(i) => {
                if i > 0 {
                    app.history_scroll = Some(i - 1);
                }
            },
            None => {
                app.history_scroll = Some(0);
            },
        }
    }
}

/// Scroll the history view one entry down.
pub fn handle_history_scroll_down(app: &mut App)
    requires
        old(app).inv(),
    ensures
        final(app).inv(),
        *final(app) == (App {
            history_scroll: spec_scroll_down(
                old(app).history_scroll,
                old(app).history@.len() as usize,
            ),
            ..*old(app)
        }),
{
    if app.history.len() > 0 {
        let i = match app.history_scroll {
            Some(i) => i,
            None => 0,
        };
        if i + 1 < app.history.len() {
            app.history_scroll = Some(i + 1);
        }
    }
}

/// Restart playback after an underrun, bound to the station that was
/// playing — not the cursor, which the user may have moved meanwhile.
pub fn restart_playback(app: &mut App, now_ms: u64, connected: bool) -> (restarted: Option<usize>)
    requires
        old(app).inv(),
        old(app).sync(now_ms),
    ensures
        final(app).inv(),
        final(app).sync(now_ms),
        spec_same_shell(*old(app), *final(app)),
        final(app).selected_station == old(app).selected_station,
        final(app).history == old(app).history,
        ({
            let active = old(app).session.active_station;
            if active is Some && active->0 < old(app).stations@.len() {
                &&& restarted == Some(active->0)
                &&& spec_play_step(*old(app), *final(app), active->0, now_ms, connected)
            } else {
                &&& restarted is None
                &&& final(app).session == old(app).session
                &&& final(app).tracker == old(app).tracker
            }
        }),
{
    match app.session.active_station {
        Some(i) => {
            if i < app.stations.len() {
                app.session.play(i, now_ms, connected);
                app.tracker.begin_connect(now_ms);
                Some(i)
            } else {
                None
            }
        },
        None => None,
    }
}

/// One underrun-monitor tick while the session is Playing: sample in
/// hand, decide a restart exactly as the tracker's must_restart says; on a
/// restart, log an underrun entry and take the same play step a fresh
/// play of the active station would take.
pub fn monitor_tick(app: &mut App, st: SinkStatus, now_ms: u64, connected: bool) -> (restarted:
    Option<usize>)
    requires
        old(app).inv(),
        old(app).sync(now_ms),
        old(app).session.state is Playing,
        old(app).tracker.restart_attempts < u32::MAX,
    ensures
        final(app).inv(),
        final(app).sync(now_ms),
        spec_same_shell(*old(app), *final(app)),
        final(app).selected_station == old(app).selected_station,
        ({
            let must_restart = old(app).tracker.spec_should_restart(
                st,
                now_ms,
                old(app).session.playback_start_ms->0,
            );
            let ticked = UnderrunTracker {
                last_position_ms: st.position_ms,
                last_check_ms: now_ms,
                underrun_detected: must_restart,
                last_restart_ms: if must_restart {
                    Some(now_ms)
                } else {
                    old(app).tracker.last_restart_ms
                },
                restart_attempts: if must_restart {
                    (old(app).tracker.restart_attempts + 1) as u32
                } else {
                    old(app).tracker.restart_attempts
                },
                ..old(app).tracker
            };
            let active = old(app).session.active_station;
            if !must_restart {
                &&& restarted is None
                &&& final(app).session == old(app).session
                &&& final(app).tracker == ticked
                &&& final(app).history == old(app).history
            } else {
                &&& final(app).history@.len() == old(app).history@.len() + 1
                &&& final(app).history@.last().message_type is Error
                &&& if active is Some && active->0 < old(app).stations@.len() {
                    &&& restarted == Some(active->0)
                    &&& final(app).session == old(app).session.spec_play(
                        active->0,
                        now_ms,
                        connected,
                    )
                    &&& final(app).tracker == (UnderrunTracker {
                        station_loading: true,
                        grace_start_ms: now_ms,
                        ..ticked
                    })
                } else {
                    &&& restarted is None
                    &&& final(app).session == old(app).session
                    &&& final(app).tracker == ticked
                }
            }
        }),
{
    let start_ms = match app.session.playback_start_ms {
        Some(t) => t,
        None => now_ms,  // unreachable: Playing implies the mark is set
    };
    let restart = app.tracker.tick(st, now_ms, start_ms);
    if restart {
        push_history(&mut app.history, t("underrun-detected"), MessageType::Error);
        restart_playback(app, now_ms, connected)
    } else {
        None
    }
}

/// Apply one command to the application state — the single seam through
/// which every control source mutates it — and return the sink work the
/// shell must perform.
pub fn apply(cmd: ControlCommand, app: &mut App, now_ms: u64, connected: bool) -> (act: SinkAction)
    requires
        old(app).inv(),
        old(app).sync(now_ms),
    ensures
        final(app).inv(),
        final(app).sync(now_ms),
        final(app).stations == old(app).stations,
        final(app).loading == old(app).loading,
        final(app).log_level == old(app).log_level,
        final(app).history == old(app).history,
        (cmd matches ControlCommand::Play ==> spec_played_selected(
            *old(app),
            *final(app),
            act,
            now_ms,
            connected,
        )),
        (cmd matches ControlCommand::Stop ==> spec_stopped(*old(app), *final(app), act, now_ms)),
        (cmd matches ControlCommand::TogglePause ==> spec_pause_toggled(
            *old(app),
            *final(app),
            act,
            now_ms,
        )),
        (cmd matches ControlCommand::VolumeUp ==> spec_volume_changed(
            *old(app),
            *final(app),
            act,
            if old(app).session.volume + crate::playback::VOLUME_STEP
                <= crate::playback::MAX_VOLUME {
                (old(app).session.volume + crate::playback::VOLUME_STEP) as u32
            } else {
                crate::playback::MAX_VOLUME
            },
        )),
        (cmd matches ControlCommand::VolumeDown ==> spec_volume_changed(
            *old(app),
            *final(app),
            act,
            if old(app).session.volume >= crate::playback::VOLUME_STEP {
                (old(app).session.volume - crate::playback::VOLUME_STEP) as u32
            } else {
                0u32
            },
        )),
        (cmd matches ControlCommand::SetVolume(v) ==> spec_volume_changed(
            *old(app),
            *final(app),
            act,
            PlaybackSession::spec_clamp_volume(v),
        )),
        (cmd matches ControlCommand::Tune(id) ==> spec_tuned(
            *old(app),
            *final(app),
            act,
            id@,
            now_ms,
            connected,
        )),
        (cmd matches ControlCommand::TuneNext ==> spec_tuned_step(
            *old(app),
            *final(app),
            act,
            spec_tune_next(old(app).selected_station, old(app).stations@.len() as usize),
            now_ms,
            connected,
        )),
        (cmd matches ControlCommand::TunePrev ==> spec_tuned_step(
            *old(app),
            *final(app),
            act,
            spec_tune_prev(old(app).selected_station, old(app).stations@.len() as usize),
            now_ms,
            connected,
        )),
        (cmd matches ControlCommand::SelectUp ==> *final(app) == (App {
            selected_station: spec_select_up(
                old(app).selected_station,
                old(app).stations@.len() as usize,
            ),
            ..*old(app)
        }) && act is Idle),
        (cmd matches ControlCommand::SelectDown ==> *final(app) == (App {
            selected_station: spec_select_down(
                old(app).selected_station,
                old(app).stations@.len() as usize,
                old(app).loading,
            ),
            ..*old(app)
        }) && act is Idle),
        (cmd matches ControlCommand::Toggle ==> spec_toggled(
            *old(app),
            *final(app),
            act,
            now_ms,
            connected,
        )),
        (cmd matches ControlCommand::ToggleHelp ==> *final(app) == (App {
            show_help: !old(app).show_help,
            ..*old(app)
        }) && act is Idle),
        (cmd matches ControlCommand::ScrollHistoryUp ==> *final(app) == (App {
            history_scroll: spec_scroll_up(
                old(app).history_scroll,
                old(app).history@.len() as usize,
            ),
            ..*old(app)
        }) && act is Idle),
        (cmd matches ControlCommand::ScrollHistoryDown ==> *final(app) == (App {
            history_scroll: spec_scroll_down(
                old(app).history_scroll,
                old(app).history@.len() as usize,
            ),
            ..*old(app)
        }) && act is Idle),
        (cmd matches ControlCommand::Quit ==> *final(app) == (App {
            should_quit: true,
            ..*old(app)
        }) && act is Idle),
{
    match cmd {
        ControlCommand::Play => {
            match handle_play(app, now_ms, connected) {
                Some(i) => SinkAction::Start(i),
                None => SinkAction::Idle,
            }
        },
        ControlCommand::Stop => {
            let was_playing = matches!(app.session.state, PlaybackState::Playing);
            handle_stop(app, now_ms);
            if was_playing {
                SinkAction::Halt
            } else {
                SinkAction::Idle
            }
        },
        ControlCommand::TogglePause => {
            let before = app.session.state;
            app.session.pause(now_ms);
            match before {
                PlaybackState::Playing => SinkAction::Pause,
                PlaybackState::Paused => SinkAction::Resume,
                PlaybackState::Stopped => SinkAction::Idle,
            }
        },
        ControlCommand::VolumeUp => {
            handle_volume_up(app);
            SinkAction::SetVolume(app.session.volume)
        },
        ControlCommand::VolumeDown => {
            handle_volume_down(app);
            SinkAction::SetVolume(app.session.volume)
        },
        ControlCommand::SetVolume(v) => {
            app.session.set_volume(v);
            SinkAction::SetVolume(app.session.volume)
        },
        ControlCommand::Tune(id) => {
            match find_station(&app.stations, &id) {
                Some(i) => {
                    app.selected_station = Some(i);
                    app.session.play(i, now_ms, connected);
                    app.tracker.begin_connect(now_ms);
                    SinkAction::Start(i)
                },
                None => SinkAction::Idle,
            }
        },
        ControlCommand::TuneNext => {
            let n = app.stations.len();
            if n == 0 {
                SinkAction::Idle
            } else {
                let i = match app.selected_station {
                    Some(s) => if s < n - 1 {
                        s + 1
                    } else {
                        0
                    },
                    None => 0,
                };
                app.selected_station = Some(i);
                app.session.play(i, now_ms, connected);
                app.tracker.begin_connect(now_ms);
                SinkAction::Start(i)
            }
        },
        ControlCommand::TunePrev => {
            let n = app.stations.len();
            if n == 0 {
                SinkAction::Idle
            } else {
                let i = match app.selected_station {
                    Some(s) => if s > 0 {
                        s - 1
                    } else {
                        n - 1
                    },
                    None => 0,
                };
                app.selected_station = Some(i);
                app.session.play(i, now_ms, connected);
                app.tracker.begin_connect(now_ms);
                SinkAction::Start(i)
            }
        },
        ControlCommand::SelectUp => {
            handle_up(app);
            SinkAction::Idle
        },
        ControlCommand::SelectDown => {
            handle_down(app);
            SinkAction::Idle
        },
        ControlCommand::Toggle => {
            match app.session.state {
                PlaybackState::Playing => {
                    handle_stop(app, now_ms);
                    SinkAction::Halt
                },
                PlaybackState::Stopped => {
                    match handle_play(app, now_ms, connected) {
                        Some(i) => SinkAction::Start(i),
                        None => SinkAction::Idle,
                    }
                },
                PlaybackState::Paused => SinkAction::Idle,
            }
        },
        ControlCommand::ToggleHelp => {
            app.show_help = !app.show_help;
            SinkAction::Idle
        },
        ControlCommand::ScrollHistoryUp => {
            handle_history_scroll_up(app);
            SinkAction::Idle
        },
        ControlCommand::ScrollHistoryDown => {
            handle_history_scroll_down(app);
            SinkAction::Idle
        },
        ControlCommand::Quit => {
            app.should_quit = true;
            SinkAction::Idle
        },
    }
}

/// The station the tune-next command lands on.
pub open spec fn spec_tune_next(sel: Option<usize>, n: usize) -> Option<usize> {
    if n == 0 {
        None
    } else {
        match sel {
            Some(s) => if s + 1 < n {
                Some((s + 1) as usize)
            } else {
                Some(0usize)
            },
            None => Some(0usize),
        }
    }
}

/// The station the tune-prev command lands on.
pub open spec fn spec_tune_prev(sel: Option<usize>, n: usize) -> Option<usize> {
    if n == 0 {
        None
    } else {
        match sel {
            Some(s) => if s > 0 {
                Some((s - 1) as usize)
            } else {
                Some((n - 1) as usize)
            },
            None => Some(0usize),
        }
    }
}

/// A play of the selected station was applied: a valid selection takes
/// the play step and starts that station's stream, anything else changes
/// nothing.
pub open spec fn spec_played_selected(
    a: App,
    b: App,
    act: SinkAction,
    now_ms: u64,
    connected: bool,
) -> bool {
    &&& spec_same_shell(a, b)
    &&& b.selected_station == a.selected_station
    &&& ({
        let sel = a.selected_station;
        if sel is Some && sel->0 < a.stations@.len() {
            spec_play_step(a, b, sel->0, now_ms, connected) && act == SinkAction::Start(sel->0)
        } else {
            b.session == a.session && b.tracker == a.tracker && act is Idle
        }
    })
}

/// A hard stop was applied: the session takes the stop step and the sink
/// halts exactly if it was playing.
pub open spec fn spec_stopped(a: App, b: App, act: SinkAction, now_ms: u64) -> bool {
    &&& spec_same_shell(a, b)
    &&& b.selected_station == a.selected_station
    &&& b.tracker == a.tracker
    &&& b.session == a.session.spec_stop(false, now_ms)
    &&& act == if a.session.state is Playing {
        SinkAction::Halt
    } else {
        SinkAction::Idle
    }
}

/// A pause toggle was applied, with the matching sink work.
pub open spec fn spec_pause_toggled(a: App, b: App, act: SinkAction, now_ms: u64) -> bool {
    &&& spec_same_shell(a, b)
    &&& b.selected_station == a.selected_station
    &&& b.tracker == a.tracker
    &&& b.session == a.session.spec_pause(now_ms)
    &&& act == (match a.session.state {
        PlaybackState::Playing => SinkAction::Pause,
        PlaybackState::Paused => SinkAction::Resume,
        PlaybackState::Stopped => SinkAction::Idle,
    })
}

/// The stored volume became `v` and the sink is told so; nothing else
/// moved.
pub open spec fn spec_volume_changed(a: App, b: App, act: SinkAction, v: u32) -> bool {
    &&& spec_same_shell(a, b)
    &&& b.selected_station == a.selected_station
    &&& b.tracker == a.tracker
    &&& b.session == (PlaybackSession { volume: v, ..a.session })
    &&& act == SinkAction::SetVolume(v)
}

/// A tune-by-id was applied: the first station carrying the id is
/// selected and played; an unknown id changes nothing.
pub open spec fn spec_tuned(
    a: App,
    b: App,
    act: SinkAction,
    id: Seq<char>,
    now_ms: u64,
    connected: bool,
) -> bool {
    &&& spec_same_shell(a, b)
    &&& if exists|j: int| 0 <= j < a.stations@.len() && a.stations@[j].id@ == id {
        exists|i: int|
            {
                &&& spec_first_station(a.stations@, id, i)
                &&& b.selected_station == Some(i as usize)
                &&& spec_play_step(a, b, i as usize, now_ms, connected)
                &&& act == SinkAction::Start(i as usize)
            }
    } else {
        b.selected_station == a.selected_station && b.session == a.session && b.tracker == a.tracker
            && act is Idle
    }
}

/// A tune step landed on `target`: it is selected and played; with no
/// stations to land on, nothing changes.
pub open spec fn spec_tuned_step(
    a: App,
    b: App,
    act: SinkAction,
    target: Option<usize>,
    now_ms: u64,
    connected: bool,
) -> bool {
    &&& spec_same_shell(a, b)
    &&& (match target {
        Some(i) => {
            &&& b.selected_station == Some(i)
            &&& spec_play_step(a, b, i, now_ms, connected)
            &&& act == SinkAction::Start(i)
        },
        None => {
            &&& b.selected_station == a.selected_station
            &&& b.session == a.session
            &&& b.tracker == a.tracker
            &&& act is Idle
        },
    })
}

/// The space-bar toggle was applied: stop while playing, play the
/// selection while stopped, nothing while paused.
pub open spec fn spec_toggled(a: App, b: App, act: SinkAction, now_ms: u64, connected: bool) -> bool {
    match a.session.state {
        PlaybackState::Playing => spec_stopped(a, b, act, now_ms),
        PlaybackState::Stopped => spec_played_selected(a, b, act, now_ms, connected),
        PlaybackState::Paused => b == a && act is Idle,
    }
}

} // verus!
