//! The playback session: the single authoritative playback state.
//!
//! The session owns the Playing/Paused/Stopped state machine, the
//! cumulative elapsed-time accounting and the stored volume. All clock
//! readings come in as plain milliseconds, so every transition is a pure
//! step whose result is stated exactly by a spec function; the unverified
//! shell feeds the session the current instant and performs the returned
//! sink work.
//!
//! Volume is held in hundredths of unit gain: `100` is unity, `200` is
//! the ceiling (twice unity).

use vstd::prelude::*;

verus! {

/// The one authoritative playback state.
#[derive(Clone, Copy, Debug, PartialEq, Eq, Structural)]
pub enum PlaybackState {
    Playing,
    Paused,
    Stopped,
}

/// Ceiling of the stored volume, in hundredths of unit gain.
pub const MAX_VOLUME: u32 = 200;

/// Step taken by the volume-up and volume-down commands, in hundredths.
pub const VOLUME_STEP: u32 = 10;

/// Volume a fresh configuration starts with: unity gain.
pub const DEFAULT_VOLUME: u32 = 100;

/// The playback session. Timestamps are milliseconds of a monotone
/// process clock; `None` fields mean "not in the state that records it".
#[derive(Clone, Copy, Debug, PartialEq, Eq, Structural)]
pub struct PlaybackSession {
    /// The state machine's current value.
    pub state: PlaybackState,
    /// When the current Playing interval began; `Some` exactly while Playing.
    pub playback_start_ms: Option<u64>,
    /// Accumulated audible play time of the current station binding.
    pub total_played_ms: u64,
    /// When the last pause or stop transition happened.
    pub last_pause_ms: Option<u64>,
    /// Index of the station bound to the sink, if any ever was.
    pub active_station: Option<usize>,
    /// Stored volume in hundredths of unit gain, never above `MAX_VOLUME`.
    pub volume: u32,
}

impl PlaybackSession {
    /// Internal consistency: the start mark exists exactly while Playing,
    /// and the accumulated time never runs ahead of the clock marks, so
    /// folding an interval can never overflow.
    pub open spec fn inv(self) -> bool {
        &&& (self.state is Playing) <==> (self.playback_start_ms is Some)
        &&& (self.state is Playing ==> self.total_played_ms <= self.playback_start_ms->0)
        &&& (!(self.state is Playing) && self.last_pause_ms is Some ==> self.total_played_ms
            <= self.last_pause_ms->0)
        &&& (!(self.state is Playing) && self.last_pause_ms is None ==> self.total_played_ms == 0)
        &&& self.volume <= MAX_VOLUME
    }

    /// The clock reading `now_ms` is no earlier than any mark the session
    /// holds; true whenever the marks came from the same monotone clock.
    pub open spec fn sync(self, now_ms: u64) -> bool {
        &&& (self.playback_start_ms is Some ==> self.playback_start_ms->0 <= now_ms)
        &&& (self.last_pause_ms is Some ==> self.last_pause_ms->0 <= now_ms)
    }

    /// A fresh session: stopped, nothing played, no station bound.
    pub open spec fn spec_new(volume: u32) -> PlaybackSession {
        PlaybackSession {
            state: PlaybackState::Stopped,
            playback_start_ms: None,
            total_played_ms: 0,
            last_pause_ms: None,
            active_station: None,
            volume,
        }
    }

    pub fn new(volume: u32) -> (s: PlaybackSession)
        requires
            volume <= MAX_VOLUME,
        ensures
            s == PlaybackSession::spec_new(volume),
            s.inv(),
    {
        PlaybackSession {
            state: PlaybackState::Stopped,
            playback_start_ms: None,
            total_played_ms: 0,
            last_pause_ms: None,
            active_station: None,
            volume,
        }
    }

    /// What a play attempt does: a successful connect begins a wholly new
    /// binding (accumulated time restarts at zero), a failed one leaves
    /// the session stopped with the superseded binding gone.
    pub open spec fn spec_play(self, station: usize, now_ms: u64, connected: bool) -> PlaybackSession {
        if connected {
            PlaybackSession {
                state: PlaybackState::Playing,
                playback_start_ms: Some(now_ms),
                total_played_ms: 0,
                last_pause_ms: None,
                active_station: Some(station),
                volume: self.volume,
            }
        } else {
            PlaybackSession {
                state: PlaybackState::Stopped,
                playback_start_ms: None,
                total_played_ms: 0,
                last_pause_ms: None,
                active_station: Some(station),
                volume: self.volume,
            }
        }
    }

    /// What `stop` does: while Playing it folds the open interval and
    /// stops; a hard stop on a stopped session changes nothing; a soft
    /// stop on a stopped session resumes the sink's remaining content;
    /// while Paused it is a no-op.
    pub open spec fn spec_stop(self, soft: bool, now_ms: u64) -> PlaybackSession {
        match self.state {
            PlaybackState::Playing => PlaybackSession {
                state: PlaybackState::Stopped,
                playback_start_ms: None,
                total_played_ms: (self.total_played_ms + (now_ms
                    - self.playback_start_ms->0)) as u64,
                last_pause_ms: Some(now_ms),
                ..self
            },
            PlaybackState::Stopped => if soft {
                PlaybackSession {
                    state: PlaybackState::Playing,
                    playback_start_ms: Some(now_ms),
                    ..self
                }
            } else {
                self
            },
            PlaybackState::Paused => self,
        }
    }

    /// What `pause` does: while Playing it folds the open interval and
    /// pauses; while Paused it resumes, opening a new interval at `now_ms`;
    /// while Stopped it is a no-op.
    pub open spec fn spec_pause(self, now_ms: u64) -> PlaybackSession {
        match self.state {
            PlaybackState::Playing => PlaybackSession {
                state: PlaybackState::Paused,
                playback_start_ms: None,
                total_played_ms: (self.total_played_ms + (now_ms
                    - self.playback_start_ms->0)) as u64,
                last_pause_ms: Some(now_ms),
                ..self
            },
            PlaybackState::Paused => PlaybackSession {
                state: PlaybackState::Playing,
                playback_start_ms: Some(now_ms),
                ..self
            },
            PlaybackState::Stopped => self,
        }
    }

    /// Audible play time of the current binding as of `now_ms`: the folded
    /// total plus, while Playing, the still-open interval.
    pub open spec fn spec_current_played(self, now_ms: u64) -> int {
        if self.state is Playing {
            self.total_played_ms + (now_ms - self.playback_start_ms->0)
        } else {
            self.total_played_ms as int
        }
    }

    /// A volume request clamped into `[0, MAX_VOLUME]` hundredths.
    pub open spec fn spec_clamp_volume(v: i32) -> u32 {
        if v < 0 {
            0
        } else if v > MAX_VOLUME {
            MAX_VOLUME
        } else {
            v as u32
        }
    }

    /// Begin playback of `station`, superseding whatever binding existed.
    /// `connected` is the outcome of the stream pipeline's connect attempt,
    /// which the caller performs; on failure the session is left stopped.
    pub fn play(&mut self, station: usize, now_ms: u64, connected: bool)
        requires
            old(self).inv(),
            old(self).sync(now_ms),
        ensures
            *final(self) == old(self).spec_play(station, now_ms, connected),
            final(self).inv(),
            final(self).sync(now_ms),
            connected ==> final(self).state is Playing,
            !connected ==> final(self).state is Stopped,
            final(self).active_station == Some(station),
            final(self).total_played_ms == 0,
    {
        self.active_station = Some(station);
        self.total_played_ms = 0;
        self.last_pause_ms = None;
        if connected {
            self.state = PlaybackState::Playing;
            self.playback_start_ms = Some(now_ms);
        } else {
            self.state = PlaybackState::Stopped;
            self.playback_start_ms = None;
        }
    }

    /// Stop playback, folding the open interval into the total. With
    /// `soft` set, a stop on an already stopped session instead resumes
    /// the sink's remaining content.
    pub fn stop(&mut self, soft: bool, now_ms: u64)
        requires
            old(self).inv(),
            old(self).sync(now_ms),
        ensures
            *final(self) == old(self).spec_stop(soft, now_ms),
            final(self).inv(),
            final(self).sync(now_ms),
            old(self).state is Playing ==> final(self).state is Stopped
                && final(self).total_played_ms == old(self).total_played_ms + now_ms - old(
                self,
            ).playback_start_ms->0,
            old(self).state is Stopped && !soft ==> *final(self) == *old(self),
            old(self).state is Paused ==> *final(self) == *old(self),
            final(self).total_played_ms >= old(self).total_played_ms,
    {
        match self.state {
            PlaybackState::Playing => {
                let start = match self.playback_start_ms {
                    Some(t) => t,
                    None => now_ms,  // unreachable under the invariant
                };
                self.total_played_ms = self.total_played_ms + (now_ms - start);
                self.playback_start_ms = None;
                self.last_pause_ms = Some(now_ms);
                self.state = PlaybackState::Stopped;
            },
            PlaybackState::Stopped => {
                if soft {
                    self.state = PlaybackState::Playing;
                    self.playback_start_ms = Some(now_ms);
                }
            },
            PlaybackState::Paused => {},
        }
    }

    /// Toggle between Playing and Paused, folding or opening an interval;
    /// a no-op while Stopped.
    pub fn pause(&mut self, now_ms: u64)
        requires
            old(self).inv(),
            old(self).sync(now_ms),
        ensures
            *final(self) == old(self).spec_pause(now_ms),
            final(self).inv(),
            final(self).sync(now_ms),
            old(self).state is Playing ==> final(self).state is Paused
                && final(self).total_played_ms == old(self).total_played_ms + now_ms - old(
                self,
            ).playback_start_ms->0,
            old(self).state is Paused ==> final(self).state is Playing,
            old(self).state is Stopped ==> *final(self) == *old(self),
            final(self).total_played_ms >= old(self).total_played_ms,
    {
        match self.state {
            PlaybackState::Playing => {
                let start = match self.playback_start_ms {
                    Some(t) => t,
                    None => now_ms,  // unreachable under the invariant
                };
                self.total_played_ms = self.total_played_ms + (now_ms - start);
                self.playback_start_ms = None;
                self.last_pause_ms = Some(now_ms);
                self.state = PlaybackState::Paused;
            },
            PlaybackState::Paused => {
                self.state = PlaybackState::Playing;
                self.playback_start_ms = Some(now_ms);
            },
            PlaybackState::Stopped => {},
        }
    }

    /// Store a requested volume, clamped into `[0, MAX_VOLUME]`.
    pub fn set_volume(&mut self, v: i32)
        requires
            old(self).inv(),
        ensures
            final(self).volume == PlaybackSession::spec_clamp_volume(v),
            *final(self) == (PlaybackSession { volume: final(self).volume, ..*old(self) }),
            final(self).inv(),
    {
        if v < 0 {
            self.volume = 0;
        } else if v > 200 {
            self.volume = MAX_VOLUME;
        } else {
            self.volume = v as u32;
        }
    }

    /// Raise the stored volume by one step, saturating at the ceiling.
    pub fn volume_up(&mut self)
        requires
            old(self).inv(),
        ensures
            final(self).volume == if old(self).volume + VOLUME_STEP <= MAX_VOLUME {
                (old(self).volume + VOLUME_STEP) as u32
            } else {
                MAX_VOLUME
            },
            *final(self) == (PlaybackSession { volume: final(self).volume, ..*old(self) }),
            final(self).inv(),
    {
        if self.volume + VOLUME_STEP <= MAX_VOLUME {
            self.volume = self.volume + VOLUME_STEP;
        } else {
            self.volume = MAX_VOLUME;
        }
    }

    /// Lower the stored volume by one step, saturating at zero.
    pub fn volume_down(&mut self)
        requires
            old(self).inv(),
        ensures
            final(self).volume == if old(self).volume >= VOLUME_STEP {
                (old(self).volume - VOLUME_STEP) as u32
            } else {
                0u32
            },
            *final(self) == (PlaybackSession { volume: final(self).volume, ..*old(self) }),
            final(self).inv(),
    {
        if self.volume >= VOLUME_STEP {
            self.volume = self.volume - VOLUME_STEP;
        } else {
            self.volume = 0;
        }
    }

    /// Audible play time of the current binding as of `now_ms`.
    pub fn current_played_ms(&self, now_ms: u64) -> (r: u64)
        requires
            self.inv(),
            self.sync(now_ms),
        ensures
            r == self.spec_current_played(now_ms),
    {
        match self.playback_start_ms {
            Some(start) => self.total_played_ms + (now_ms - start),
            None => self.total_played_ms,
        }
    }
}

/// Time accounting: across play at `t0`, pause at `t1`, resume at `t2`
/// and stop at `t3`, the accumulated play time equals the sum of the two
/// Playing intervals, whatever session the sequence started from.
pub proof fn lemma_time_accounting(
    s: PlaybackSession,
    station: usize,
    t0: u64,
    t1: u64,
    t2: u64,
    t3: u64,
)
    requires
        t0 <= t1 <= t2 <= t3,
    ensures
        ({
            let s1 = s.spec_play(station, t0, true);
            let s2 = s1.spec_pause(t1);
            let s3 = s2.spec_pause(t2);
            let s4 = s3.spec_stop(false, t3);
            s4.total_played_ms == (t1 - t0) + (t3 - t2)
        }),
{
}

/// Pausing at an instant loses no time: the session's accounted play time
/// at that instant is the same before and after the transition.
pub proof fn lemma_pause_preserves_elapsed(s: PlaybackSession, now_ms: u64)
    requires
        s.inv(),
        s.sync(now_ms),
    ensures
        s.spec_pause(now_ms).spec_current_played(now_ms) == s.spec_current_played(now_ms),
{
}

/// Stopping at an instant loses no time either: the folded total after a
/// hard stop equals the accounted play time at that instant.
pub proof fn lemma_stop_preserves_elapsed(s: PlaybackSession, now_ms: u64)
    requires
        s.inv(),
        s.sync(now_ms),
    ensures
        s.spec_stop(false, now_ms).spec_current_played(now_ms) == s.spec_current_played(now_ms),
{
}

/// Between two instants with no transition in between, accounted play
/// time accrues exactly while Playing, and not at all otherwise.
pub proof fn lemma_elapsed_accrues_only_while_playing(s: PlaybackSession, t1: u64, t2: u64)
    requires
        s.inv(),
        s.sync(t1),
        t1 <= t2,
    ensures
        s.spec_current_played(t2) - s.spec_current_played(t1) == if s.state is Playing {
            t2 - t1
        } else {
            0int
        },
{
}

/// Idempotent stop: a second hard stop changes nothing at all, so no
/// elapsed time is counted twice; and unless the session was sitting in
/// Paused (where a hard stop is a no-op by design), it ends Stopped.
pub proof fn lemma_stop_idempotent(s: PlaybackSession, t1: u64, t2: u64)
    requires
        s.inv(),
        s.sync(t1),
        t1 <= t2,
    ensures
        ({
            let s1 = s.spec_stop(false, t1);
            let s2 = s1.spec_stop(false, t2);
            &&& s2 == s1
            &&& s2.total_played_ms == s1.total_played_ms
            &&& !(s.state is Paused) ==> s2.state is Stopped
        }),
{
}

/// Command convergence: a play of `a`, a stop, and a play of `b` reach the
/// same final session whether the stop lands before or between the plays,
/// provided the play of `b` arrives last; either way the session ends
/// Playing with `b` as the active station.
pub proof fn lemma_command_convergence(
    s: PlaybackSession,
    a: usize,
    b: usize,
    t0: u64,
    t1: u64,
    t2: u64,
)
    requires
        s.inv(),
        s.sync(t0),
        t0 <= t1 <= t2,
    ensures
        ({
            let r1 = s.spec_play(a, t0, true).spec_stop(false, t1).spec_play(b, t2, true);
            let r2 = s.spec_stop(false, t0).spec_play(a, t1, true).spec_play(b, t2, true);
            &&& r1 == r2
            &&& r1.state is Playing
            &&& r1.active_station == Some(b)
        }),
{
}

} // verus!
