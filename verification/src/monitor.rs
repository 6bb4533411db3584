//! The underrun monitor: stall detection and recovery pacing.
//!
//! Once per tick, while the session is Playing, the shell samples the
//! sink and hands the sample here. The tracker decides whether the sink
//! has stalled, whether the fresh-connect grace window has passed, and
//! whether enough time has elapsed since the previous automatic restart
//! (exponential backoff, capped). Every decision is a pure function of
//! the sample, the clock reading and the tracker's own fields.

use vstd::prelude::*;
use vstd::arithmetic::power2::lemma2_to64;
use vstd::arithmetic::power2::lemma_pow2_strictly_increases;
use vstd::arithmetic::power2::pow2;

verus! {

/// A fresh connect gets this long before stall detection may act.
pub const GRACE_PERIOD_MS: u64 = 5000;

/// A frozen playback position counts as a stall only after the current
/// Playing interval is at least this old.
pub const STALL_MIN_PLAY_MS: u64 = 5000;

/// Backoff before the first automatic restart.
pub const BACKOFF_FLOOR_MS: u64 = 500;

/// Ceiling of the automatic-restart backoff.
pub const BACKOFF_CAP_MS: u64 = 30000;

/// One sample of the sink's health, taken by the shell at a tick.
#[derive(Clone, Copy, Debug, PartialEq, Eq, Structural)]
pub struct SinkStatus {
    /// Number of sources queued on the sink.
    pub queue_len: usize,
    /// The sink reports itself empty.
    pub queue_empty: bool,
    /// The sink reports itself paused.
    pub paused: bool,
    /// The sink's playback position, in milliseconds.
    pub position_ms: u64,
}

/// Per-session stall-detection state.
#[derive(Clone, Copy, Debug, PartialEq, Eq, Structural)]
pub struct UnderrunTracker {
    /// Sink position seen at the previous tick.
    pub last_position_ms: u64,
    /// When the previous tick ran.
    pub last_check_ms: u64,
    /// A connect is in flight; detection is suppressed meanwhile.
    pub station_loading: bool,
    /// Anchor of the grace window: when the latest connect began.
    pub grace_start_ms: u64,
    /// When the latest automatic restart was issued, if any ever was.
    pub last_restart_ms: Option<u64>,
    /// Automatic restarts since the last successful reconnect.
    pub restart_attempts: u32,
    /// Observability flag: the latest tick declared an underrun.
    pub underrun_detected: bool,
}

/// Required pause before restart attempt number `attempts + 1`: the floor
/// doubled `attempts` times, capped.
pub open spec fn spec_backoff_ms(attempts: nat) -> nat {
    if attempts >= 6 {
        BACKOFF_CAP_MS as nat
    } else {
        (BACKOFF_FLOOR_MS as nat) * pow2(attempts)
    }
}

/// Required backoff before the next automatic restart.
pub fn required_backoff_ms(attempts: u32) -> (r: u64)
    ensures
        r == spec_backoff_ms(attempts as nat),
{
    proof {
        lemma2_to64();
    }
    if attempts == 0 {
        500
    } else if attempts == 1 {
        1000
    } else if attempts == 2 {
        2000
    } else if attempts == 3 {
        4000
    } else if attempts == 4 {
        8000
    } else if attempts == 5 {
        16000
    } else {
        30000
    }
}

impl UnderrunTracker {
    /// The clock reading `now_ms` is no earlier than any mark the tracker
    /// holds.
    pub open spec fn sync(self, now_ms: u64) -> bool {
        &&& self.grace_start_ms <= now_ms
        &&& (self.last_restart_ms is Some ==> self.last_restart_ms->0 <= now_ms)
    }

    /// A fresh tracker: nothing observed, nothing suppressed, no restarts.
    pub open spec fn spec_new() -> UnderrunTracker {
        UnderrunTracker {
            last_position_ms: 0,
            last_check_ms: 0,
            station_loading: false,
            grace_start_ms: 0,
            last_restart_ms: None,
            restart_attempts: 0,
            underrun_detected: false,
        }
    }

    pub fn new() -> (t: UnderrunTracker)
        ensures
            t == UnderrunTracker::spec_new(),
    {
        UnderrunTracker {
            last_position_ms: 0,
            last_check_ms: 0,
            station_loading: false,
            grace_start_ms: 0,
            last_restart_ms: None,
            restart_attempts: 0,
            underrun_detected: false,
        }
    }

    /// The sample looks like a stall: the sink says it is empty, or its
    /// queue has drained without being paused, or the position has not
    /// moved since the previous tick although the current Playing
    /// interval (begun at `playback_start_ms`) is well under way.
    pub open spec fn spec_potential_underrun(
        self,
        st: SinkStatus,
        now_ms: u64,
        playback_start_ms: u64,
    ) -> bool {
        ||| st.queue_empty
        ||| (st.queue_len == 0 && !st.paused)
        ||| (st.position_ms == self.last_position_ms && now_ms - playback_start_ms
            > STALL_MIN_PLAY_MS)
    }

    /// The grace window after the latest connect has passed.
    pub open spec fn spec_past_grace(self, now_ms: u64) -> bool {
        now_ms - self.grace_start_ms > GRACE_PERIOD_MS
    }

    /// Enough time has passed since the previous automatic restart; true
    /// outright if none was ever issued.
    pub open spec fn spec_past_backoff(self, now_ms: u64) -> bool {
        match self.last_restart_ms {
            None => true,
            Some(t) => now_ms - t >= spec_backoff_ms(self.restart_attempts as nat),
        }
    }

    /// When a tick must restart: exactly when a stall is seen, no
    /// connect is in flight, the grace window has passed and the backoff
    /// pause has been served.
    pub open spec fn spec_should_restart(
        self,
        st: SinkStatus,
        now_ms: u64,
        playback_start_ms: u64,
    ) -> bool {
        &&& self.spec_potential_underrun(st, now_ms, playback_start_ms)
        &&& !self.station_loading
        &&& self.spec_past_grace(now_ms)
        &&& self.spec_past_backoff(now_ms)
    }

    /// One monitor tick. `playback_start_ms` is the session's mark for
    /// the current Playing interval. Returns whether the caller must
    /// restart playback; on a restart the backoff marks advance, and
    /// either way the position memory and check mark are refreshed.
    pub fn tick(&mut self, st: SinkStatus, now_ms: u64, playback_start_ms: u64) -> (restart: bool)
        requires
            old(self).sync(now_ms),
            playback_start_ms <= now_ms,
            old(self).restart_attempts < u32::MAX,
        ensures
            restart == old(self).spec_should_restart(st, now_ms, playback_start_ms),
            final(self).underrun_detected == restart,
            restart ==> final(self).last_restart_ms == Some(now_ms),
            restart ==> final(self).restart_attempts == old(self).restart_attempts + 1,
            !restart ==> final(self).last_restart_ms == old(self).last_restart_ms,
            !restart ==> final(self).restart_attempts == old(self).restart_attempts,
            final(self).last_position_ms == st.position_ms,
            final(self).last_check_ms == now_ms,
            final(self).station_loading == old(self).station_loading,
            final(self).grace_start_ms == old(self).grace_start_ms,
            final(self).sync(now_ms),
    {
        let potential_underrun = st.queue_empty || (st.queue_len == 0 && !st.paused) || (
        st.position_ms == self.last_position_ms && now_ms - playback_start_ms > STALL_MIN_PLAY_MS);
        let past_grace = now_ms - self.grace_start_ms > GRACE_PERIOD_MS;
        let past_backoff = match self.last_restart_ms {
            None => true,
            Some(t) => now_ms - t >= required_backoff_ms(self.restart_attempts),
        };
        let restart = potential_underrun && !self.station_loading && past_grace && past_backoff;
        if restart {
            self.last_restart_ms = Some(now_ms);
            self.restart_attempts = self.restart_attempts + 1;
            self.underrun_detected = true;
        } else {
            self.underrun_detected = false;
        }
        self.last_position_ms = st.position_ms;
        self.last_check_ms = now_ms;
        restart
    }

    /// A connect attempt begins: suppress detection and anchor a fresh
    /// grace window.
    pub fn begin_connect(&mut self, now_ms: u64)
        requires
            old(self).sync(now_ms),
        ensures
            *final(self) == (UnderrunTracker {
                station_loading: true,
                grace_start_ms: now_ms,
                ..*old(self)
            }),
            final(self).sync(now_ms),
    {
        self.station_loading = true;
        self.grace_start_ms = now_ms;
    }

    /// The stream is bound: lift the suppression and collapse the backoff
    /// back to its floor.
    pub fn connect_succeeded(&mut self)
        ensures
            *final(self) == (UnderrunTracker {
                station_loading: false,
                restart_attempts: 0,
                ..*old(self)
            }),
            spec_backoff_ms(final(self).restart_attempts as nat) == BACKOFF_FLOOR_MS,
    {
        proof {
            lemma2_to64();
        }
        self.station_loading = false;
        self.restart_attempts = 0;
    }
}

/// Backoff monotonicity: with no intervening success the required backoff
/// never shrinks as the attempt counter grows.
pub proof fn lemma_backoff_monotone(m: nat, n: nat)
    requires
        m <= n,
    ensures
        spec_backoff_ms(m) <= spec_backoff_ms(n),
{
    lemma2_to64();
    if n < 6 {
        if m < n {
            lemma_pow2_strictly_increases(m, n);
        }
    } else if m < 6 {
        if m < 5 {
            lemma_pow2_strictly_increases(m, 5);
        }
    }
}

/// Each failed attempt doubles the required backoff until the cap, and
/// attempt zero (the state after any successful reconnect) requires only
/// the floor.
pub proof fn lemma_backoff_doubles(n: nat)
    ensures
        spec_backoff_ms(0) == BACKOFF_FLOOR_MS,
        spec_backoff_ms(n + 1) == if 2 * spec_backoff_ms(n) <= BACKOFF_CAP_MS {
            2 * spec_backoff_ms(n)
        } else {
            BACKOFF_CAP_MS as nat
        },
{
    lemma2_to64();
}

/// While the last restart is younger than the required backoff, no
/// further restart fires, whatever the sink sample shows: successive
/// automatic restarts are rate-limited by the backoff schedule.
pub proof fn lemma_backoff_rate_limits(
    t: UnderrunTracker,
    st: SinkStatus,
    now_ms: u64,
    playback_start_ms: u64,
)
    requires
        t.last_restart_ms matches Some(r) && now_ms - r < spec_backoff_ms(
            t.restart_attempts as nat,
        ),
    ensures
        !t.spec_should_restart(st, now_ms, playback_start_ms),
{
}

/// While a connect is in flight the monitor never restarts, whatever
/// the sink sample shows.
pub proof fn lemma_loading_suppresses_restart(
    t: UnderrunTracker,
    st: SinkStatus,
    now_ms: u64,
    playback_start_ms: u64,
)
    requires
        t.station_loading,
    ensures
        !t.spec_should_restart(st, now_ms, playback_start_ms),
{
}

/// Grace period: a stall observed within the grace window after the
/// latest connect never triggers a restart, whatever else the sample
/// shows.
pub proof fn lemma_grace_period(
    t: UnderrunTracker,
    st: SinkStatus,
    now_ms: u64,
    playback_start_ms: u64,
)
    requires
        now_ms - t.grace_start_ms <= GRACE_PERIOD_MS,
    ensures
        !t.spec_should_restart(st, now_ms, playback_start_ms),
{
}

} // verus!
