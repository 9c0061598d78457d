use vstd::prelude::*;

use std::sync::atomic::{AtomicBool, AtomicU64, Ordering};
use std::sync::Arc;

verus! {

// ---------------------------------------------------------------------------
// Time servers
// ---------------------------------------------------------------------------

/// The public time servers that the clock asks, in the order it asks them.
#[derive(Debug, Clone, Copy, PartialEq, Eq, Structural)]
pub enum NtpServers {
    TimeGoogleCom,
    PoolNtpOrg,
    TimeWindowsCom,
    TimeAppleCom,
    TimeCloudflareCom,
}

impl NtpServers {
    /// The server's `host:port` endpoint.
    pub fn address(&self) -> (r: &'static str)
        ensures
            r@ == match *self {
                NtpServers::TimeGoogleCom => "time.google.com:123"@,
                NtpServers::PoolNtpOrg => "pool.ntp.org:123"@,
                NtpServers::TimeWindowsCom => "time.windows.com:123"@,
                NtpServers::TimeAppleCom => "time.apple.com:123"@,
                NtpServers::TimeCloudflareCom => "time.cloudflare.com:123"@,
            },
    {
        match self {
            NtpServers::TimeGoogleCom => "time.google.com:123",
            NtpServers::PoolNtpOrg => "pool.ntp.org:123",
            NtpServers::TimeWindowsCom => "time.windows.com:123",
            NtpServers::TimeAppleCom => "time.apple.com:123",
            NtpServers::TimeCloudflareCom => "time.cloudflare.com:123",
        }
    }

    /// Every server, in the order in which they are tried.
    pub fn all() -> (r: Vec<NtpServers>)
        ensures
            r@ == seq![
                NtpServers::TimeGoogleCom,
                NtpServers::PoolNtpOrg,
                NtpServers::TimeWindowsCom,
                NtpServers::TimeAppleCom,
                NtpServers::TimeCloudflareCom,
            ],
    {
        let mut r: Vec<NtpServers> = Vec::new();
        r.push(NtpServers::TimeGoogleCom);
        r.push(NtpServers::PoolNtpOrg);
        r.push(NtpServers::TimeWindowsCom);
        r.push(NtpServers::TimeAppleCom);
        r.push(NtpServers::TimeCloudflareCom);
        assert(r@ =~= seq![
            NtpServers::TimeGoogleCom,
            NtpServers::PoolNtpOrg,
            NtpServers::TimeWindowsCom,
            NtpServers::TimeAppleCom,
            NtpServers::TimeCloudflareCom,
        ]);
        r
    }
}

/// Seconds from 1900-01-01, where time-protocol timestamps start, to the
/// Unix epoch.
pub const NTP_UNIX_OFFSET: u64 = 2_208_988_800;

/// A time-protocol timestamp in Unix seconds; `None` for one before 1970.
pub fn ntp_to_unix(ntp_seconds: u64) -> (r: Option<u64>)
    ensures
        match r {
            Some(t) => ntp_seconds >= NTP_UNIX_OFFSET && t == ntp_seconds - NTP_UNIX_OFFSET,
            None => ntp_seconds < NTP_UNIX_OFFSET,
        },
{
    if ntp_seconds >= NTP_UNIX_OFFSET {
        Some(ntp_seconds - NTP_UNIX_OFFSET)
    } else {
        None
    }
}

/// The number of servers in the catalogue.
pub const NTP_SERVER_COUNT: usize = 5;

/// What a fetch of the network time does next.
#[derive(Debug, Clone, Copy, PartialEq, Eq, Structural)]
pub enum FetchStep {
    /// The time is known, in Unix seconds.
    Done(u64),
    /// Ask the server at this position of the catalogue.
    Ask(usize),
    /// Every server has been asked and none gave a usable answer.
    GiveUp,
}

pub open spec fn spec_fetch_step(index: usize, answer: Option<u64>) -> FetchStep {
    if answer matches Some(s) && s >= NTP_UNIX_OFFSET {
        FetchStep::Done((answer.unwrap() - NTP_UNIX_OFFSET) as u64)
    } else if index + 1 < NTP_SERVER_COUNT {
        FetchStep::Ask((index + 1) as usize)
    } else {
        FetchStep::GiveUp
    }
}

/// The step after the server at `index` of the catalogue gave `answer`, its
/// transmit time in time-protocol seconds (`None` where it did not answer):
/// the first usable answer wins; otherwise the next server is asked, in
/// catalogue order, until none is left.
pub fn fetch_step(index: usize, answer: Option<u64>) -> (r: FetchStep)
    ensures
        r == spec_fetch_step(index, answer),
{
    match answer {
        Some(s) => if s >= NTP_UNIX_OFFSET {
            return FetchStep::Done(s - NTP_UNIX_OFFSET);
        },
        None => {},
    }
    if index < NTP_SERVER_COUNT - 1 {
        FetchStep::Ask(index + 1)
    } else {
        FetchStep::GiveUp
    }
}

// ---------------------------------------------------------------------------
// The clock's decisions
// ---------------------------------------------------------------------------

/// Milliseconds between two one-second advances of the clock.
pub const TICK_INTERVAL_MS: u64 = 1000;

/// Milliseconds between two synchronisations with a time server.
pub const SYNC_INTERVAL_MS: u64 = 600_000;

/// Milliseconds after a failed synchronisation before the next attempt.
pub const SYNC_RETRY_MS: u64 = 60_000;

/// What the synchronisation loop knows: the clock in Unix seconds, and when
/// (in milliseconds of its own monotonic time) it last advanced the clock and
/// last synchronised it.
#[derive(Debug, Clone, Copy, PartialEq, Eq, Structural)]
pub struct ClockState {
    pub current: u64,
    pub last_tick_ms: u64,
    pub last_sync_ms: u64,
}

pub open spec fn elapsed(since: u64, now: u64) -> int {
    if now >= since {
        now - since
    } else {
        0
    }
}

pub open spec fn spec_sync_due(s: ClockState, now_ms: u64) -> bool {
    elapsed(s.last_sync_ms, now_ms) >= SYNC_INTERVAL_MS
}

/// The state after a synchronisation attempt: a fetched time replaces the
/// clock; a failure leaves it and schedules a retry.
pub open spec fn spec_after_sync(s: ClockState, now_ms: u64, fetched: Option<u64>) -> ClockState {
    match fetched {
        Some(t) => ClockState { current: t, last_sync_ms: now_ms, ..s },
        None => ClockState {
            last_sync_ms: if now_ms >= SYNC_INTERVAL_MS - SYNC_RETRY_MS {
                (now_ms - (SYNC_INTERVAL_MS - SYNC_RETRY_MS)) as u64
            } else {
                0
            },
            ..s
        },
    }
}

/// The state after a poll: a second is added once a full interval has passed.
pub open spec fn spec_after_tick(s: ClockState, now_ms: u64) -> ClockState {
    if elapsed(s.last_tick_ms, now_ms) >= TICK_INTERVAL_MS {
        ClockState {
            current: if s.current < u64::MAX {
                (s.current + 1) as u64
            } else {
                s.current
            },
            last_tick_ms: now_ms,
            ..s
        }
    } else {
        s
    }
}

impl ClockState {
    /// The state of a loop that starts at `now_ms` with the clock at `current`.
    pub fn start(current: u64, now_ms: u64) -> (r: Self)
        ensures
            r == (ClockState { current, last_tick_ms: now_ms, last_sync_ms: now_ms }),
    {
        ClockState { current, last_tick_ms: now_ms, last_sync_ms: now_ms }
    }

    /// Whether a synchronisation with a time server is due at `now_ms`.
    pub fn sync_due(&self, now_ms: u64) -> (r: bool)
        ensures
            r == spec_sync_due(*self, now_ms),
    {
        now_ms >= self.last_sync_ms && now_ms - self.last_sync_ms >= SYNC_INTERVAL_MS
    }

    pub fn after_sync(&self, now_ms: u64, fetched: Option<u64>) -> (r: Self)
        ensures
            r == spec_after_sync(*self, now_ms, fetched),
    {
        match fetched {
            Some(t) => ClockState { current: t, last_sync_ms: now_ms, ..*self },
            None => {
                let back: u64 = SYNC_INTERVAL_MS - SYNC_RETRY_MS;
                ClockState {
                    last_sync_ms: if now_ms >= back {
                        now_ms - back
                    } else {
                        0
                    },
                    ..*self
                }
            },
        }
    }

    pub fn after_tick(&self, now_ms: u64) -> (r: Self)
        ensures
            r == spec_after_tick(*self, now_ms),
    {
        if now_ms >= self.last_tick_ms && now_ms - self.last_tick_ms >= TICK_INTERVAL_MS {
            ClockState {
                current: if self.current < u64::MAX {
                    self.current + 1
                } else {
                    self.current
                },
                last_tick_ms: now_ms,
                ..*self
            }
        } else {
            *self
        }
    }
}

/// Between synchronisations the clock never goes back: a poll advances it or
/// leaves it, and a failed synchronisation leaves it. Only a fetched time can
/// move it backwards.
pub proof fn lemma_clock_moves_back_only_on_sync(s: ClockState, now_ms: u64, fetched: Option<u64>)
    ensures
        spec_after_tick(s, now_ms).current >= s.current,
        fetched is None ==> spec_after_sync(s, now_ms, fetched).current == s.current,
        spec_after_sync(s, now_ms, fetched).current < s.current ==> fetched is Some,
{
}

// ---------------------------------------------------------------------------
// The shared clock
// ---------------------------------------------------------------------------

/// Relies on `SystemTime::now` and `duration_since(UNIX_EPOCH)`: the wall
/// clock in whole Unix seconds, 0 where it reads before 1970. Nothing is
/// promised of the value.
#[verifier::external_body]
fn unix_now() -> (r: u64) {
    std::time::SystemTime::now().duration_since(std::time::UNIX_EPOCH).map(|d| d.as_secs()).unwrap_or(
        0,
    )
}

/// Relies on `AtomicBool::store`, which panics only for the `Acquire` and
/// `AcqRel` orderings, so that a destructor may call it.
#[verifier::external_body]
fn raise_flag(flag: &AtomicBool)
    opens_invariants none
    no_unwind
{
    flag.store(true, Ordering::SeqCst)
}

/// A clock in Unix seconds shared with a background synchronisation task, and
/// the flag that tells that task to stop.
pub struct TimeManager {
    current_time: Arc<AtomicU64>,
    stop_signal: Arc<AtomicBool>,
    started: AtomicBool,
}

impl TimeManager {
    /// A stopped clock, seeded from the local wall clock.
    pub fn new() -> (r: Self) {
        let now = unix_now();
        TimeManager {
            current_time: Arc::new(AtomicU64::new(now)),
            stop_signal: Arc::new(AtomicBool::new(false)),
            started: AtomicBool::new(false),
        }
    }

    /// Claims the right to launch the background task: true for the first
    /// caller only, so that one clock never runs two tasks.
    pub fn claim_start(&self) -> bool {
        self.started.compare_exchange(false, true, Ordering::SeqCst, Ordering::SeqCst).is_ok()
    }

    /// The clock's current reading; it never blocks.
    pub fn get_time(&self) -> u64 {
        self.current_time.load(Ordering::SeqCst)
    }

    /// Tells the background task to stop; does not wait for it.
    pub fn stop(&self) {
        self.stop_signal.store(true, Ordering::SeqCst);
    }

    /// A handle on the same clock and stop flag, for the task that keeps
    /// the clock.
    pub fn share(&self) -> (r: ClockHandle) {
        ClockHandle {
            current_time: Arc::clone(&self.current_time),
            stop_signal: Arc::clone(&self.stop_signal),
        }
    }
}

impl Drop for TimeManager {
    /// Dropping the clock stops its background task, without waiting for it.
    fn drop(&mut self)
        opens_invariants none
        no_unwind
    {
        raise_flag(&self.stop_signal);
    }
}

/// The background task's side of a `TimeManager`.
pub struct ClockHandle {
    current_time: Arc<AtomicU64>,
    stop_signal: Arc<AtomicBool>,
}

impl ClockHandle {
    pub fn get_time(&self) -> u64 {
        self.current_time.load(Ordering::SeqCst)
    }

    /// Sets the clock.
    pub fn set_time(&self, t: u64) {
        self.current_time.store(t, Ordering::SeqCst);
    }

    /// Whether a stop has been asked for.
    pub fn stop_requested(&self) -> bool {
        self.stop_signal.load(Ordering::SeqCst)
    }
}

} // verus!
