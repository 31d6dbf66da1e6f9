//! The heartbeat: a cheap request sent on a fixed schedule, so that a dead
//! connection is noticed before a caller's request meets it.
//!
//! A [`Heartbeat`] keeps the schedule and nothing else. Its owner polls it
//! with the current time, sends a ping through the ordinary request path
//! when told to, and reports how the ping went. A failed ping is counted and
//! otherwise forgotten: the next request that needs the connection rebuilds
//! it.

use vstd::prelude::*;

verus! {

/// Default time between two pings, in milliseconds.
pub const DEFAULT_HEARTBEAT_INTERVAL_MS: u64 = 30_000;

/// What the owner of a heartbeat does next.
#[derive(Clone, Copy, Debug, PartialEq, Eq)]
pub enum Beat {
    /// Send a ping now.
    Ping,
    /// Nothing is due; poll again in this many milliseconds.
    Wait(u64),
    /// The heartbeat was cancelled.
    Stop,
}

/// The sum of two times, held at the largest value a `u64` can carry.
pub open spec fn saturating_sum(a: u64, b: u64) -> u64 {
    if a + b > u64::MAX {
        u64::MAX
    } else {
        (a + b) as u64
    }
}

/// A heartbeat as plain values. Times are milliseconds on the owner's clock.
pub struct HeartbeatModel {
    /// Time between two pings.
    pub interval_ms: u64,
    /// When the next ping is due.
    pub next_tick_ms: u64,
    /// Whether the heartbeat was cancelled.
    pub cancelled: bool,
    /// How many pings were asked for.
    pub pings: u64,
    /// How many pings were reported as failed.
    pub failures: u64,
}

impl HeartbeatModel {
    /// A heartbeat started at `now_ms`: its first ping is due at once.
    pub open spec fn started(interval_ms: u64, now_ms: u64) -> Self {
        HeartbeatModel { interval_ms, next_tick_ms: now_ms, cancelled: false, pings: 0, failures: 0 }
    }

    /// The heartbeat and its answer when polled at `now_ms`: a cancelled
    /// heartbeat stops; a due ping is asked for, and the one after it is due
    /// one interval after this one was; otherwise the owner waits for the
    /// time that is left.
    pub open spec fn poll(self, now_ms: u64) -> (Self, Beat) {
        if self.cancelled {
            (self, Beat::Stop)
        } else if now_ms >= self.next_tick_ms {
            (
                HeartbeatModel {
                    next_tick_ms: saturating_sum(self.next_tick_ms, self.interval_ms),
                    pings: saturating_sum(self.pings, 1),
                    ..self
                },
                Beat::Ping,
            )
        } else {
            (self, Beat::Wait((self.next_tick_ms - now_ms) as u64))
        }
    }

    /// The heartbeat after a ping was reported: a failure is counted, and
    /// nothing else changes.
    pub open spec fn reported(self, ok: bool) -> Self {
        if ok {
            self
        } else {
            HeartbeatModel { failures: saturating_sum(self.failures, 1), ..self }
        }
    }

    /// The heartbeat, cancelled.
    pub open spec fn stopped(self) -> Self {
        HeartbeatModel { cancelled: true, ..self }
    }

    /// Whether, at `now_ms`, every due ping has been asked for and the
    /// next one is due within one interval.
    pub open spec fn settled(self, now_ms: u64) -> bool {
        now_ms < self.next_tick_ms <= now_ms + self.interval_ms
    }
}

/// The schedule of a client's heartbeat.
#[derive(Clone, Copy, Debug)]
pub struct Heartbeat {
    interval_ms: u64,
    next_tick_ms: u64,
    cancelled: bool,
    pings: u64,
    failures: u64,
}

impl View for Heartbeat {
    type V = HeartbeatModel;

    closed spec fn view(&self) -> HeartbeatModel {
        HeartbeatModel {
            interval_ms: self.interval_ms,
            next_tick_ms: self.next_tick_ms,
            cancelled: self.cancelled,
            pings: self.pings,
            failures: self.failures,
        }
    }
}

impl Heartbeat {
    /// Starts a heartbeat at `now_ms` that pings every `interval_ms`.
    pub fn start(interval_ms: u64, now_ms: u64) -> (heartbeat: Self)
        ensures
            heartbeat@ == HeartbeatModel::started(interval_ms, now_ms),
    {
        Heartbeat { interval_ms, next_tick_ms: now_ms, cancelled: false, pings: 0, failures: 0 }
    }

    /// Asks what is due at `now_ms`.
    pub fn poll(&mut self, now_ms: u64) -> (beat: Beat)
        ensures
            (final(self)@, beat) == old(self)@.poll(now_ms),
    {
        if self.cancelled {
            Beat::Stop
        } else if now_ms >= self.next_tick_ms {
            self.next_tick_ms = self.next_tick_ms.saturating_add(self.interval_ms);
            self.pings = self.pings.saturating_add(1);
            Beat::Ping
        } else {
            Beat::Wait(self.next_tick_ms - now_ms)
        }
    }

    /// Reports how a ping went. A failure is counted and goes no further.
    pub fn ping_finished(&mut self, ok: bool)
        ensures
            final(self)@ == old(self)@.reported(ok),
    {
        if !ok {
            self.failures = self.failures.saturating_add(1);
        }
    }

    /// Cancels the heartbeat: every later poll answers with [`Beat::Stop`].
    pub fn cancel(&mut self)
        ensures
            final(self)@ == old(self)@.stopped(),
    {
        self.cancelled = true;
    }

    /// Time between two pings, in milliseconds.
    pub fn interval_ms(&self) -> (ms: u64)
        ensures
            ms == self@.interval_ms,
    {
        self.interval_ms
    }

    /// How many pings were asked for so far.
    pub fn pings(&self) -> (n: u64)
        ensures
            n == self@.pings,
    {
        self.pings
    }

    /// How many pings were reported as failed so far.
    pub fn failures(&self) -> (n: u64)
        ensures
            n == self@.failures,
    {
        self.failures
    }

    /// Whether the heartbeat was cancelled.
    pub fn is_cancelled(&self) -> (b: bool)
        ensures
            b == self@.cancelled,
    {
        self.cancelled
    }
}

/// The first ping is due as soon as the heartbeat starts, and with a
/// positive interval only that one.
pub proof fn lemma_first_ping_at_start(interval_ms: u64, now_ms: u64)
    requires
        interval_ms > 0,
        now_ms + interval_ms <= u64::MAX,
    ensures
        HeartbeatModel::started(interval_ms, now_ms).poll(now_ms).1 == Beat::Ping,
        HeartbeatModel::started(interval_ms, now_ms).poll(now_ms).0.settled(now_ms),
{
}

/// Each interval that passes brings exactly one more ping.
///
/// From a moment at which nothing is due, one interval later a poll asks
/// for a ping, the poll after it asks for none, and the heartbeat is again
/// at a moment at which nothing is due.
pub proof fn lemma_one_ping_per_interval(heartbeat: HeartbeatModel, now_ms: u64)
    requires
        !heartbeat.cancelled,
        heartbeat.interval_ms > 0,
        heartbeat.settled(now_ms),
        now_ms + 2 * heartbeat.interval_ms <= u64::MAX,
        heartbeat.pings < u64::MAX,
    ensures
        ({
            let later = (now_ms + heartbeat.interval_ms) as u64;
            let first = heartbeat.poll(later);
            let second = first.0.poll(later);
            &&& first.1 == Beat::Ping
            &&& first.0.pings == heartbeat.pings + 1
            &&& second.1 is Wait
            &&& second.0 == first.0
            &&& first.0.settled(later)
        }),
{
}

/// While nothing is due, polling changes nothing and tells how long to wait.
pub proof fn lemma_no_ping_before_tick(heartbeat: HeartbeatModel, now_ms: u64)
    requires
        !heartbeat.cancelled,
        now_ms < heartbeat.next_tick_ms,
    ensures
        heartbeat.poll(now_ms).0 == heartbeat,
        heartbeat.poll(now_ms).1 == Beat::Wait((heartbeat.next_tick_ms - now_ms) as u64),
{
}

/// A failed ping is counted and changes nothing else: the schedule stays,
/// the heartbeat stays alive, and what the next poll answers is what it
/// would have answered had the ping succeeded.
pub proof fn lemma_failed_ping_keeps_schedule(heartbeat: HeartbeatModel, now_ms: u64)
    ensures
        heartbeat.reported(false).interval_ms == heartbeat.interval_ms,
        heartbeat.reported(false).next_tick_ms == heartbeat.next_tick_ms,
        heartbeat.reported(false).cancelled == heartbeat.cancelled,
        heartbeat.reported(false).pings == heartbeat.pings,
        heartbeat.reported(false).poll(now_ms).1 == heartbeat.reported(true).poll(now_ms).1,
{
}

/// A cancelled heartbeat asks for nothing ever again.
pub proof fn lemma_cancelled_stays_stopped(heartbeat: HeartbeatModel, now_ms: u64)
    ensures
        heartbeat.stopped().poll(now_ms).1 == Beat::Stop,
        heartbeat.stopped().poll(now_ms).0 == heartbeat.stopped(),
        heartbeat.stopped().reported(false).cancelled,
{
}

} // verus!
