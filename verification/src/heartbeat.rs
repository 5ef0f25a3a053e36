//! The heartbeat scheduler: it decides when a heartbeat is due and notices
//! an acknowledgement that never came. It performs no I/O; time is handed
//! to it in milliseconds.

use vstd::prelude::*;
use crate::operation::DEFAULT_HEARTBEAT_INTERVAL;

verus! {

/// What the scheduler asks for at one tick.
#[derive(Debug, Clone, Copy, PartialEq, Eq, Structural)]
pub enum Tick {
    /// No heartbeat is due.
    Idle,
    /// A heartbeat is due.
    Beat,
    /// A heartbeat is due, and the one before it was not acknowledged
    /// although more than one interval has passed: the connection may be
    /// dead.
    BeatAfterMiss,
}

/// The state of the heartbeat timer.
#[derive(Debug, Clone, Copy, PartialEq, Eq, Structural)]
pub struct Scheduler {
    /// Milliseconds between two heartbeats.
    pub interval_ms: u32,
    /// When the last heartbeat was asked for, or when the timer was started.
    pub last_sent_at: u64,
    /// Whether a heartbeat is waiting for its acknowledgement.
    pub pending_ack: bool,
}

impl Scheduler {
    /// The timer as it is started at `now`.
    pub open spec fn started(now: u64) -> Scheduler {
        Scheduler { interval_ms: DEFAULT_HEARTBEAT_INTERVAL, last_sent_at: now, pending_ack: false }
    }

    /// Milliseconds from the last heartbeat to `now`; zero where the clock
    /// has gone back.
    pub open spec fn elapsed(self, now: u64) -> int {
        if now >= self.last_sent_at {
            now - self.last_sent_at
        } else {
            0
        }
    }

    /// Whether a heartbeat is due at `now`.
    pub open spec fn due(self, now: u64) -> bool {
        self.elapsed(now) >= self.interval_ms
    }

    /// Whether an acknowledgement is missing at `now`: one is awaited and
    /// more than one interval has passed since the heartbeat.
    pub open spec fn missed(self, now: u64) -> bool {
        self.pending_ack && self.elapsed(now) > self.interval_ms
    }

    /// Milliseconds from `now` to the next heartbeat; zero where one is due.
    pub open spec fn wait(self, now: u64) -> int {
        if self.due(now) {
            0
        } else {
            self.interval_ms - self.elapsed(now)
        }
    }

    /// The timer after a hello frame that names `interval_ms`: the interval
    /// is taken over, but for zero, which is no interval and changes
    /// nothing.
    pub open spec fn greeted(self, interval_ms: u32) -> Scheduler {
        if interval_ms == 0 {
            self
        } else {
            Scheduler { interval_ms, ..self }
        }
    }

    /// What a tick at `now` asks for.
    pub open spec fn signal(self, now: u64) -> Tick {
        if !self.due(now) {
            Tick::Idle
        } else if self.missed(now) {
            Tick::BeatAfterMiss
        } else {
            Tick::Beat
        }
    }

    /// The timer after a tick at `now`: a heartbeat that is due restarts
    /// the interval and awaits its acknowledgement.
    pub open spec fn ticked(self, now: u64) -> Scheduler {
        if self.due(now) {
            Scheduler { interval_ms: self.interval_ms, last_sent_at: now, pending_ack: true }
        } else {
            self
        }
    }

    /// Starts the timer at `now` with the default interval.
    pub fn new(now: u64) -> (scheduler: Scheduler)
        ensures
            scheduler == Scheduler::started(now),
            scheduler.interval_ms == 40000,
    {
        Scheduler { interval_ms: DEFAULT_HEARTBEAT_INTERVAL, last_sent_at: now, pending_ack: false }
    }

    /// One tick of the clock.
    pub fn tick(&mut self, now: u64) -> (signal: Tick)
        ensures
            signal == old(self).signal(now),
            *final(self) == old(self).ticked(now),
    {
        let elapsed: u64 = if now >= self.last_sent_at {
            now - self.last_sent_at
        } else {
            0
        };
        if elapsed < self.interval_ms as u64 {
            return Tick::Idle;
        }
        let missed = self.pending_ack && elapsed > self.interval_ms as u64;
        self.last_sent_at = now;
        self.pending_ack = true;
        if missed {
            Tick::BeatAfterMiss
        } else {
            Tick::Beat
        }
    }

    /// How long to sleep at `now` before the next heartbeat is due.
    pub fn until_due(&self, now: u64) -> (wait_ms: u32)
        ensures
            wait_ms == self.wait(now),
            wait_ms == 0 <==> self.due(now),
    {
        let elapsed: u64 = if now >= self.last_sent_at {
            now - self.last_sent_at
        } else {
            0
        };
        if elapsed >= self.interval_ms as u64 {
            0
        } else {
            self.interval_ms - elapsed as u32
        }
    }

    /// Takes over the interval that the gateway names in its hello frame.
    /// An interval is never zero: where zero is named, the interval in force
    /// stays.
    pub fn on_hello(&mut self, interval_ms: u32)
        ensures
            *final(self) == old(self).greeted(interval_ms),
            old(self).interval_ms > 0 ==> final(self).interval_ms > 0,
    {
        if interval_ms != 0 {
            self.interval_ms = interval_ms;
        }
    }

    /// Notes that the gateway acknowledged the heartbeat.
    pub fn on_ack(&mut self)
        ensures
            *final(self) == (Scheduler { pending_ack: false, ..*old(self) }),
    {
        self.pending_ack = false;
    }
}

/// A tick before the next heartbeat is due asks for nothing and changes
/// nothing.
pub proof fn lemma_tick_before_deadline(scheduler: Scheduler, now: u64)
    requires
        !scheduler.due(now),
    ensures
        scheduler.signal(now) == Tick::Idle,
        scheduler.ticked(now) == scheduler,
{
}

/// A heartbeat that has waited two intervals for its acknowledgement is
/// reported at the next tick.
pub proof fn lemma_missing_ack_is_reported(scheduler: Scheduler, now: u64)
    requires
        scheduler.interval_ms > 0,
        scheduler.pending_ack,
        scheduler.elapsed(now) >= 2 * scheduler.interval_ms,
    ensures
        scheduler.signal(now) == Tick::BeatAfterMiss,
{
}

/// A missing acknowledgement is reported once per interval, not at every
/// tick: after any tick at which a heartbeat was due, the ticks of the
/// following interval report nothing and change nothing.
pub proof fn lemma_one_report_per_interval(scheduler: Scheduler, now: u64, later: u64)
    requires
        scheduler.due(now),
        now <= later,
        later - now < scheduler.interval_ms,
    ensures
        scheduler.ticked(now).signal(later) == Tick::Idle,
        scheduler.ticked(now).ticked(later) == scheduler.ticked(now),
{
}

/// The interval never becomes zero: no tick, no hello and no
/// acknowledgement takes a timer with an interval above zero to one
/// without.
pub proof fn lemma_interval_stays_positive(scheduler: Scheduler, now: u64, interval_ms: u32)
    requires
        scheduler.interval_ms > 0,
    ensures
        Scheduler::started(now).interval_ms > 0,
        scheduler.ticked(now).interval_ms > 0,
        scheduler.greeted(interval_ms).interval_ms > 0,
        interval_ms > 0 ==> scheduler.greeted(interval_ms).interval_ms == interval_ms,
{
}

/// No heartbeat is reported as unacknowledged once its acknowledgement
/// has come.
pub proof fn lemma_ack_clears_report(scheduler: Scheduler, now: u64)
    ensures
        (Scheduler { pending_ack: false, ..scheduler }).signal(now) != Tick::BeatAfterMiss,
{
}

} // verus!
