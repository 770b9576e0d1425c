//! The watchdog facade: its start-up state machine and the arming decision
//! made for each watched computation.

use crate::timer::{duration_secs, duration_subsec_nanos, TimerValue};
use core::time::Duration;
use vstd::prelude::*;

verus! {

/// Where a watchdog stands in its start-up; it only ever moves forward.
#[derive(Debug, Clone, Copy, PartialEq, Eq, Structural)]
pub enum WatchdogStatus {
    Initial,
    Starting,
    Started,
}

/// The options of one watched computation.
#[derive(Debug)]
pub struct WatchOptions {
    /// The CPU time the watched thread may consume before cancellation.
    pub cpu_timeout: Duration,
}

impl WatchOptions {
    /// The timer value that enforces this budget.
    pub open spec fn spec_timer_value(&self) -> TimerValue {
        TimerValue::for_budget(
            TimerValue::budget_of(
                duration_secs(self.cpu_timeout),
                duration_subsec_nanos(self.cpu_timeout),
            ),
        )
    }

    /// The one-shot timer value that enforces `cpu_timeout`: the same span,
    /// one nanosecond for a zero budget, the longest armed value beyond range.
    pub fn timer_value(&self) -> (r: TimerValue)
        ensures
            r == self.spec_timer_value(),
            r.is_armed(),
    {
        let secs = self.cpu_timeout.as_secs();
        let nanos = self.cpu_timeout.subsec_nanos();
        TimerValue::from_parts(secs, nanos)
    }
}

/// What arming one watched computation takes: which thread the expiry is
/// delivered to, the payload it carries, and when it expires.
#[derive(Debug, Clone, Copy, PartialEq, Eq)]
pub struct ArmRequest {
    /// The OS thread id of the watcher thread that handles the expiry.
    pub notify_tid: i32,
    /// The address of the execution handle that the expiry cancels.
    pub payload: usize,
    /// The expiry, on the watched thread's CPU-time clock.
    pub value: TimerValue,
}

/// Why a computation could not be watched.
#[derive(Debug, Clone, Copy, PartialEq, Eq, Structural)]
pub enum WatchError {
    /// The watcher thread has not published its identity yet.
    NotReady,
}

/// A CPU-time watchdog: the status of its watcher thread and, once started,
/// that thread's OS id.
#[derive(Debug)]
pub struct Watchdog {
    status: WatchdogStatus,
    tid: i32,
}

impl Watchdog {
    /// The watcher id is published exactly when the watchdog has started.
    #[verifier::type_invariant]
    spec fn inv(self) -> bool {
        &&& self.tid >= 0
        &&& (self.status == WatchdogStatus::Started) == (self.tid > 0)
    }

    /// The current status.
    pub closed spec fn state(&self) -> WatchdogStatus {
        self.status
    }

    /// The watcher thread's id; zero until the watchdog has started.
    pub closed spec fn watcher(&self) -> int {
        self.tid as int
    }

    /// The arming request for `payload` and `options`, which a ready watchdog gives.
    pub open spec fn spec_arm(&self, payload: usize, options: &WatchOptions) -> ArmRequest {
        ArmRequest {
            notify_tid: self.watcher() as i32,
            payload,
            value: options.spec_timer_value(),
        }
    }

    /// What `try_watch` gives: the arming request on a started watchdog,
    /// `NotReady` on any other.
    pub open spec fn spec_try_watch(&self, payload: usize, options: &WatchOptions) -> Result<
        ArmRequest,
        WatchError,
    > {
        if self.state() == WatchdogStatus::Started {
            Ok(self.spec_arm(payload, options))
        } else {
            Err(WatchError::NotReady)
        }
    }

    /// A watchdog whose watcher thread has not been claimed.
    pub fn initial() -> (r: Watchdog)
        ensures
            r.state() == WatchdogStatus::Initial,
            r.watcher() == 0,
    {
        Watchdog { status: WatchdogStatus::Initial, tid: 0 }
    }

    /// Claims the right to spawn the watcher thread: moves `Initial` to
    /// `Starting` and returns true; in any other status returns false and
    /// changes nothing (another caller spawns, this one waits for `Started`).
    pub fn claim_start(&mut self) -> (won: bool)
        ensures
            won == (old(self).state() == WatchdogStatus::Initial),
            won ==> final(self).state() == WatchdogStatus::Starting,
            won ==> final(self).watcher() == 0,
            !won ==> final(self).state() == old(self).state(),
            !won ==> final(self).watcher() == old(self).watcher(),
    {
        proof {
            use_type_invariant(&*self);
        }
        if self.status == WatchdogStatus::Initial {
            *self = Watchdog { status: WatchdogStatus::Starting, tid: 0 };
            true
        } else {
            false
        }
    }

    /// Records the id that the watcher thread published and moves `Starting`
    /// to `Started`; the id is never written again.
    pub fn publish_watcher(&mut self, watcher_tid: i32)
        requires
            old(self).state() == WatchdogStatus::Starting,
            watcher_tid > 0,
        ensures
            final(self).state() == WatchdogStatus::Started,
            final(self).watcher() == watcher_tid,
    {
        *self = Watchdog { status: WatchdogStatus::Started, tid: watcher_tid };
    }

    /// A started watchdog whose watcher thread has id `watcher_tid`, taken
    /// through `Initial`, `Starting` and `Started` in turn.
    pub fn new(watcher_tid: i32) -> (r: Watchdog)
        requires
            watcher_tid > 0,
        ensures
            r.state() == WatchdogStatus::Started,
            r.watcher() == watcher_tid,
    {
        let mut watchdog = Watchdog::initial();
        let won = watchdog.claim_start();
        assert(won);
        watchdog.publish_watcher(watcher_tid);
        watchdog
    }

    /// The current status.
    pub fn status(&self) -> (r: WatchdogStatus)
        ensures
            r == self.state(),
    {
        self.status
    }

    /// Whether the watcher thread has published its id.
    pub fn is_ready(&self) -> (r: bool)
        ensures
            r == (self.state() == WatchdogStatus::Started),
    {
        self.status == WatchdogStatus::Started
    }

    /// The watcher thread's id; zero until the watchdog has started.
    pub fn watcher_tid(&self) -> (r: i32)
        ensures
            r == self.watcher(),
            r > 0 <==> self.state() == WatchdogStatus::Started,
    {
        proof {
            use_type_invariant(self);
        }
        self.tid
    }

    /// The arming for one watched computation: the expiry goes to the watcher
    /// thread, carries `payload`, and fires after `options.cpu_timeout` of the
    /// calling thread's CPU time.
    pub fn watch(&self, payload: usize, options: WatchOptions) -> (r: ArmRequest)
        requires
            self.state() == WatchdogStatus::Started,
        ensures
            r == self.spec_arm(payload, &options),
            r.notify_tid > 0,
            r.value.is_armed(),
    {
        proof {
            use_type_invariant(self);
        }
        let value = options.timer_value();
        ArmRequest { notify_tid: self.tid, payload, value }
    }

    /// As `watch`, but refuses with `NotReady`, and arms nothing, exactly when
    /// the watchdog has not started.
    pub fn try_watch(&self, payload: usize, options: WatchOptions) -> (r: Result<ArmRequest, WatchError>)
        ensures
            r == self.spec_try_watch(payload, &options),
    {
        if self.is_ready() {
            Ok(self.watch(payload, options))
        } else {
            Err(WatchError::NotReady)
        }
    }
}

/// Watching fails loudly before the watchdog is started and never after:
/// on a watchdog that has not started every attempt is refused with
/// `NotReady`; on a started one any two attempts, with any payloads and
/// options, both succeed, since an attempt leaves the watchdog as it was.
pub proof fn lemma_watch_gate(
    wd: &Watchdog,
    p1: usize,
    o1: &WatchOptions,
    p2: usize,
    o2: &WatchOptions,
)
    ensures
        wd.state() != WatchdogStatus::Started ==> wd.spec_try_watch(p1, o1) == Err::<
            ArmRequest,
            WatchError,
        >(WatchError::NotReady),
        wd.state() == WatchdogStatus::Started ==> wd.spec_try_watch(p1, o1) is Ok
            && wd.spec_try_watch(p2, o2) is Ok,
{
}

/// Each armed timer carries the handle it was armed for and nothing else:
/// two armings on one started watchdog, from any threads, are delivered to
/// the same watcher thread, each with its own payload, so distinct handles
/// are never confused.
pub proof fn lemma_payload_isolation(
    wd: &Watchdog,
    p1: usize,
    o1: &WatchOptions,
    p2: usize,
    o2: &WatchOptions,
)
    requires
        wd.state() == WatchdogStatus::Started,
    ensures
        wd.spec_arm(p1, o1).payload == p1,
        wd.spec_arm(p2, o2).payload == p2,
        wd.spec_arm(p1, o1).notify_tid == wd.spec_arm(p2, o2).notify_tid,
        wd.spec_arm(p1, o1).notify_tid == wd.watcher(),
        p1 != p2 ==> wd.spec_arm(p1, o1).payload != wd.spec_arm(p2, o2).payload,
{
}

} // verus!
