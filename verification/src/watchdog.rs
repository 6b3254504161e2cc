//! The liveness supervisor: a countdown that only a completed control pass
//! restarts.
//!
//! The countdown is kept as the time that has passed since it was last fed.
//! Once that time reaches the timeout the supervisor has fired: the system is
//! reset, and feeding comes too late.

use vstd::prelude::*;

verus! {

/// Time without a feed after which the supervisor resets the system, in
/// milliseconds.
pub const WATCHDOG_TIMEOUT_MS: u32 = 300;

/// Mathematical value of the supervisor.
pub struct WatchdogView {
    pub timeout: int,
    pub idle: int,
}

impl WatchdogView {
    /// The time since the last feed is counted up to the timeout and no
    /// further.
    pub open spec fn wf(self) -> bool {
        0 <= self.idle <= self.timeout <= u32::MAX
    }

    /// A supervisor that was just started with `timeout`.
    pub open spec fn started(timeout: int) -> WatchdogView {
        WatchdogView { timeout, idle: 0 }
    }

    /// Whether the supervisor has fired.
    pub open spec fn expired(self) -> bool {
        self.idle >= self.timeout
    }

    /// The supervisor after `ms` milliseconds without a feed.
    pub open spec fn after_elapse(self, ms: int) -> WatchdogView {
        WatchdogView {
            idle: if self.idle + ms >= self.timeout {
                self.timeout
            } else {
                self.idle + ms
            },
            ..self
        }
    }

    /// The supervisor after a feed: counting starts over, unless the
    /// supervisor has fired already.
    pub open spec fn after_feed(self) -> WatchdogView {
        if self.expired() {
            self
        } else {
            WatchdogView { idle: 0, ..self }
        }
    }

    /// The supervisor after `rounds` passes of a loop that takes `period`
    /// milliseconds for a pass and feeds at the end of each.
    pub open spec fn after_rounds(self, period: int, rounds: nat) -> WatchdogView
        decreases rounds,
    {
        if rounds == 0 {
            self
        } else {
            self.after_rounds(period, (rounds - 1) as nat).after_elapse(period).after_feed()
        }
    }
}

/// The countdown that resets the system when the control loop stalls.
#[derive(Clone, Copy, PartialEq, Eq, Debug)]
pub struct Watchdog {
    timeout_ms: u32,
    idle_ms: u32,
}

impl View for Watchdog {
    type V = WatchdogView;

    closed spec fn view(&self) -> WatchdogView {
        WatchdogView { timeout: self.timeout_ms as int, idle: self.idle_ms as int }
    }
}

impl Watchdog {
    #[verifier::type_invariant]
    spec fn inv(self) -> bool {
        self@.wf()
    }

    /// Starts the countdown with the given timeout.
    pub fn start(timeout_ms: u32) -> (watchdog: Watchdog)
        ensures
            watchdog@ == WatchdogView::started(timeout_ms as int),
            watchdog@.wf(),
    {
        Watchdog { timeout_ms, idle_ms: 0 }
    }

    /// Whether the supervisor has fired.
    pub fn expired(&self) -> (expired: bool)
        ensures
            expired == self@.expired(),
            self@.wf(),
    {
        proof {
            use_type_invariant(self);
        }
        self.idle_ms >= self.timeout_ms
    }

    /// Milliseconds left until the supervisor fires.
    pub fn remaining_ms(&self) -> (left: u32)
        ensures
            left == self@.timeout - self@.idle,
            self@.wf(),
    {
        proof {
            use_type_invariant(self);
        }
        self.timeout_ms - self.idle_ms
    }

    /// Lets `ms` milliseconds pass without a feed.
    pub fn elapse(&mut self, ms: u32)
        ensures
            final(self)@ == old(self)@.after_elapse(ms as int),
            final(self)@.wf(),
    {
        proof {
            use_type_invariant(&*self);
        }
        let left: u32 = self.timeout_ms - self.idle_ms;
        if ms >= left {
            self.idle_ms = self.timeout_ms;
        } else {
            self.idle_ms = self.idle_ms + ms;
        }
    }

    /// Restarts the countdown; too late once the supervisor has fired.
    pub fn feed(&mut self)
        ensures
            final(self)@ == old(self)@.after_feed(),
            final(self)@.wf(),
    {
        proof {
            use_type_invariant(&*self);
        }
        if self.idle_ms < self.timeout_ms {
            self.idle_ms = 0;
        }
    }
}

/// Time without a feed adds up: two waits in a row are one wait of their sum.
pub proof fn lemma_elapse_adds_up(watchdog: WatchdogView, first: int, second: int)
    requires
        watchdog.wf(),
        0 <= first,
        0 <= second,
    ensures
        watchdog.after_elapse(first).after_elapse(second) == watchdog.after_elapse(first + second),
        watchdog.after_elapse(first).wf(),
{
}

/// A stalled loop is caught within the timeout: a supervisor that was just
/// fed has fired after `ms` milliseconds without a feed exactly if `ms` is no
/// less than the timeout, and once it has fired no feed brings it back.
pub proof fn lemma_stall_expires(watchdog: WatchdogView, ms: int)
    requires
        watchdog.wf(),
        watchdog.idle == 0,
        0 <= ms,
    ensures
        watchdog.after_elapse(ms).expired() <==> ms >= watchdog.timeout,
        watchdog.after_elapse(ms).expired() ==> watchdog.after_elapse(ms).after_feed().expired(),
{
}

/// A healthy loop never lets the supervisor fire: if every pass takes less
/// than the timeout and ends with a feed, then after any number of passes the
/// countdown has just started over, and it has not run out when the next pass
/// ends.
pub proof fn lemma_healthy_loop_never_expires(watchdog: WatchdogView, period: int, rounds: nat)
    requires
        watchdog.wf(),
        watchdog.idle == 0,
        0 <= period < watchdog.timeout,
    ensures
        watchdog.after_rounds(period, rounds).idle == 0,
        watchdog.after_rounds(period, rounds).timeout == watchdog.timeout,
        !watchdog.after_rounds(period, rounds).expired(),
        !watchdog.after_rounds(period, rounds).after_elapse(period).expired(),
    decreases rounds,
{
    if rounds > 0 {
        lemma_healthy_loop_never_expires(watchdog, period, (rounds - 1) as nat);
    }
}

} // verus!
