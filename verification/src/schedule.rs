//! The three tasks, when they run and which of them may interrupt which.
//!
//! Each task is a short handler that runs to completion. A task may interrupt
//! whatever runs at a lower priority. While a task works on the shared state
//! record it runs at the ceiling, the highest priority of any task that
//! shares the record, so that none of them can interrupt it there.

use vstd::prelude::*;
use crate::watchdog::{lemma_healthy_loop_never_expires, WatchdogView, WATCHDOG_TIMEOUT_MS};

verus! {

/// Time between two control passes, in milliseconds.
pub const CONTROL_PERIOD_MS: u32 = 200;

/// Time between two display ticks, in milliseconds.
pub const UI_PERIOD_MS: u32 = 350;

/// Priority at which the shared state record is worked on.
pub const CEILING: u8 = 3;

/// The three tasks of the controller.
#[derive(Clone, Copy, PartialEq, Eq, Debug)]
pub enum Task {
    ControlLoop,
    Button,
    Ui,
}

impl Task {
    /// Static priority of the task; a higher number is served first.
    pub open spec fn rank(self) -> int {
        match self {
            Task::ControlLoop => 3,
            Task::Button => 2,
            Task::Ui => 1,
        }
    }

    /// Period of a timed task; the button task runs on edges and has none.
    pub open spec fn period(self) -> Option<int> {
        match self {
            Task::ControlLoop => Some(CONTROL_PERIOD_MS as int),
            Task::Button => None,
            Task::Ui => Some(UI_PERIOD_MS as int),
        }
    }

    /// Static priority of the task.
    pub fn priority(self) -> (priority: u8)
        ensures
            priority == self.rank(),
            1 <= priority <= CEILING,
    {
        match self {
            Task::ControlLoop => 3,
            Task::Button => 2,
            Task::Ui => 1,
        }
    }

    /// Period in milliseconds of a timed task.
    pub fn period_ms(self) -> (period: Option<u32>)
        ensures
            match period {
                Some(ms) => self.period() == Some(ms as int),
                None => self.period().is_none(),
            },
    {
        match self {
            Task::ControlLoop => Some(CONTROL_PERIOD_MS),
            Task::Button => None,
            Task::Ui => Some(UI_PERIOD_MS),
        }
    }
}

/// Priority at which `task` runs: the ceiling while it works on the shared
/// state record, its own priority otherwise.
pub open spec fn running_rank(task: Task, in_critical_section: bool) -> int {
    if in_critical_section {
        CEILING as int
    } else {
        task.rank()
    }
}

/// Priority at which `task` runs, inside or outside its critical section.
pub fn effective_priority(task: Task, in_critical_section: bool) -> (priority: u8)
    ensures
        priority == running_rank(task, in_critical_section),
        priority >= task.rank(),
{
    if in_critical_section {
        CEILING
    } else {
        task.priority()
    }
}

/// Whether `candidate` may interrupt what runs at priority `running`.
pub fn may_preempt(candidate: Task, running: u8) -> (allowed: bool)
    ensures
        allowed <==> candidate.rank() > running,
{
    candidate.priority() > running
}

/// The ceiling is the highest priority of any task, and the control loop has
/// it; the buttons come next and the display last.
pub proof fn lemma_priority_order(task: Task)
    ensures
        task.rank() <= CEILING,
        Task::ControlLoop.rank() == CEILING,
        Task::ControlLoop.rank() > Task::Button.rank() > Task::Ui.rank(),
{
}

/// No task can interrupt another that works on the shared state record, so
/// no two of them work on it at once; outside the critical section a task
/// gives way exactly to those of higher priority.
pub proof fn lemma_critical_section_exclusive(holder: Task, candidate: Task)
    ensures
        !(candidate.rank() > running_rank(holder, true)),
        candidate.rank() > running_rank(holder, false) <==> candidate.rank() > holder.rank(),
{
}

/// The control loop keeps the watchdog quiet, and nothing else would: started
/// with its timeout and fed at the end of every control period, the watchdog
/// has not fired after any number of passes nor when the next pass ends; left
/// for one display period without a feed, it has.
pub proof fn lemma_control_loop_keeps_watchdog_quiet(rounds: nat)
    ensures
        !WatchdogView::started(WATCHDOG_TIMEOUT_MS as int).after_rounds(
            CONTROL_PERIOD_MS as int,
            rounds,
        ).expired(),
        !WatchdogView::started(WATCHDOG_TIMEOUT_MS as int).after_rounds(
            CONTROL_PERIOD_MS as int,
            rounds,
        ).after_elapse(CONTROL_PERIOD_MS as int).expired(),
        WatchdogView::started(WATCHDOG_TIMEOUT_MS as int).after_elapse(
            UI_PERIOD_MS as int,
        ).expired(),
{
    lemma_healthy_loop_never_expires(
        WatchdogView::started(WATCHDOG_TIMEOUT_MS as int),
        CONTROL_PERIOD_MS as int,
        rounds,
    );
}

} // verus!
