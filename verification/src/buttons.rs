//! The two setpoint buttons behind their shared edge interrupt.
//!
//! Both input lines raise the same interrupt, so one dispatch looks at both
//! pending flags, whichever line caused it. A line found pending has its flag
//! cleared first and is then counted as one press; a line not pending is left
//! alone.

use vstd::prelude::*;
use crate::state::{App, Button, StateView};

verus! {

/// The two input lines that share the button interrupt.
#[derive(Clone, Copy, PartialEq, Eq, Debug)]
pub enum EdgeLine {
    Gpio0,
    Gpio1,
}

impl EdgeLine {
    /// The button wired to the line.
    pub open spec fn button_of(self) -> Button {
        match self {
            EdgeLine::Gpio0 => Button::ButtonB,
            EdgeLine::Gpio1 => Button::ButtonA,
        }
    }

    /// The button wired to the line.
    pub fn button(self) -> (button: Button)
        ensures
            button == self.button_of(),
    {
        match self {
            EdgeLine::Gpio0 => Button::ButtonB,
            EdgeLine::Gpio1 => Button::ButtonA,
        }
    }
}

/// The pending flags of the two lines.
#[derive(Clone, Copy, PartialEq, Eq, Debug)]
pub struct PendingEdges {
    pub gpio0: bool,
    pub gpio1: bool,
}

impl PendingEdges {
    /// Whether an edge on `line` waits to be handled.
    pub open spec fn pending(self, line: EdgeLine) -> bool {
        match line {
            EdgeLine::Gpio0 => self.gpio0,
            EdgeLine::Gpio1 => self.gpio1,
        }
    }

    /// The flags with that of `line` cleared and the other as it was.
    pub open spec fn without(self, line: EdgeLine) -> PendingEdges {
        match line {
            EdgeLine::Gpio0 => PendingEdges { gpio0: false, ..self },
            EdgeLine::Gpio1 => PendingEdges { gpio1: false, ..self },
        }
    }

    /// No edge waiting on either line.
    pub open spec fn none() -> PendingEdges {
        PendingEdges { gpio0: false, gpio1: false }
    }

    /// An edge waiting on `line` and none on the other.
    pub open spec fn only(line: EdgeLine) -> PendingEdges {
        Self::none().with(line)
    }

    /// The flags with that of `line` set and the other as it was.
    pub open spec fn with(self, line: EdgeLine) -> PendingEdges {
        match line {
            EdgeLine::Gpio0 => PendingEdges { gpio0: true, ..self },
            EdgeLine::Gpio1 => PendingEdges { gpio1: true, ..self },
        }
    }

    /// The flags as read from the two lines.
    pub fn new(gpio0: bool, gpio1: bool) -> (edges: PendingEdges)
        ensures
            edges == (PendingEdges { gpio0, gpio1 }),
    {
        PendingEdges { gpio0, gpio1 }
    }

    /// Whether an edge on `line` waits to be handled.
    pub fn is_pending(&self, line: EdgeLine) -> (pending: bool)
        ensures
            pending == self.pending(line),
    {
        match line {
            EdgeLine::Gpio0 => self.gpio0,
            EdgeLine::Gpio1 => self.gpio1,
        }
    }

    /// Clears the flag of `line`; the other flag stays as it is, and clearing
    /// a flag that was not set changes nothing.
    pub fn unpend(&mut self, line: EdgeLine)
        ensures
            *final(self) == old(self).without(line),
            !old(self).pending(line) ==> *final(self) == *old(self),
    {
        match line {
            EdgeLine::Gpio0 => {
                self.gpio0 = false;
            },
            EdgeLine::Gpio1 => {
                self.gpio1 = false;
            },
        }
    }

    /// Accepts the edge on `line` if one waits: clears its flag and returns
    /// the button to count as pressed. Without a waiting edge nothing changes.
    pub fn take(&mut self, line: EdgeLine) -> (press: Option<Button>)
        ensures
            old(self).pending(line) ==> press == Some(line.button_of()) && *final(self) == old(
                self,
            ).without(line),
            !old(self).pending(line) ==> press.is_none() && *final(self) == *old(self),
    {
        if self.is_pending(line) {
            self.unpend(line);
            Some(line.button())
        } else {
            None
        }
    }
}

/// The state record after one dispatch that found `edges` pending: the line
/// `Gpio0` is served first, then `Gpio1`, each with one press of its button.
pub open spec fn state_after_edges(state: StateView, edges: PendingEdges) -> StateView {
    let first = if edges.gpio0 {
        state.after_button(EdgeLine::Gpio0.button_of())
    } else {
        state
    };
    if edges.gpio1 {
        first.after_button(EdgeLine::Gpio1.button_of())
    } else {
        first
    }
}

/// One dispatch of the button task: serves both lines, whichever caused the
/// dispatch, and leaves no flag set.
pub fn button_task(app: &mut App, edges: &mut PendingEdges)
    ensures
        final(app)@ == state_after_edges(old(app)@, *old(edges)),
        *final(edges) == PendingEdges::none(),
{
    if let Some(button) = edges.take(EdgeLine::Gpio0) {
        app.button_click(button);
    }
    if let Some(button) = edges.take(EdgeLine::Gpio1) {
        app.button_click(button);
    }
}

/// A dispatch with one line pending counts exactly one press of that line's
/// button and none for the other line; a dispatch with no line pending leaves
/// the state record as it was.
pub proof fn lemma_single_edge_dispatch(state: StateView, line: EdgeLine)
    ensures
        state_after_edges(state, PendingEdges::only(line)) == state.after_button(line.button_of()),
        state_after_edges(state, PendingEdges::none()) == state,
        PendingEdges::only(line).without(line) == PendingEdges::none(),
{
}

} // verus!
