//! The application state record and the operations the three tasks perform on
//! it.

use vstd::prelude::*;
use crate::control::{
    clamp_to, duty_after, next_duty, power_of_duty, power_percent, sensor_temp, temp_of_raw,
    SENSOR_OFFSET,
};

verus! {

/// Lowest setpoint the operator can select, in milli-degrees.
pub const SETPOINT_MIN: u16 = 15_000;

/// Highest setpoint the operator can select, in milli-degrees.
pub const SETPOINT_MAX: u16 = 40_000;

/// Setpoint selected at start-up, in milli-degrees.
pub const SETPOINT_DEFAULT: u16 = 24_000;

/// Change of the setpoint per button press, in milli-degrees.
pub const SETPOINT_STEP: u16 = 100;

/// The two setpoint buttons: `ButtonA` lowers the setpoint, `ButtonB` raises it.
#[derive(Clone, Copy, PartialEq, Eq, Debug)]
pub enum Button {
    ButtonA,
    ButtonB,
}

/// Setpoint that follows `setpoint` when `button` is pressed once.
pub open spec fn setpoint_after(setpoint: int, button: Button) -> int {
    match button {
        Button::ButtonA => clamp_to(setpoint - 100, 15_000, 40_000),
        Button::ButtonB => clamp_to(setpoint + 100, 15_000, 40_000),
    }
}

/// Setpoint that follows `setpoint` when the buttons of `presses` are pressed
/// one after the other, first to last.
pub open spec fn setpoint_after_all(setpoint: int, presses: Seq<Button>) -> int
    decreases presses.len(),
{
    if presses.len() == 0 {
        setpoint
    } else {
        setpoint_after(setpoint_after_all(setpoint, presses.drop_last()), presses.last())
    }
}

/// Mathematical value of the state record.
pub struct StateView {
    pub frame: int,
    pub set_temp: int,
    pub cur_temp: int,
    pub heater_power: int,
    pub heater_duty: int,
    pub heater_max_duty: int,
}

impl StateView {
    /// What holds of every state record: the setpoint is selectable, the duty
    /// is one the heater output accepts, and the power is derived from it.
    pub open spec fn wf(self) -> bool {
        &&& 0 <= self.frame <= usize::MAX
        &&& SETPOINT_MIN <= self.set_temp <= SETPOINT_MAX
        &&& 0 <= self.cur_temp <= u16::MAX
        &&& 0 <= self.heater_duty <= self.heater_max_duty <= u16::MAX
        &&& self.heater_power == power_percent(self.heater_duty, self.heater_max_duty)
    }

    /// The record a controller starts from.
    pub open spec fn initial(heater_max_duty: int) -> StateView {
        StateView {
            frame: 0,
            set_temp: SETPOINT_DEFAULT as int,
            cur_temp: 0,
            heater_power: 0,
            heater_duty: 0,
            heater_max_duty,
        }
    }

    /// The record after one animation tick; the counter wraps.
    pub open spec fn after_animate(self) -> StateView {
        StateView { frame: if self.frame == usize::MAX { 0 } else { self.frame + 1 }, ..self }
    }

    /// The record after one press of `button`.
    pub open spec fn after_button(self, button: Button) -> StateView {
        StateView { set_temp: setpoint_after(self.set_temp, button), ..self }
    }

    /// The record after a control step that sampled `raw` and for which the
    /// regulator asked for `correction`.
    pub open spec fn after_control_step(self, raw: int, correction: int) -> StateView {
        let duty = duty_after(self.heater_duty, correction, self.heater_max_duty);
        StateView {
            cur_temp: temp_of_raw(raw),
            heater_duty: duty,
            heater_power: power_percent(duty, self.heater_max_duty),
            ..self
        }
    }
}

/// The single mutable record shared by the control, button and display tasks.
#[derive(Clone, Copy, PartialEq, Eq, Debug)]
pub struct AppState {
    frame: usize,
    set_temp: u16,
    cur_temp: u16,
    heater_power: u16,
    heater_duty: u16,
    heater_max_duty: u16,
}

impl View for AppState {
    type V = StateView;

    closed spec fn view(&self) -> StateView {
        StateView {
            frame: self.frame as int,
            set_temp: self.set_temp as int,
            cur_temp: self.cur_temp as int,
            heater_power: self.heater_power as int,
            heater_duty: self.heater_duty as int,
            heater_max_duty: self.heater_max_duty as int,
        }
    }
}

impl AppState {
    #[verifier::type_invariant]
    spec fn inv(self) -> bool {
        self@.wf()
    }

    /// Animation tick count.
    pub fn frame(&self) -> (frame: usize)
        ensures
            frame == self@.frame,
            self@.wf(),
    {
        proof {
            use_type_invariant(self);
        }
        self.frame
    }

    /// Setpoint in milli-degrees.
    pub fn set_temp(&self) -> (setpoint: u16)
        ensures
            setpoint == self@.set_temp,
            SETPOINT_MIN <= setpoint <= SETPOINT_MAX,
            self@.wf(),
    {
        proof {
            use_type_invariant(self);
        }
        self.set_temp
    }

    /// Last measured temperature in milli-degrees.
    pub fn cur_temp(&self) -> (temp: u16)
        ensures
            temp == self@.cur_temp,
            self@.wf(),
    {
        proof {
            use_type_invariant(self);
        }
        self.cur_temp
    }

    /// Heater power in whole percent.
    pub fn heater_power(&self) -> (percent: u16)
        ensures
            percent == self@.heater_power,
            percent == power_percent(self@.heater_duty, self@.heater_max_duty),
            percent <= 100,
            self@.wf(),
    {
        proof {
            use_type_invariant(self);
            crate::control::lemma_power_bounded(self@.heater_duty, self@.heater_max_duty);
        }
        self.heater_power
    }

    /// Heater duty, a count out of [`AppState::heater_max_duty`].
    pub fn heater_duty(&self) -> (duty: u16)
        ensures
            duty == self@.heater_duty,
            duty <= self@.heater_max_duty,
            self@.wf(),
    {
        proof {
            use_type_invariant(self);
        }
        self.heater_duty
    }

    /// Largest duty the heater output accepts.
    pub fn heater_max_duty(&self) -> (max_duty: u16)
        ensures
            max_duty == self@.heater_max_duty,
            self@.wf(),
    {
        proof {
            use_type_invariant(self);
        }
        self.heater_max_duty
    }
}

/// The setpoint one press of `button` leads to, from any sixteen-bit value.
pub fn adjust_setpoint(setpoint: u16, button: Button) -> (next: u16)
    ensures
        next == setpoint_after(setpoint as int, button),
        SETPOINT_MIN <= next <= SETPOINT_MAX,
{
    let moved: u16 = match button {
        Button::ButtonA => setpoint.saturating_sub(SETPOINT_STEP),
        Button::ButtonB => setpoint.saturating_add(SETPOINT_STEP),
    };
    if moved < SETPOINT_MIN {
        SETPOINT_MIN
    } else if moved > SETPOINT_MAX {
        SETPOINT_MAX
    } else {
        moved
    }
}

/// The controller's state together with the operations of its tasks.
pub struct App {
    state: AppState,
}

impl View for App {
    type V = StateView;

    closed spec fn view(&self) -> StateView {
        self.state@
    }
}

impl App {
    /// A controller at rest for a heater output that accepts duties up to
    /// `heater_max_duty`.
    pub fn new(heater_max_duty: u16) -> (app: App)
        ensures
            app@ == StateView::initial(heater_max_duty as int),
            app@.wf(),
    {
        App {
            state: AppState {
                frame: 0,
                heater_max_duty,
                heater_duty: 0,
                heater_power: 0,
                cur_temp: 0,
                set_temp: SETPOINT_DEFAULT,
            },
        }
    }

    /// The state record.
    pub fn state(&self) -> (state: &AppState)
        ensures
            state@ == self@,
            self@.wf(),
    {
        proof {
            use_type_invariant(&self.state);
        }
        &self.state
    }

    /// Advances the animation by one frame.
    pub fn animate(&mut self)
        ensures
            final(self)@ == old(self)@.after_animate(),
            final(self)@.wf(),
    {
        proof {
            use_type_invariant(&self.state);
        }
        self.state.frame = self.state.frame.wrapping_add(1);
    }

    /// Moves the setpoint one step down (`ButtonA`) or up (`ButtonB`), within
    /// the selectable range.
    pub fn button_click(&mut self, btn: Button)
        ensures
            final(self)@ == old(self)@.after_button(btn),
            SETPOINT_MIN <= final(self)@.set_temp <= SETPOINT_MAX,
            final(self)@.wf(),
    {
        proof {
            use_type_invariant(&self.state);
        }
        self.state.set_temp = adjust_setpoint(self.state.set_temp, btn);
    }

    /// The part of a control step that follows the regulator: records the
    /// temperature of the raw sample `raw`, adds `correction` to the previous
    /// duty, clamps the sum to the heater output's range, derives the power
    /// from it and returns the new duty.
    pub fn control_step(&mut self, raw: u16, correction: i32) -> (duty: u16)
        requires
            raw <= SENSOR_OFFSET,
        ensures
            final(self)@ == old(self)@.after_control_step(raw as int, correction as int),
            duty == final(self)@.heater_duty,
            0 <= duty <= final(self)@.heater_max_duty,
            final(self)@.heater_power == power_percent(
                final(self)@.heater_duty,
                final(self)@.heater_max_duty,
            ),
            0 <= final(self)@.heater_power <= 100,
            final(self)@.wf(),
    {
        proof {
            use_type_invariant(&self.state);
        }
        let cur_temp: u16 = sensor_temp(raw);
        let heater_max_duty: u16 = self.state.heater_max_duty;
        let heater_duty: u16 = next_duty(self.state.heater_duty, correction, heater_max_duty);
        let heater_power: u16 = power_of_duty(heater_duty, heater_max_duty);
        self.state = AppState {
            frame: self.state.frame,
            set_temp: self.state.set_temp,
            cur_temp,
            heater_power,
            heater_duty,
            heater_max_duty,
        };
        heater_duty
    }

    /// One control step: converts the raw sample `temp` to a temperature,
    /// asks `control_law` for the correction that the setpoint and this
    /// temperature call for, and applies it as [`App::control_step`] does.
    ///
    /// The regulator decides the correction; whatever it answers, the duty
    /// returned lies within the heater output's range.
    pub fn get_heater_duty<F>(&mut self, temp: u16, control_law: F) -> (duty: u16) where
        F: FnOnce(u16, u16) -> i32,

        requires
            temp <= SENSOR_OFFSET,
            call_requires(
                control_law,
                (old(self)@.set_temp as u16, temp_of_raw(temp as int) as u16),
            ),
        ensures
            exists|correction: i32|
                {
                    &&& call_ensures(
                        control_law,
                        (old(self)@.set_temp as u16, temp_of_raw(temp as int) as u16),
                        correction,
                    )
                    &&& final(self)@ == old(self)@.after_control_step(
                        temp as int,
                        correction as int,
                    )
                },
            duty == final(self)@.heater_duty,
            0 <= duty <= final(self)@.heater_max_duty,
            final(self)@.heater_power == power_percent(
                final(self)@.heater_duty,
                final(self)@.heater_max_duty,
            ),
            0 <= final(self)@.heater_power <= 100,
            final(self)@.wf(),
    {
        proof {
            use_type_invariant(&self.state);
        }
        let measured: u16 = sensor_temp(temp);
        let correction: i32 = control_law(self.state.set_temp, measured);
        self.control_step(temp, correction)
    }
}

/// However often and in whatever order the buttons are pressed, the setpoint
/// ends within the selectable range: after at least one press from any
/// sixteen-bit value, and after none from a value that is itself selectable.
pub proof fn lemma_setpoint_stays_in_range(start: u16, presses: Seq<Button>)
    requires
        presses.len() > 0 || SETPOINT_MIN <= start <= SETPOINT_MAX,
    ensures
        SETPOINT_MIN <= setpoint_after_all(start as int, presses) <= SETPOINT_MAX,
    decreases presses.len(),
{
    if presses.len() > 1 {
        lemma_setpoint_stays_in_range(start, presses.drop_last());
    }
}

} // verus!
