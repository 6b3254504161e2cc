//! Core of a closed-loop heater controller: the shared state record, the
//! control step that turns a sensor sample and a regulator correction into a
//! clamped heater duty, the setpoint buttons and the status display pipeline.

pub mod assets;
pub mod buttons;
pub mod control;
pub mod schedule;
pub mod state;
pub mod ui;
pub mod watchdog;
