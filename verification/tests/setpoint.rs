use thermostat::buttons::{button_task, EdgeLine, PendingEdges};
use thermostat::state::{
    adjust_setpoint, App, Button, SETPOINT_DEFAULT, SETPOINT_MAX, SETPOINT_MIN, SETPOINT_STEP,
};

#[test]
fn new_app_is_at_rest() {
    let app = App::new(4000);
    let state = app.state();
    assert_eq!(state.frame(), 0);
    assert_eq!(state.set_temp(), 24_000);
    assert_eq!(state.cur_temp(), 0);
    assert_eq!(state.heater_duty(), 0);
    assert_eq!(state.heater_power(), 0);
    assert_eq!(state.heater_max_duty(), 4000);
}

#[test]
fn animate_counts_frames() {
    let mut app = App::new(4000);
    app.animate();
    assert_eq!(app.state().frame(), 1);
    app.animate();
    app.animate();
    assert_eq!(app.state().frame(), 3);
    assert_eq!(app.state().set_temp(), SETPOINT_DEFAULT);
}

#[test]
fn setpoint_limits_and_step() {
    assert_eq!(SETPOINT_MIN, 15_000);
    assert_eq!(SETPOINT_MAX, 40_000);
    assert_eq!(SETPOINT_STEP, 100);
    assert_eq!(SETPOINT_DEFAULT, 24_000);
}

#[test]
fn button_a_lowers_and_button_b_raises() {
    let mut app = App::new(4000);
    app.button_click(Button::ButtonA);
    assert_eq!(app.state().set_temp(), 23_900);
    app.button_click(Button::ButtonB);
    app.button_click(Button::ButtonB);
    assert_eq!(app.state().set_temp(), 24_100);
    assert_eq!(app.state().frame(), 0);
    assert_eq!(app.state().heater_duty(), 0);
}

#[test]
fn setpoint_stops_at_the_lower_limit() {
    let mut app = App::new(4000);
    for _ in 0..90 {
        app.button_click(Button::ButtonA);
    }
    assert_eq!(app.state().set_temp(), 15_000);
    for _ in 0..10 {
        app.button_click(Button::ButtonA);
        assert_eq!(app.state().set_temp(), 15_000);
    }
    app.button_click(Button::ButtonB);
    assert_eq!(app.state().set_temp(), 15_100);
}

#[test]
fn setpoint_stops_at_the_upper_limit() {
    let mut app = App::new(4000);
    for _ in 0..160 {
        app.button_click(Button::ButtonB);
    }
    assert_eq!(app.state().set_temp(), 40_000);
    for _ in 0..10 {
        app.button_click(Button::ButtonB);
        assert_eq!(app.state().set_temp(), 40_000);
    }
    app.button_click(Button::ButtonA);
    assert_eq!(app.state().set_temp(), 39_900);
}

#[test]
fn adjust_setpoint_at_sixteen_bit_boundaries() {
    assert_eq!(adjust_setpoint(0, Button::ButtonA), 15_000);
    assert_eq!(adjust_setpoint(0, Button::ButtonB), 15_000);
    assert_eq!(adjust_setpoint(99, Button::ButtonA), 15_000);
    assert_eq!(adjust_setpoint(u16::MAX, Button::ButtonA), 40_000);
    assert_eq!(adjust_setpoint(u16::MAX, Button::ButtonB), 40_000);
    assert_eq!(adjust_setpoint(u16::MAX - 99, Button::ButtonB), 40_000);
}

#[test]
fn adjust_setpoint_near_the_limits() {
    assert_eq!(adjust_setpoint(15_000, Button::ButtonA), 15_000);
    assert_eq!(adjust_setpoint(15_050, Button::ButtonA), 15_000);
    assert_eq!(adjust_setpoint(15_100, Button::ButtonA), 15_000);
    assert_eq!(adjust_setpoint(15_101, Button::ButtonA), 15_001);
    assert_eq!(adjust_setpoint(14_950, Button::ButtonB), 15_050);
    assert_eq!(adjust_setpoint(40_000, Button::ButtonB), 40_000);
    assert_eq!(adjust_setpoint(39_950, Button::ButtonB), 40_000);
    assert_eq!(adjust_setpoint(39_899, Button::ButtonB), 39_999);
    assert_eq!(adjust_setpoint(40_050, Button::ButtonA), 39_950);
    assert_eq!(adjust_setpoint(24_000, Button::ButtonA), 23_900);
    assert_eq!(adjust_setpoint(24_000, Button::ButtonB), 24_100);
}

#[test]
fn one_press_from_any_value_lands_in_range() {
    for start in 0..=u16::MAX {
        for button in [Button::ButtonA, Button::ButtonB] {
            let next = adjust_setpoint(start, button);
            assert!((SETPOINT_MIN..=SETPOINT_MAX).contains(&next));
        }
    }
}

#[test]
fn press_sequences_stay_in_range() {
    let mut app = App::new(4000);
    let mut seed: u32 = 0x2545_f491;
    for _ in 0..20_000 {
        seed = seed.wrapping_mul(1_664_525).wrapping_add(1_013_904_223);
        let button = if seed & 0x0003_0000 == 0 { Button::ButtonA } else { Button::ButtonB };
        app.button_click(button);
        let setpoint = app.state().set_temp();
        assert!((SETPOINT_MIN..=SETPOINT_MAX).contains(&setpoint));
    }
    for _ in 0..20_000 {
        seed = seed.wrapping_mul(1_664_525).wrapping_add(1_013_904_223);
        let button = if seed & 0x0003_0000 == 0 { Button::ButtonB } else { Button::ButtonA };
        app.button_click(button);
        let setpoint = app.state().set_temp();
        assert!((SETPOINT_MIN..=SETPOINT_MAX).contains(&setpoint));
    }
}

#[test]
fn lines_are_wired_to_their_buttons() {
    assert_eq!(EdgeLine::Gpio0.button(), Button::ButtonB);
    assert_eq!(EdgeLine::Gpio1.button(), Button::ButtonA);
}

#[test]
fn unpend_clears_one_flag_only() {
    let mut edges = PendingEdges::new(true, true);
    assert!(edges.is_pending(EdgeLine::Gpio0));
    assert!(edges.is_pending(EdgeLine::Gpio1));
    edges.unpend(EdgeLine::Gpio0);
    assert_eq!(edges, PendingEdges::new(false, true));
    edges.unpend(EdgeLine::Gpio0);
    assert_eq!(edges, PendingEdges::new(false, true));
    edges.unpend(EdgeLine::Gpio1);
    assert_eq!(edges, PendingEdges::new(false, false));
    edges.unpend(EdgeLine::Gpio1);
    assert_eq!(edges, PendingEdges::new(false, false));
}

#[test]
fn take_accepts_a_waiting_edge_once() {
    let mut edges = PendingEdges::new(false, true);
    assert_eq!(edges.take(EdgeLine::Gpio0), None);
    assert_eq!(edges, PendingEdges::new(false, true));
    assert_eq!(edges.take(EdgeLine::Gpio1), Some(Button::ButtonA));
    assert_eq!(edges, PendingEdges::new(false, false));
    assert_eq!(edges.take(EdgeLine::Gpio1), None);
    let mut edges = PendingEdges::new(true, true);
    assert_eq!(edges.take(EdgeLine::Gpio0), Some(Button::ButtonB));
    assert_eq!(edges, PendingEdges::new(false, true));
}

#[test]
fn dispatch_with_only_line_zero_pending() {
    let mut app = App::new(4000);
    let mut edges = PendingEdges::new(true, false);
    button_task(&mut app, &mut edges);
    assert_eq!(app.state().set_temp(), 24_100);
    assert_eq!(edges, PendingEdges::new(false, false));
}

#[test]
fn dispatch_with_only_line_one_pending() {
    let mut app = App::new(4000);
    let mut edges = PendingEdges::new(false, true);
    button_task(&mut app, &mut edges);
    assert_eq!(app.state().set_temp(), 23_900);
    assert_eq!(edges, PendingEdges::new(false, false));
}

#[test]
fn dispatch_with_no_line_pending_changes_nothing() {
    let mut app = App::new(4000);
    let before = *app.state();
    let mut edges = PendingEdges::new(false, false);
    button_task(&mut app, &mut edges);
    assert_eq!(*app.state(), before);
    assert_eq!(edges, PendingEdges::new(false, false));
}

#[test]
fn dispatch_with_both_lines_pending_counts_each_once() {
    let mut app = App::new(4000);
    let mut edges = PendingEdges::new(true, true);
    button_task(&mut app, &mut edges);
    assert_eq!(app.state().set_temp(), 24_000);
    assert_eq!(edges, PendingEdges::new(false, false));
}

#[test]
fn dispatch_serves_line_zero_before_line_one() {
    let mut app = App::new(4000);
    for _ in 0..160 {
        app.button_click(Button::ButtonB);
    }
    let mut edges = PendingEdges::new(true, true);
    button_task(&mut app, &mut edges);
    assert_eq!(app.state().set_temp(), 39_900);
}

#[test]
fn second_dispatch_without_new_edges_counts_nothing() {
    let mut app = App::new(4000);
    let mut edges = PendingEdges::new(true, false);
    button_task(&mut app, &mut edges);
    button_task(&mut app, &mut edges);
    assert_eq!(app.state().set_temp(), 24_100);
}
