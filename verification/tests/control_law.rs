use thermostat::control::{
    next_duty, power_of_duty, sample_or_fallback, sensor_temp, SENSOR_FALLBACK, SENSOR_OFFSET,
};
use thermostat::state::{App, SETPOINT_DEFAULT};

#[test]
fn sensor_temp_follows_the_calibration() {
    assert_eq!(sensor_temp(0), 44_100);
    assert_eq!(sensor_temp(296), 41_600);
    assert_eq!(sensor_temp(2176), 26_000);
    assert_eq!(sensor_temp(2416), 24_000);
    assert_eq!(sensor_temp(2896), 20_000);
    assert_eq!(sensor_temp(4095), 10_000);
    assert_eq!(sensor_temp(5284), 100);
    assert_eq!(sensor_temp(5285), 0);
    assert_eq!(sensor_temp(SENSOR_OFFSET), 0);
}

#[test]
fn sensor_temp_is_a_function_of_the_count() {
    for raw in 0..=4095u16 {
        let expected = (5296 - raw as u32) / 12 * 100;
        assert_eq!(sensor_temp(raw) as u32, expected);
        assert_eq!(sensor_temp(raw), sensor_temp(raw));
    }
}

#[test]
fn sensor_temp_falls_as_the_count_rises() {
    let mut last = sensor_temp(0);
    for raw in 1..=SENSOR_OFFSET {
        let temp = sensor_temp(raw);
        assert!(temp <= last);
        assert_eq!(temp % 100, 0);
        last = temp;
    }
}

#[test]
fn missing_sample_falls_back_to_zero() {
    assert_eq!(SENSOR_FALLBACK, 0);
    assert_eq!(sample_or_fallback(None), 0);
    assert_eq!(sample_or_fallback(Some(0)), 0);
    assert_eq!(sample_or_fallback(Some(2416)), 2416);
    assert_eq!(sample_or_fallback(Some(u16::MAX)), u16::MAX);
}

#[test]
fn fallback_sample_reads_as_the_hottest_temperature() {
    assert_eq!(sensor_temp(sample_or_fallback(None)), 44_100);
}

#[test]
fn next_duty_adds_the_correction() {
    assert_eq!(next_duty(0, 280, 4000), 280);
    assert_eq!(next_duty(280, 200, 4000), 480);
    assert_eq!(next_duty(540, -40, 4000), 500);
    assert_eq!(next_duty(500, 0, 4000), 500);
}

#[test]
fn next_duty_is_clamped_to_the_output_range() {
    assert_eq!(next_duty(900, 200, 1000), 1000);
    assert_eq!(next_duty(50, -100, 1000), 0);
    assert_eq!(next_duty(0, i32::MAX, 1000), 1000);
    assert_eq!(next_duty(1000, i32::MIN, 1000), 0);
    assert_eq!(next_duty(u16::MAX, i32::MAX, u16::MAX), u16::MAX);
    assert_eq!(next_duty(u16::MAX, i32::MIN, u16::MAX), 0);
    assert_eq!(next_duty(0, 5, 0), 0);
    assert_eq!(next_duty(0, -5, 0), 0);
    assert_eq!(next_duty(2000, 0, 1000), 1000);
}

#[test]
fn heater_power_is_the_floor_of_the_percentage() {
    assert_eq!(power_of_duty(0, 1000), 0);
    assert_eq!(power_of_duty(5, 1000), 0);
    assert_eq!(power_of_duty(10, 1000), 1);
    assert_eq!(power_of_duty(999, 1000), 99);
    assert_eq!(power_of_duty(1000, 1000), 100);
    assert_eq!(power_of_duty(1, 3), 33);
    assert_eq!(power_of_duty(2, 3), 66);
    assert_eq!(power_of_duty(3, 3), 100);
    assert_eq!(power_of_duty(u16::MAX, u16::MAX), 100);
    assert_eq!(power_of_duty(u16::MAX - 1, u16::MAX), 99);
}

#[test]
fn heater_power_of_an_output_without_range_is_zero() {
    assert_eq!(power_of_duty(0, 0), 0);
}

#[test]
fn heater_power_agrees_with_the_quotient_in_single_precision() {
    for max_duty in [1u16, 3, 7, 1000, 4000, 8000, u16::MAX] {
        for duty in 0..=max_duty {
            let quotient = (duty as f32 * 100.0 / max_duty as f32) as u16;
            assert_eq!(power_of_duty(duty, max_duty), quotient);
        }
    }
}

#[test]
fn control_step_records_temperature_duty_and_power() {
    let mut app = App::new(4000);
    let duty = app.control_step(2896, 280);
    assert_eq!(duty, 280);
    assert_eq!(app.state().cur_temp(), 20_000);
    assert_eq!(app.state().heater_duty(), 280);
    assert_eq!(app.state().heater_power(), 7);
    assert_eq!(app.state().heater_max_duty(), 4000);
    assert_eq!(app.state().set_temp(), SETPOINT_DEFAULT);
    assert_eq!(app.state().frame(), 0);
}

#[test]
fn control_step_adds_to_the_previous_duty() {
    let mut app = App::new(4000);
    assert_eq!(app.control_step(2896, 280), 280);
    assert_eq!(app.control_step(2416, 200), 480);
    assert_eq!(app.control_step(2176, 60), 540);
    assert_eq!(app.control_step(2176, -40), 500);
    assert_eq!(app.state().heater_power(), 12);
    assert_eq!(app.state().cur_temp(), 26_000);
}

#[test]
fn control_step_keeps_duty_and_power_in_range() {
    let corrections = [i32::MAX, 1, -1, i32::MIN, 65_535, -65_535, 0, 123, -77, 40_000];
    for max_duty in [0u16, 1, 99, 100, 4000, u16::MAX] {
        let mut app = App::new(max_duty);
        for correction in corrections {
            let duty = app.control_step(0, correction);
            let state = app.state();
            assert!(duty <= max_duty);
            assert_eq!(duty, state.heater_duty());
            assert!(state.heater_power() <= 100);
            let expected = if max_duty == 0 {
                0
            } else {
                duty as u32 * 100 / max_duty as u32
            };
            assert_eq!(state.heater_power() as u32, expected);
        }
    }
}

#[test]
fn get_heater_duty_hands_setpoint_and_temperature_to_the_regulator() {
    let mut app = App::new(4000);
    let mut seen = (0u16, 0u16);
    let duty = app.get_heater_duty(2896, |setpoint, measured| {
        seen = (setpoint, measured);
        150
    });
    assert_eq!(seen, (24_000, 20_000));
    assert_eq!(duty, 150);
    assert_eq!(app.state().cur_temp(), 20_000);
    assert_eq!(app.state().heater_duty(), 150);
    assert_eq!(app.state().heater_power(), 3);
}

#[test]
fn get_heater_duty_clamps_whatever_the_regulator_asks_for() {
    let mut app = App::new(1000);
    assert_eq!(app.get_heater_duty(0, |_, _| i32::MAX), 1000);
    assert_eq!(app.state().heater_power(), 100);
    assert_eq!(app.get_heater_duty(0, |_, _| i32::MIN), 0);
    assert_eq!(app.state().heater_power(), 0);
    assert_eq!(app.state().cur_temp(), 44_100);
}
