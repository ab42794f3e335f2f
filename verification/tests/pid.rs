use reflow_controller::pid::{ControlOutput, Pid};

#[test]
fn fresh_controller_has_no_gain() {
    let pid = Pid::new(10, 100);
    assert_eq!(pid.setpoint, 10);
    assert_eq!(pid.output_limit, 100);
    assert_eq!((pid.kp, pid.ki, pid.kd), (0, 0, 0));
    assert_eq!((pid.p_limit, pid.i_limit, pid.d_limit), (0, 0, 0));
    assert_eq!(pid.integral_term, 0);
    assert_eq!(pid.prev_measurement, None);
}

#[test]
fn proportional() {
    let mut pid = Pid::new(10, 100);
    pid.p(2, 100);
    pid.i(0, 100);
    pid.d(0, 100);
    assert_eq!(pid.next_control_output(0).output, 20);
    pid.p_limit = 10;
    assert_eq!(pid.next_control_output(0).output, 10);
}

#[test]
fn derivative() {
    let mut pid = Pid::new(10, 100);
    pid.p(0, 100);
    pid.i(0, 100);
    pid.d(2, 100);
    assert_eq!(pid.next_control_output(0).output, 0);
    assert_eq!(pid.next_control_output(5).output, -10);
    pid.d_limit = 5;
    assert_eq!(pid.next_control_output(10).output, -5);
}

#[test]
fn integral() {
    let mut pid = Pid::new(10, 100);
    pid.p(0, 100);
    pid.i(2, 100);
    pid.d(0, 100);
    assert_eq!(pid.next_control_output(0).output, 20);
    assert_eq!(pid.next_control_output(0).output, 40);
    assert_eq!(pid.next_control_output(5).output, 50);
    pid.i_limit = 50;
    assert_eq!(pid.next_control_output(5).output, 50);
    assert_eq!(pid.next_control_output(15).output, 40);

    let mut pid2 = Pid::new(-10, 100);
    pid2.p(0, 100);
    pid2.i(2, 100);
    pid2.d(0, 100);
    assert_eq!(pid2.next_control_output(0).output, -20);
    assert_eq!(pid2.next_control_output(0).output, -40);
    pid2.i_limit = 50;
    assert_eq!(pid2.next_control_output(-5).output, -50);
    assert_eq!(pid2.next_control_output(-15).output, -40);
}

#[test]
fn output_limit() {
    let mut pid = Pid::new(10, 1);
    pid.p(1, 100);
    pid.i(0, 100);
    pid.d(0, 100);
    let out = pid.next_control_output(0);
    assert_eq!(out.p, 10);
    assert_eq!(out.output, 1);
    let out = pid.next_control_output(20);
    assert_eq!(out.p, -10);
    assert_eq!(out.output, -1);
}

#[test]
fn all_three_terms() {
    // Gains in tenths: 1.0, 0.1, 1.0. Terms are then in tenths too.
    let mut pid = Pid::new(10, 1_000);
    pid.p(10, 1_000);
    pid.i(1, 1_000);
    pid.d(10, 1_000);

    let out = pid.next_control_output(0);
    assert_eq!(out, ControlOutput { p: 100, i: 10, d: 0, output: 110 });
    let out = pid.next_control_output(5);
    assert_eq!(out, ControlOutput { p: 50, i: 15, d: -50, output: 15 });
    let out = pid.next_control_output(11);
    assert_eq!(out, ControlOutput { p: -10, i: 14, d: -60, output: -56 });
    let out = pid.next_control_output(10);
    assert_eq!(out, ControlOutput { p: 0, i: 14, d: 10, output: 24 });
}

#[test]
fn setpoint_can_move() {
    let mut pid = Pid::new(10, 1_000);
    pid.p(10, 1_000);
    pid.i(1, 1_000);
    pid.d(10, 1_000);
    let out = pid.next_control_output(0);
    assert_eq!(out, ControlOutput { p: 100, i: 10, d: 0, output: 110 });
    pid.setpoint(0);
    assert_eq!(pid.next_control_output(0), ControlOutput { p: 0, i: 10, d: 0, output: 10 });
}

#[test]
fn step_remembers_measurement_and_integral() {
    let mut pid = Pid::new(100, 1_000);
    pid.i(3, 500);
    let out = pid.next_control_output(90);
    assert_eq!(out.i, 30);
    assert_eq!(pid.integral_term, 30);
    assert_eq!(pid.prev_measurement, Some(90));
}

#[test]
fn reset_clears_the_accumulator() {
    let mut pid = Pid::new(100, 1_000);
    pid.i(3, 500);
    pid.next_control_output(0);
    assert_eq!(pid.integral_term, 300);
    pid.reset_integral_term();
    assert_eq!(pid.integral_term, 0);
    assert_eq!(pid.prev_measurement, Some(0));
}

#[test]
fn integral_cannot_wind_up() {
    let mut pid = Pid::new(1_000, 1_000_000);
    pid.i(7, 4_800);
    for _ in 0..10_000 {
        let out = pid.next_control_output(-1_000);
        assert!(out.i <= 4_800);
    }
    assert_eq!(pid.integral_term, 4_800);
    // One step with the error reversed comes straight off the limit.
    let out = pid.next_control_output(1_100);
    assert_eq!(out.i, 4_800 - 700);
}

#[test]
fn zero_limit_drops_what_was_accumulated() {
    let mut pid = Pid::new(500, 1_000);
    pid.i(1, 400);
    pid.next_control_output(200);
    assert_eq!(pid.integral_term, 300);
    pid.p(0, 10);
    pid.i(0, 0);
    pid.d(0, 0);
    let out = pid.next_control_output(-30_000);
    assert_eq!(out, ControlOutput { p: 0, i: 0, d: 0, output: 0 });
    assert_eq!(pid.integral_term, 0);
}

#[test]
fn widest_inputs_do_not_overflow() {
    let mut pid = Pid::new(i32::MAX, u32::MAX);
    pid.p(i32::MIN, u32::MAX);
    pid.i(i32::MAX, u32::MAX);
    pid.d(i32::MIN, u32::MAX);
    let out = pid.next_control_output(i32::MIN);
    assert_eq!(out.p, -(u32::MAX as i64));
    assert_eq!(out.i, u32::MAX as i64);
    assert_eq!(out.d, 0);
    assert_eq!(out.output, 0);
    let out = pid.next_control_output(i32::MAX);
    assert_eq!(out.p, 0);
    assert_eq!(out.i, u32::MAX as i64);
    assert_eq!(out.d, u32::MAX as i64);
    assert_eq!(out.output, u32::MAX as i64);
    let mut other = Pid::new(i32::MIN, u32::MAX);
    other.p(i32::MIN, u32::MAX);
    other.i(i32::MIN, u32::MAX);
    let out = other.next_control_output(i32::MAX);
    assert_eq!(out.p, u32::MAX as i64);
    assert_eq!(out.i, u32::MAX as i64);
}

#[test]
fn agrees_with_floating_point_controller() {
    // The same gains, as thousandths here and as fractions there; the same
    // temperatures, as sixteenths here and as degrees there.
    let mut fixed = Pid::new(2_928, 1_600_000);
    fixed.p(2_500, 160_000);
    fixed.i(5, 8_000);
    fixed.d(3_000, 16_000);
    let mut float = pid::Pid::<f64>::new(183.0, 100.0);
    float.p(2.5, 10.0);
    float.i(0.005, 0.5);
    float.d(3.0, 1.0);

    let mut reading: i32 = 2_800;
    let mut seed: u32 = 12_345;
    for step in 0..2_000 {
        seed = seed.wrapping_mul(1_103_515_245).wrapping_add(12_345);
        let wobble = ((seed >> 16) % 9) as i32 - 4;
        reading += wobble;
        if step == 700 {
            fixed.setpoint(400);
            float.setpoint(25.0);
        }
        if step == 1_400 {
            fixed.setpoint(3_760);
            float.setpoint(235.0);
        }
        let a = fixed.next_control_output(reading);
        let b = float.next_control_output(reading as f64 / 16.0);
        assert!((a.p as f64 / 16_000.0 - b.p).abs() < 1e-9, "p at step {}", step);
        assert!((a.i as f64 / 16_000.0 - b.i).abs() < 1e-9, "i at step {}", step);
        assert!((a.d as f64 / 16_000.0 - b.d).abs() < 1e-9, "d at step {}", step);
        assert!((a.output as f64 / 16_000.0 - b.output).abs() < 1e-9, "output at step {}", step);
    }
}
