use econogenesis::time::TimeController;

#[test]
fn test_starts_paused() {
    let controller = TimeController::new(60);
    assert!(controller.is_paused());
}

#[test]
fn test_toggle_pause() {
    let mut controller = TimeController::new(60);
    assert!(controller.is_paused());

    controller.toggle_pause();
    assert!(!controller.is_paused());

    controller.toggle_pause();
    assert!(controller.is_paused());
}

#[test]
fn test_speed_increase() {
    let mut controller = TimeController::new(60);

    controller.speed_tenths = 1;
    controller.increase_speed();
    assert_eq!(controller.speed_multiplier(), 5);

    controller.increase_speed();
    assert_eq!(controller.speed_multiplier(), 10);

    controller.increase_speed();
    assert_eq!(controller.speed_multiplier(), 20);
}

#[test]
fn test_speed_decrease() {
    let mut controller = TimeController::new(60);

    controller.speed_tenths = 20;
    controller.decrease_speed();
    assert_eq!(controller.speed_multiplier(), 10);

    controller.decrease_speed();
    assert_eq!(controller.speed_multiplier(), 5);

    controller.decrease_speed();
    assert_eq!(controller.speed_multiplier(), 1);
}

#[test]
fn test_paused_time_doesnt_advance() {
    let mut controller = TimeController::new(60);
    assert!(controller.is_paused());

    let delta = controller.advance(50_000_000);

    assert_eq!(delta, 0);
    assert_eq!(controller.simulation_time(), 0);
}

#[test]
fn test_format_time() {
    let mut controller = TimeController::new(60);

    controller.simulation_nanos = 45 * 1_000_000_000;
    assert_eq!(controller.format_time(), "45s");

    controller.simulation_nanos = 125 * 1_000_000_000;
    assert_eq!(controller.format_time(), "2m 5s");

    controller.simulation_nanos = 3665 * 1_000_000_000;
    assert_eq!(controller.format_time(), "1h 1m 5s");

    controller.simulation_nanos = 90061 * 1_000_000_000;
    assert_eq!(controller.format_time(), "1d 1h 1m 1s");
}

#[test]
fn format_time_zero_and_unit_edges() {
    let mut controller = TimeController::new(60);
    assert_eq!(controller.format_time(), "0s");

    controller.simulation_nanos = 60 * 1_000_000_000;
    assert_eq!(controller.format_time(), "1m 0s");

    controller.simulation_nanos = 3600 * 1_000_000_000;
    assert_eq!(controller.format_time(), "1h 0m 0s");

    controller.simulation_nanos = 86400 * 1_000_000_000;
    assert_eq!(controller.format_time(), "1d 0h 0m 0s");
}

#[test]
fn advance_scales_by_speed() {
    let mut controller = TimeController::new(60);
    controller.toggle_pause();
    assert!(!controller.is_paused());

    // 1.0x: one second of wall time is one second of simulation time.
    let delta = controller.advance(1_000_000_000);
    assert_eq!(delta, 1_000_000_000);
    assert_eq!(controller.simulation_time(), 1_000_000_000);

    // 0.1x: ten seconds of wall time add one second.
    controller.speed_tenths = 1;
    let delta = controller.advance(10_000_000_000);
    assert_eq!(delta, 1_000_000_000);
    assert_eq!(controller.simulation_time(), 2_000_000_000);

    // 50x: one second of wall time adds fifty seconds.
    controller.speed_tenths = 500;
    let delta = controller.advance(1_000_000_000);
    assert_eq!(delta, 50_000_000_000);
    assert_eq!(controller.simulation_time(), 52_000_000_000);
}

#[test]
fn speed_ladder_round_trips() {
    // From every rung, up then down lands at or below the origin.
    for rung in [1u64, 5, 10, 20, 50, 100, 200, 500] {
        let mut controller = TimeController::new(60);
        controller.speed_tenths = rung;
        controller.increase_speed();
        controller.decrease_speed();
        assert!(controller.speed_multiplier() <= rung);
    }
}

#[test]
fn speed_ladder_clamps_at_ends() {
    let mut controller = TimeController::new(60);

    controller.speed_tenths = 500;
    controller.increase_speed();
    controller.increase_speed();
    assert_eq!(controller.speed_multiplier(), 500);

    controller.speed_tenths = 1;
    controller.decrease_speed();
    controller.decrease_speed();
    assert_eq!(controller.speed_multiplier(), 1);
}

#[test]
fn delta_time_is_zero_while_paused() {
    let controller = TimeController::new(60);
    assert!(controller.is_paused());
    assert_eq!(controller.delta_time(), 0);
}

#[test]
fn step_returns_zero_while_paused() {
    let mut controller = TimeController::new(60);
    assert!(controller.is_paused());
    let delta = controller.step();
    assert_eq!(delta, 0);
    assert_eq!(controller.simulation_time(), 0);
}

#[test]
fn target_frame_duration_is_second_over_fps() {
    let controller = TimeController::new(30);
    assert_eq!(controller.target_frame_duration(), 33_333_333);

    let controller = TimeController::new(60);
    assert_eq!(controller.target_frame_duration(), 16_666_666);
}

#[test]
fn advance_saturates_instead_of_overflowing() {
    let mut controller = TimeController::new(60);
    controller.toggle_pause();
    controller.speed_tenths = 500;

    let delta = controller.advance(u64::MAX);
    assert_eq!(delta, u64::MAX);
    assert_eq!(controller.simulation_time(), u64::MAX);

    // A further step keeps the accumulator clamped at the maximum.
    let delta = controller.advance(1_000_000_000);
    assert_eq!(controller.simulation_time(), u64::MAX);
    assert_eq!(delta, 50_000_000_000);
}
