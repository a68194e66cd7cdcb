use solar_tracker::closed_loop::{
    step_chunk, ClosedLoopMove, LoopAction, StallMonitor, ENCODER_TOLERANCE, MAX_CHUNK_STEPS,
    MAX_ITERATIONS, STALL_TIME_MS,
};
use solar_tracker::units::{angle_to_encoder_ticks, motor_steps_to_encoder_ticks};

#[test]
fn constants_of_the_loop() {
    assert_eq!(ENCODER_TOLERANCE, 10);
    assert_eq!(MAX_CHUNK_STEPS, 1000);
    assert_eq!(MAX_ITERATIONS, 10_000);
    assert_eq!(STALL_TIME_MS, 250);
}

#[test]
fn chunk_is_the_steps_of_the_ticks_left_within_a_thousand() {
    assert_eq!(step_chunk(0), 0);
    assert_eq!(step_chunk(1), 31);
    assert_eq!(step_chunk(-1), -31);
    assert_eq!(step_chunk(11), 340);
    assert_eq!(step_chunk(32), 988);
    assert_eq!(step_chunk(33), 1000);
    assert_eq!(step_chunk(-33), -1000);
    assert_eq!(step_chunk(4838), 1000);
    assert_eq!(step_chunk(i64::MAX as i128 - i64::MIN as i128), 1000);
    assert_eq!(step_chunk(i64::MIN as i128 - i64::MAX as i128), -1000);
}

#[test]
fn within_tolerance_converges_at_once() {
    let mut mv = ClosedLoopMove::new(1000, 995, 10);
    assert_eq!(mv.step(995, 0, 0), LoopAction::Converged);
    assert_eq!(mv.step(1010, 0, 1), LoopAction::Converged);
    assert_eq!(mv.step(990, 0, 2), LoopAction::Converged);
    assert_eq!(mv.step(1011, 0, 3), LoopAction::Command { steps: -340 });
    assert_eq!(mv.iteration_count(), 1);
    assert_eq!(mv.target_ticks(), 1000);
}

#[test]
fn frozen_encoder_stalls_within_250_ms() {
    let mut mv = ClosedLoopMove::new(4838, 0, 10);
    // the motor is not moving yet when the move starts
    assert_eq!(mv.step(0, 0, 0), LoopAction::Command { steps: 1000 });
    let mut stalled_at = None;
    for t in 1u64..=400 {
        match mv.step(0, 500, t) {
            LoopAction::Command { steps } => assert_eq!(steps, 1000),
            LoopAction::Stalled => {
                stalled_at = Some(t);
                break;
            }
            other => panic!("unexpected {:?}", other),
        }
    }
    // the standstill is first seen at 1 ms and has lasted 250 ms at 251 ms
    assert_eq!(stalled_at, Some(251));
}

#[test]
fn moving_encoder_never_stalls() {
    let mut monitor = StallMonitor::new(0);
    for t in 0u64..1000 {
        assert!(!monitor.check_stall((t / 100) as i64, 500, t));
    }
}

#[test]
fn stall_monitor_ignores_a_motor_at_rest() {
    let mut monitor = StallMonitor::new(0);
    for t in 0u64..1000 {
        assert!(!monitor.check_stall(0, 1, t));
        assert!(!monitor.check_stall(0, 0, t));
        assert!(!monitor.check_stall(0, -1, t));
    }
    assert!(!monitor.check_stall(0, -2, 1000));
    assert!(!monitor.check_stall(0, -2, 1249));
    assert!(monitor.check_stall(0, -2, 1250));
}

#[test]
fn loop_gives_up_after_ten_thousand_turns() {
    let mut mv = ClosedLoopMove::new(1_000_000, 0, 10);
    for i in 0..10_000u64 {
        // the encoder creeps, so there is no stall, but the target stays far
        assert_eq!(mv.step(i as i64, 500, i), LoopAction::Command { steps: 1000 });
    }
    assert_eq!(mv.iteration_count(), 10_000);
    assert_eq!(mv.step(10_000, 500, 10_000), LoopAction::GaveUp);
    assert_eq!(mv.iteration_count(), 10_000);
}

/// An idealised plant: the encoder moves by the ticks of the commanded steps
/// plus noise of at most two ticks.
fn run_ideal(delta_mdeg: i64, noise: &[i64]) -> (i64, u64) {
    let ticks = angle_to_encoder_ticks(delta_mdeg);
    let mut encoder: i64 = 500;
    let target = encoder + ticks;
    let mut mv = ClosedLoopMove::new(target, encoder, ENCODER_TOLERANCE);
    let mut turn = 0usize;
    loop {
        // the encoder changes every turn, so the speed value plays no part
        match mv.step(encoder, 1000, turn as u64) {
            LoopAction::Converged => return (encoder - target, mv.iteration_count()),
            LoopAction::Command { steps } => {
                encoder += motor_steps_to_encoder_ticks(steps) + noise[turn % noise.len()];
                turn += 1;
            }
            other => panic!("unexpected {:?}", other),
        }
    }
}

#[test]
fn five_degree_move_converges_in_the_ideal_plant() {
    for noise in [&[0i64][..], &[2][..], &[-2][..], &[2, -2, 1, 0, -1][..], &[-2, -2, 2][..]] {
        let (error, turns) = run_ideal(5_000, noise);
        assert!(error.abs() <= 10, "error {}", error);
        assert!(turns <= 161, "turns {}", turns);
        let (error, turns) = run_ideal(-5_000, noise);
        assert!(error.abs() <= 10, "error {}", error);
        assert!(turns <= 161, "turns {}", turns);
    }
}
