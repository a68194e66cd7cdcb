use solar_tracker::homing::{
    HomingAction, HomingPass, ADVANCE_STEPS, CHUNK_STEPS, SWEEP_CHUNKS, SWEEP_STEPS,
};
use solar_tracker::motion::Motion;
use solar_tracker::states::ControllerState;
use solar_tracker::units::calculate_steps;

#[test]
fn homing_constants_are_the_step_counts_of_the_angles() {
    assert_eq!(ADVANCE_STEPS, calculate_steps(15_000));
    assert_eq!(-SWEEP_STEPS, calculate_steps(-360_000));
    assert_eq!(-CHUNK_STEPS, calculate_steps(-1_000));
    assert_eq!(SWEEP_CHUNKS, 361);
}

#[test]
fn switch_pressed_at_the_start_is_home_at_once() {
    let mut pass = HomingPass::new();
    assert_eq!(pass.next(true), HomingAction::Found);
}

#[test]
fn pass_advances_then_sweeps_until_home() {
    let mut pass = HomingPass::new();
    assert_eq!(pass.next(false), HomingAction::Move { steps: 448_000 });
    assert_eq!(pass.chunks_left(), 361);
    assert_eq!(pass.next(false), HomingAction::Move { steps: -29_866 });
    assert_eq!(pass.next(false), HomingAction::Move { steps: -29_866 });
    assert_eq!(pass.chunks_left(), 359);
    assert_eq!(pass.next(true), HomingAction::Found);
    assert_eq!(pass.chunks_left(), 359);
}

#[test]
fn limit_switch_never_seen_ends_in_fault() {
    let mut motion = Motion::new(false, false, 0);
    motion.init();
    let mut pass = HomingPass::new();
    let mut swept: i64 = 0;
    let mut chunks = 0;
    assert_eq!(
        motion.find_limit_switch_cw(&mut pass, false),
        HomingAction::Move { steps: ADVANCE_STEPS }
    );
    loop {
        match motion.find_limit_switch_cw(&mut pass, false) {
            HomingAction::Move { steps } => {
                swept += steps;
                chunks += 1;
            }
            HomingAction::NotFound => break,
            HomingAction::Found => panic!("the switch was never pressed"),
        }
        assert!(chunks <= 361);
    }
    assert_eq!(chunks, 361);
    // the sweep covers at least a full turn, backwards
    assert!(swept <= -SWEEP_STEPS);
    assert_eq!(motion.state(), ControllerState::Fault);
    // once the sweep is used up, even a pressed switch is not taken
    assert_eq!(pass.next(true), HomingAction::NotFound);
}

#[test]
fn homing_sets_position_and_encoder_from_any_start() {
    for start in [0i64, 42_000, 90_000, 135_500, 180_000] {
        let mut motion = Motion::new(true, false, 0);
        motion.update_position(start);
        motion.read_encoder(true, true);
        motion.read_encoder(false, true);
        motion.read_encoder(false, false);
        let mut pass = HomingPass::new();
        assert!(matches!(motion.find_limit_switch_cw(&mut pass, false), HomingAction::Move { .. }));
        assert!(matches!(motion.find_limit_switch_cw(&mut pass, false), HomingAction::Move { .. }));
        assert_eq!(motion.find_limit_switch_cw(&mut pass, true), HomingAction::Found);
        assert_eq!(motion.location(), 90_000);
        assert_eq!(motion.encoder_count(), 87_080);
        assert_eq!(solar_tracker::position_store::adjusted_ticks(motion.encoder_count()), 0);
        assert!((motion.encoder_degrees() - 90_000).abs() <= 1);
        assert_eq!(motion.state(), ControllerState::Idle);
    }
}

#[test]
fn counter_clockwise_pass_mirrors_the_clockwise_one() {
    let mut motion = Motion::new(false, false, 0);
    let mut pass = HomingPass::counter_clockwise();
    assert_eq!(
        motion.find_limit_switch_ccw(&mut pass, false),
        HomingAction::Move { steps: -448_000 }
    );
    let mut chunks = 0;
    loop {
        match motion.find_limit_switch_ccw(&mut pass, chunks == 200) {
            HomingAction::Move { steps } => {
                assert_eq!(steps, 29_866);
                chunks += 1;
            }
            HomingAction::Found => break,
            HomingAction::NotFound => panic!("the switch was pressed"),
        }
    }
    assert_eq!(chunks, 200);
    assert_eq!(pass.chunks_left(), 161);
    assert_eq!(motion.location(), 90_000);
    assert_eq!(motion.encoder_count(), 87_080);
    assert_eq!(motion.state(), ControllerState::Idle);
    let mut pass = HomingPass::counter_clockwise();
    let mut moves = 0;
    while pass.next(false) != HomingAction::NotFound {
        moves += 1;
        assert!(moves <= 362);
    }
    assert_eq!(moves, 362);
}
