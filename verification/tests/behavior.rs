use desktop_cat::ai::{BehaviorBrain, CatState, Roam, FAST_FRAME_MS, SLOW_FRAME_MS};

fn brain_at(state: CatState, event: u32, delay: u64) -> BehaviorBrain {
    BehaviorBrain { current_state: state, event_number: event, frame_delay_ms: delay }
}

#[test]
fn new_brain_is_idle_with_event_one() {
    let b = BehaviorBrain::new();
    assert_eq!(b.current_state, CatState::Idle);
    assert_eq!(b.event_number, 1);
    assert_eq!(b.frame_delay_ms, 400);
}

#[test]
fn every_known_event_names_its_animation() {
    let expected = |e: u32| -> (CatState, u64) {
        match e {
            1..=11 => (CatState::Idle, 400),
            12 => (CatState::IdleToSleeping, 100),
            13..=15 => (CatState::WalkingLeft, 100),
            16..=18 => (CatState::WalkingRight, 100),
            19..=25 => (CatState::Sleeping, 400),
            26 => (CatState::SleepingToIdle, 100),
            _ => unreachable!(),
        }
    };
    for e in 1..=26u32 {
        let mut b = brain_at(CatState::Sleeping, e, 7);
        b.interpret_new_event();
        let (state, delay) = expected(e);
        assert_eq!(b.current_state, state, "event {}", e);
        assert_eq!(b.frame_delay_ms, delay, "event {}", e);
        assert_eq!(b.event_number, e);
    }
}

#[test]
fn range_edges_of_the_event_table() {
    let cases = [
        (11, CatState::Idle),
        (12, CatState::IdleToSleeping),
        (13, CatState::WalkingLeft),
        (15, CatState::WalkingLeft),
        (16, CatState::WalkingRight),
        (18, CatState::WalkingRight),
        (19, CatState::Sleeping),
        (25, CatState::Sleeping),
        (26, CatState::SleepingToIdle),
    ];
    for (e, s) in cases {
        let mut b = brain_at(CatState::Idle, e, 400);
        b.interpret_new_event();
        assert_eq!(b.current_state, s);
    }
}

#[test]
fn unknown_events_leave_the_brain_alone() {
    for e in [0u32, 27, 100, u32::MAX] {
        let before = brain_at(CatState::WalkingRight, e, 123);
        let mut b = before;
        b.interpret_new_event();
        assert_eq!(b, before);
    }
}

#[test]
fn interpreting_twice_is_interpreting_once() {
    for e in 0..30u32 {
        for s in [CatState::Idle, CatState::Sleeping, CatState::WalkingLeft] {
            let mut once = brain_at(s, e, 100);
            once.interpret_new_event();
            let mut twice = once;
            twice.interpret_new_event();
            assert_eq!(once, twice);
        }
    }
}

#[test]
fn walking_left_steps_then_turns_at_the_edge() {
    let mut b = brain_at(CatState::WalkingLeft, 14, FAST_FRAME_MS);
    assert_eq!(b.tick_roaming(true, false), Roam::StepLeft);
    assert_eq!(b.current_state, CatState::WalkingLeft);
    assert_eq!(b.tick_roaming(false, true), Roam::TurnRight);
    assert_eq!(b.current_state, CatState::WalkingRight);
    assert_eq!(b.frame_delay_ms, FAST_FRAME_MS);
    assert_eq!(b.event_number, 14);
}

#[test]
fn walking_right_steps_then_turns_at_the_edge() {
    let mut b = brain_at(CatState::WalkingRight, 17, FAST_FRAME_MS);
    assert_eq!(b.tick_roaming(false, true), Roam::StepRight);
    assert_eq!(b.current_state, CatState::WalkingRight);
    assert_eq!(b.tick_roaming(true, false), Roam::TurnLeft);
    assert_eq!(b.current_state, CatState::WalkingLeft);
}

#[test]
fn resting_cats_do_not_roam() {
    for s in [CatState::Idle, CatState::IdleToSleeping, CatState::Sleeping, CatState::SleepingToIdle] {
        let before = brain_at(s, 3, SLOW_FRAME_MS);
        let mut b = before;
        assert_eq!(b.tick_roaming(false, false), Roam::Stay);
        assert_eq!(b.tick_roaming(true, true), Roam::Stay);
        assert_eq!(b, before);
    }
}

#[test]
fn only_steps_move_the_cat() {
    assert!(Roam::StepLeft.moves());
    assert!(Roam::StepRight.moves());
    assert!(!Roam::TurnLeft.moves());
    assert!(!Roam::TurnRight.moves());
    assert!(!Roam::Stay.moves());
}
