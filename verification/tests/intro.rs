use desktop_cat::intro::{IntroMove, IntroPhase, IntroSequence};

#[test]
fn intro_starts_walking_out_left() {
    let s = IntroSequence::new();
    assert_eq!(s.current_phase, IntroPhase::WalkingOutLeft);
    assert_eq!(s.planned_move(), IntroMove::ExitStep);
}

#[test]
fn intro_plays_its_phases_in_order() {
    let mut s = IntroSequence::new();
    assert_eq!(s.tick_sequence(false), IntroMove::ExitStep);
    assert_eq!(s.current_phase, IntroPhase::WalkingOutLeft);
    assert_eq!(s.tick_sequence(true), IntroMove::ExitStep);
    assert_eq!(s.current_phase, IntroPhase::Teleporting);
    assert_eq!(s.planned_move(), IntroMove::Teleport);
    assert_eq!(s.tick_sequence(false), IntroMove::Teleport);
    assert_eq!(s.current_phase, IntroPhase::WalkingInRight);
    assert_eq!(s.tick_sequence(false), IntroMove::EntryStep);
    assert_eq!(s.current_phase, IntroPhase::WalkingInRight);
    assert_eq!(s.tick_sequence(true), IntroMove::EntryStep);
    assert_eq!(s.current_phase, IntroPhase::Done);
}

#[test]
fn teleport_lasts_one_tick_whatever_the_flag() {
    let mut s = IntroSequence { current_phase: IntroPhase::Teleporting };
    assert_eq!(s.tick_sequence(true), IntroMove::Teleport);
    assert_eq!(s.current_phase, IntroPhase::WalkingInRight);
}

#[test]
fn done_stays_done() {
    let mut s = IntroSequence { current_phase: IntroPhase::Done };
    for flag in [false, true, false] {
        assert_eq!(s.tick_sequence(flag), IntroMove::Rest);
        assert_eq!(s.current_phase, IntroPhase::Done);
    }
}

#[test]
fn which_moves_move_and_animate() {
    assert!(IntroMove::ExitStep.moves() && IntroMove::ExitStep.animates());
    assert!(IntroMove::EntryStep.moves() && IntroMove::EntryStep.animates());
    assert!(IntroMove::Teleport.moves() && !IntroMove::Teleport.animates());
    assert!(!IntroMove::Rest.moves() && !IntroMove::Rest.animates());
}
