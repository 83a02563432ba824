//! The short scene the cat plays when it starts: it walks off the left edge
//! of the screen, reappears beyond the right edge and walks back in.
use vstd::prelude::*;

verus! {

/// The phases of the intro scene, in the order in which they are played.
#[derive(PartialEq, Eq, Structural, Debug, Clone, Copy)]
pub enum IntroPhase {
    WalkingOutLeft,
    Teleporting,
    WalkingInRight,
    Done,
}

/// Where the intro scene stands.
#[derive(PartialEq, Eq, Structural, Debug, Clone, Copy)]
pub struct IntroSequence {
    pub current_phase: IntroPhase,
}

/// What the cat does with its position during one intro tick.
#[derive(PartialEq, Eq, Structural, Debug, Clone, Copy)]
pub enum IntroMove {
    /// Walk left at the exit speed, playing the walking animation.
    ExitStep,
    /// Jump to the staging spot just beyond the right edge.
    Teleport,
    /// Walk left at the entry speed, playing the walking animation.
    EntryStep,
    /// The scene is over: nothing moves.
    Rest,
}

/// The move that each phase makes.
pub open spec fn move_for(phase: IntroPhase) -> IntroMove {
    match phase {
        IntroPhase::WalkingOutLeft => IntroMove::ExitStep,
        IntroPhase::Teleporting => IntroMove::Teleport,
        IntroPhase::WalkingInRight => IntroMove::EntryStep,
        IntroPhase::Done => IntroMove::Rest,
    }
}

/// The phase after one tick, given whether the walk of that tick has reached
/// its boundary (past the left threshold on the way out, at or past the
/// arrival point on the way in).
pub open spec fn next_phase(phase: IntroPhase, boundary_reached: bool) -> IntroPhase {
    match phase {
        IntroPhase::WalkingOutLeft => if boundary_reached {
            IntroPhase::Teleporting
        } else {
            IntroPhase::WalkingOutLeft
        },
        IntroPhase::Teleporting => IntroPhase::WalkingInRight,
        IntroPhase::WalkingInRight => if boundary_reached {
            IntroPhase::Done
        } else {
            IntroPhase::WalkingInRight
        },
        IntroPhase::Done => IntroPhase::Done,
    }
}

/// The position of a phase in the scene's order, from 0 to 3.
pub open spec fn phase_rank(phase: IntroPhase) -> int {
    match phase {
        IntroPhase::WalkingOutLeft => 0,
        IntroPhase::Teleporting => 1,
        IntroPhase::WalkingInRight => 2,
        IntroPhase::Done => 3,
    }
}

/// Whether a move plays a frame of the walking animation.
pub open spec fn animates(mv: IntroMove) -> bool {
    mv == IntroMove::ExitStep || mv == IntroMove::EntryStep
}

impl IntroMove {
    /// Whether this move changes the cat's position.
    pub fn moves(&self) -> (m: bool)
        ensures
            m == (*self != IntroMove::Rest),
    {
        match self {
            IntroMove::Rest => false,
            _ => true,
        }
    }

    /// Whether this move plays a frame of the walking animation.
    pub fn animates(&self) -> (a: bool)
        ensures
            a == animates(*self),
    {
        match self {
            IntroMove::ExitStep => true,
            IntroMove::EntryStep => true,
            _ => false,
        }
    }
}

impl IntroSequence {
    /// A scene that has not started: the cat is about to walk out left.
    pub fn new() -> (s: Self)
        ensures
            s.current_phase == IntroPhase::WalkingOutLeft,
    {
        IntroSequence { current_phase: IntroPhase::WalkingOutLeft }
    }

    /// The move that the next tick makes.
    pub fn planned_move(&self) -> (mv: IntroMove)
        ensures
            mv == move_for(self.current_phase),
    {
        match self.current_phase {
            IntroPhase::WalkingOutLeft => IntroMove::ExitStep,
            IntroPhase::Teleporting => IntroMove::Teleport,
            IntroPhase::WalkingInRight => IntroMove::EntryStep,
            IntroPhase::Done => IntroMove::Rest,
        }
    }

    /// Ends one tick of the scene: returns the move that the tick made and
    /// goes on to the next phase. `boundary_reached` says whether the walk of
    /// this tick ended past its boundary; it matters only while walking.
    pub fn tick_sequence(&mut self, boundary_reached: bool) -> (mv: IntroMove)
        ensures
            mv == move_for(old(self).current_phase),
            final(self).current_phase == next_phase(old(self).current_phase, boundary_reached),
    {
        let mv = self.planned_move();
        match self.current_phase {
            IntroPhase::WalkingOutLeft => {
                if boundary_reached {
                    self.current_phase = IntroPhase::Teleporting;
                }
            },
            IntroPhase::Teleporting => {
                self.current_phase = IntroPhase::WalkingInRight;
            },
            IntroPhase::WalkingInRight => {
                if boundary_reached {
                    self.current_phase = IntroPhase::Done;
                }
            },
            IntroPhase::Done => {},
        }
        mv
    }
}

/// The scene only goes forward: each tick keeps the phase or moves it on by
/// exactly one, and a finished scene stays finished.
pub proof fn lemma_intro_moves_forward(phase: IntroPhase, boundary_reached: bool)
    ensures
        phase_rank(next_phase(phase, boundary_reached)) == phase_rank(phase)
            || phase_rank(next_phase(phase, boundary_reached)) == phase_rank(phase) + 1,
        phase == IntroPhase::Done ==> next_phase(phase, boundary_reached) == IntroPhase::Done,
        phase == IntroPhase::Teleporting ==> next_phase(phase, boundary_reached) == IntroPhase::WalkingInRight,
{
}

/// The script of the scene: walking out, the cat moves at the exit speed
/// until it passes the left threshold, then teleports for exactly one tick,
/// then walks in at the entry speed until it arrives, and then rests for
/// good.
pub proof fn lemma_intro_script(boundary_reached: bool)
    ensures
        move_for(IntroPhase::WalkingOutLeft) == IntroMove::ExitStep,
        move_for(IntroPhase::Teleporting) == IntroMove::Teleport,
        move_for(IntroPhase::WalkingInRight) == IntroMove::EntryStep,
        move_for(IntroPhase::Done) == IntroMove::Rest,
        next_phase(IntroPhase::WalkingOutLeft, boundary_reached)
            == (if boundary_reached { IntroPhase::Teleporting } else { IntroPhase::WalkingOutLeft }),
        next_phase(IntroPhase::Teleporting, boundary_reached) == IntroPhase::WalkingInRight,
        next_phase(IntroPhase::WalkingInRight, boundary_reached)
            == (if boundary_reached { IntroPhase::Done } else { IntroPhase::WalkingInRight }),
        next_phase(IntroPhase::Done, boundary_reached) == IntroPhase::Done,
{
}

} // verus!
