//! The cat's behaviour brain: which animation it plays, how fast, and how it
//! roams along the bottom of the screen.
use vstd::prelude::*;

verus! {

/// The animations the cat can be in.
#[derive(PartialEq, Eq, Structural, Debug, Clone, Copy)]
pub enum CatState {
    Idle,
    IdleToSleeping,
    Sleeping,
    SleepingToIdle,
    WalkingLeft,
    WalkingRight,
}

/// The part of the cat that decides what it does next.
///
/// `event_number` is the last rolled event; `frame_delay_ms` is the time
/// between two animation frames, in milliseconds.
#[derive(PartialEq, Eq, Structural, Debug, Clone, Copy)]
pub struct BehaviorBrain {
    pub current_state: CatState,
    pub event_number: u32,
    pub frame_delay_ms: u64,
}

/// What one roaming tick did to the cat's position and heading.
#[derive(PartialEq, Eq, Structural, Debug, Clone, Copy)]
pub enum Roam {
    /// Took one step to the left.
    StepLeft,
    /// Took one step to the right.
    StepRight,
    /// Reached the left edge and now heads right.
    TurnRight,
    /// Reached the right edge and now heads left.
    TurnLeft,
    /// Not walking: nothing moved.
    Stay,
}

/// Frame delay of a slow, calm animation.
pub const SLOW_FRAME_MS: u64 = 400;

/// Frame delay of a walk or of a transition between awake and asleep.
pub const FAST_FRAME_MS: u64 = 100;

/// Whether an event number is one that the brain reacts to (1 to 26).
pub open spec fn is_known_event(event: u32) -> bool {
    1 <= event <= 26
}

/// The state that an event leads to from `state`: events 1-11 idle, 12 starts
/// falling asleep, 13-15 walk left, 16-18 walk right, 19-25 sleep, 26 wakes
/// up; any other number leaves the state as it is.
pub open spec fn next_state(event: u32, state: CatState) -> CatState {
    if 1 <= event <= 11 {
        CatState::Idle
    } else if event == 12 {
        CatState::IdleToSleeping
    } else if 13 <= event <= 15 {
        CatState::WalkingLeft
    } else if 16 <= event <= 18 {
        CatState::WalkingRight
    } else if 19 <= event <= 25 {
        CatState::Sleeping
    } else if event == 26 {
        CatState::SleepingToIdle
    } else {
        state
    }
}

/// The frame delay that belongs to each animation.
pub open spec fn delay_for(state: CatState) -> u64 {
    match state {
        CatState::Idle => SLOW_FRAME_MS,
        CatState::Sleeping => SLOW_FRAME_MS,
        _ => FAST_FRAME_MS,
    }
}

/// Whether the cat is walking (in either direction).
pub open spec fn is_walking(state: CatState) -> bool {
    state == CatState::WalkingLeft || state == CatState::WalkingRight
}

/// The brain after it has interpreted its current event.
pub open spec fn interpreted(brain: BehaviorBrain) -> BehaviorBrain {
    if is_known_event(brain.event_number) {
        BehaviorBrain {
            current_state: next_state(brain.event_number, brain.current_state),
            frame_delay_ms: delay_for(next_state(brain.event_number, brain.current_state)),
            ..brain
        }
    } else {
        brain
    }
}

/// Where a roaming tick leaves the brain, and what it does, given whether the
/// cat is still clear of the left edge and of the right edge.
pub open spec fn roamed(brain: BehaviorBrain, clear_of_left_edge: bool, clear_of_right_edge: bool) -> (BehaviorBrain, Roam) {
    match brain.current_state {
        CatState::WalkingLeft => if clear_of_left_edge {
            (brain, Roam::StepLeft)
        } else {
            (BehaviorBrain { current_state: CatState::WalkingRight, ..brain }, Roam::TurnRight)
        },
        CatState::WalkingRight => if clear_of_right_edge {
            (brain, Roam::StepRight)
        } else {
            (BehaviorBrain { current_state: CatState::WalkingLeft, ..brain }, Roam::TurnLeft)
        },
        _ => (brain, Roam::Stay),
    }
}

/// A cat whose frame delay is the one its animation calls for.
pub open spec fn paced(brain: BehaviorBrain) -> bool {
    brain.frame_delay_ms == delay_for(brain.current_state)
}

/// The brain of a freshly started cat.
pub open spec fn initial_brain() -> BehaviorBrain {
    BehaviorBrain { current_state: CatState::Idle, event_number: 1, frame_delay_ms: SLOW_FRAME_MS }
}

impl BehaviorBrain {
    /// A cat that is idle, with event 1 pending and the slow frame delay.
    pub fn new() -> (brain: Self)
        ensures
            brain == initial_brain(),
    {
        BehaviorBrain { current_state: CatState::Idle, event_number: 1, frame_delay_ms: SLOW_FRAME_MS }
    }

    /// Reads the current event number and moves to the animation it names,
    /// with that animation's frame delay. An unknown event number leaves the
    /// brain as it was.
    pub fn interpret_new_event(&mut self)
        ensures
            *final(self) == interpreted(*old(self)),
            final(self).event_number == old(self).event_number,
            1 <= old(self).event_number <= 11 ==> final(self).current_state == CatState::Idle
                && final(self).frame_delay_ms == 400,
            old(self).event_number == 12 ==> final(self).current_state == CatState::IdleToSleeping
                && final(self).frame_delay_ms == 100,
            13 <= old(self).event_number <= 15 ==> final(self).current_state == CatState::WalkingLeft
                && final(self).frame_delay_ms == 100,
            16 <= old(self).event_number <= 18 ==> final(self).current_state == CatState::WalkingRight
                && final(self).frame_delay_ms == 100,
            19 <= old(self).event_number <= 25 ==> final(self).current_state == CatState::Sleeping
                && final(self).frame_delay_ms == 400,
            old(self).event_number == 26 ==> final(self).current_state == CatState::SleepingToIdle
                && final(self).frame_delay_ms == 100,
            (old(self).event_number == 0 || old(self).event_number > 26) ==> *final(self) == *old(self),
    {
        let e = self.event_number;
        if 1 <= e && e <= 11 {
            self.current_state = CatState::Idle;
            self.frame_delay_ms = SLOW_FRAME_MS;
        } else if e == 12 {
            self.current_state = CatState::IdleToSleeping;
            self.frame_delay_ms = FAST_FRAME_MS;
        } else if 13 <= e && e <= 15 {
            self.current_state = CatState::WalkingLeft;
            self.frame_delay_ms = FAST_FRAME_MS;
        } else if 16 <= e && e <= 18 {
            self.current_state = CatState::WalkingRight;
            self.frame_delay_ms = FAST_FRAME_MS;
        } else if 19 <= e && e <= 25 {
            self.current_state = CatState::Sleeping;
            self.frame_delay_ms = SLOW_FRAME_MS;
        } else if e == 26 {
            self.current_state = CatState::SleepingToIdle;
            self.frame_delay_ms = FAST_FRAME_MS;
        }
    }

    /// One roaming tick. A cat walking left steps left while it is clear of
    /// the left edge and turns right when it is not; a cat walking right does
    /// the mirror image; a cat that is not walking stays where it is.
    pub fn tick_roaming(&mut self, clear_of_left_edge: bool, clear_of_right_edge: bool) -> (step: Roam)
        ensures
            (*final(self), step) == roamed(*old(self), clear_of_left_edge, clear_of_right_edge),
            old(self).current_state == CatState::WalkingLeft && clear_of_left_edge
                ==> step == Roam::StepLeft && *final(self) == *old(self),
            old(self).current_state == CatState::WalkingLeft && !clear_of_left_edge
                ==> step == Roam::TurnRight
                && *final(self) == (BehaviorBrain { current_state: CatState::WalkingRight, ..*old(self) }),
            old(self).current_state == CatState::WalkingRight && clear_of_right_edge
                ==> step == Roam::StepRight && *final(self) == *old(self),
            old(self).current_state == CatState::WalkingRight && !clear_of_right_edge
                ==> step == Roam::TurnLeft
                && *final(self) == (BehaviorBrain { current_state: CatState::WalkingLeft, ..*old(self) }),
            !is_walking(old(self).current_state) ==> step == Roam::Stay && *final(self) == *old(self),
    {
        match self.current_state {
            CatState::WalkingLeft => {
                if clear_of_left_edge {
                    Roam::StepLeft
                } else {
                    self.current_state = CatState::WalkingRight;
                    Roam::TurnRight
                }
            },
            CatState::WalkingRight => {
                if clear_of_right_edge {
                    Roam::StepRight
                } else {
                    self.current_state = CatState::WalkingLeft;
                    Roam::TurnLeft
                }
            },
            _ => Roam::Stay,
        }
    }
}

impl Roam {
    /// Whether this roaming step changed the cat's position.
    pub fn moves(&self) -> (m: bool)
        ensures
            m == (*self == Roam::StepLeft || *self == Roam::StepRight),
    {
        match self {
            Roam::StepLeft => true,
            Roam::StepRight => true,
            _ => false,
        }
    }
}

/// Reading the same event twice changes nothing more than reading it once.
pub proof fn lemma_interpret_idempotent(brain: BehaviorBrain)
    ensures
        interpreted(interpreted(brain)) == interpreted(brain),
        next_state(brain.event_number, next_state(brain.event_number, brain.current_state))
            == next_state(brain.event_number, brain.current_state),
{
}

/// A known event names its animation whatever the cat was doing before.
pub proof fn lemma_known_event_ignores_state(event: u32, a: CatState, b: CatState)
    requires
        is_known_event(event),
    ensures
        next_state(event, a) == next_state(event, b),
{
}

/// Interpreting an event and roaming keep the frame delay in step with the
/// animation.
pub proof fn lemma_pace_is_kept(brain: BehaviorBrain, clear_of_left_edge: bool, clear_of_right_edge: bool)
    requires
        paced(brain),
    ensures
        paced(interpreted(brain)),
        paced(roamed(brain, clear_of_left_edge, clear_of_right_edge).0),
{
}

/// Roaming never touches the event or the frame delay; a walking cat stays a
/// walking cat, and a cat that is not walking neither moves nor turns.
pub proof fn lemma_roaming_keeps_walking(brain: BehaviorBrain, clear_of_left_edge: bool, clear_of_right_edge: bool)
    ensures
        ({
            let (after, step) = roamed(brain, clear_of_left_edge, clear_of_right_edge);
            &&& after.event_number == brain.event_number
            &&& after.frame_delay_ms == brain.frame_delay_ms
            &&& is_walking(after.current_state) == is_walking(brain.current_state)
            &&& (!is_walking(brain.current_state) ==> after == brain && step == Roam::Stay)
        }),
{
}

/// The event table: whatever the cat was doing, events 1-11 make it idle
/// (slow frames), 12 starts falling asleep, 13-15 walk left, 16-18 walk right
/// (fast frames), 19-25 sleep (slow frames) and 26 starts waking up (fast
/// frames); the event itself is kept, and any other number changes nothing.
pub proof fn lemma_event_table(brain: BehaviorBrain)
    ensures
        ({
            let e = brain.event_number;
            let r = interpreted(brain);
            &&& r.event_number == e
            &&& 1 <= e <= 11 ==> r.current_state == CatState::Idle && r.frame_delay_ms == 400
            &&& e == 12 ==> r.current_state == CatState::IdleToSleeping && r.frame_delay_ms == 100
            &&& 13 <= e <= 15 ==> r.current_state == CatState::WalkingLeft && r.frame_delay_ms == 100
            &&& 16 <= e <= 18 ==> r.current_state == CatState::WalkingRight && r.frame_delay_ms == 100
            &&& 19 <= e <= 25 ==> r.current_state == CatState::Sleeping && r.frame_delay_ms == 400
            &&& e == 26 ==> r.current_state == CatState::SleepingToIdle && r.frame_delay_ms == 100
            &&& (e == 0 || e > 26) ==> r == brain
        }),
{
}

/// Roaming follows the edge in the walking direction only: a cat walking
/// left steps left while it is clear of the left edge, whatever the right
/// edge says, and turns right only at the left edge; the mirror image holds
/// for a cat walking right. A turn changes the heading and nothing else.
pub proof fn lemma_roam_follows_the_edges(brain: BehaviorBrain, clear_of_left_edge: bool, clear_of_right_edge: bool)
    ensures
        ({
            let (after, step) = roamed(brain, clear_of_left_edge, clear_of_right_edge);
            &&& brain.current_state == CatState::WalkingLeft && clear_of_left_edge
                ==> step == Roam::StepLeft && after == brain
            &&& brain.current_state == CatState::WalkingLeft && !clear_of_left_edge
                ==> step == Roam::TurnRight
                && after == (BehaviorBrain { current_state: CatState::WalkingRight, ..brain })
            &&& brain.current_state == CatState::WalkingRight && clear_of_right_edge
                ==> step == Roam::StepRight && after == brain
            &&& brain.current_state == CatState::WalkingRight && !clear_of_right_edge
                ==> step == Roam::TurnLeft
                && after == (BehaviorBrain { current_state: CatState::WalkingLeft, ..brain })
        }),
{
}

/// Idle and sleeping cats show their frames slowly, every 400 ms; walks and
/// the transitions between awake and asleep run at 100 ms.
pub proof fn lemma_frame_delays()
    ensures
        delay_for(CatState::Idle) == 400,
        delay_for(CatState::Sleeping) == 400,
        delay_for(CatState::IdleToSleeping) == 100,
        delay_for(CatState::SleepingToIdle) == 100,
        delay_for(CatState::WalkingLeft) == 100,
        delay_for(CatState::WalkingRight) == 100,
        initial_brain() == (BehaviorBrain { current_state: CatState::Idle, event_number: 1, frame_delay_ms: 400 }),
{
}

} // verus!
