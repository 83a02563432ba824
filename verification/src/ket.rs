//! The cat as a whole: its intro scene, its brain, and the frame of the
//! animation it is showing. Everything here is decided from plain values;
//! drawing, timing and screen geometry are left to the caller.
use crate::ai::{
    delay_for, initial_brain, interpreted, is_known_event, is_walking, lemma_interpret_idempotent,
    lemma_known_event_ignores_state, next_state, paced, roamed, BehaviorBrain, CatState, Roam,
    FAST_FRAME_MS,
};
use crate::intro::{
    animates, move_for, next_phase, IntroMove, IntroPhase, IntroSequence,
};
use crate::roll::rand_range;
use vstd::prelude::*;

verus! {

/// How many frames each animation has.
pub open spec fn frame_count(animation: CatState) -> usize {
    match animation {
        CatState::Idle => 4,
        CatState::IdleToSleeping => 6,
        CatState::Sleeping => 4,
        CatState::SleepingToIdle => 6,
        CatState::WalkingLeft => 4,
        CatState::WalkingRight => 4,
    }
}

/// The range from which the next event is rolled when an animation has
/// played its last frame.
pub open spec fn roll_bounds(state: CatState) -> (u32, u32) {
    match state {
        CatState::Idle => (1, 18),
        CatState::IdleToSleeping => (19, 19),
        CatState::Sleeping => (19, 26),
        CatState::SleepingToIdle => (1, 1),
        CatState::WalkingLeft => (1, 18),
        CatState::WalkingRight => (1, 18),
    }
}

/// Which animation may follow which: an awake cat (idle or walking) stays
/// awake or starts falling asleep; falling asleep leads to sleep; a sleeping
/// cat sleeps on or starts waking up; waking up leads to idling. Staying in
/// the same animation is always allowed.
pub open spec fn can_follow(from: CatState, to: CatState) -> bool {
    from == to || match from {
        CatState::IdleToSleeping => to == CatState::Sleeping,
        CatState::Sleeping => to == CatState::SleepingToIdle,
        CatState::SleepingToIdle => to == CatState::Idle,
        _ => to == CatState::Idle || to == CatState::IdleToSleeping || is_walking(to),
    }
}

/// What the cat as a whole is, as plain values.
pub struct KetView {
    pub phase: IntroPhase,
    pub brain: BehaviorBrain,
    pub frame: nat,
}

/// The animation that is on screen: the walk to the left during the intro
/// scene, the brain's animation afterwards.
pub open spec fn animation_of(v: KetView) -> CatState {
    if v.phase == IntroPhase::Done {
        v.brain.current_state
    } else {
        CatState::WalkingLeft
    }
}

/// The frame that follows `frame` in an animation of `total` frames, wrapping
/// round after the last one.
pub open spec fn next_frame(frame: nat, total: nat) -> nat {
    if frame + 1 < total {
        (frame + 1) as nat
    } else {
        0
    }
}

/// How many frames each animation has.
pub fn frames_in(animation: CatState) -> (n: usize)
    ensures
        n == frame_count(animation),
{
    match animation {
        CatState::Idle => 4,
        CatState::IdleToSleeping => 6,
        CatState::Sleeping => 4,
        CatState::SleepingToIdle => 6,
        CatState::WalkingLeft => 4,
        CatState::WalkingRight => 4,
    }
}

/// The range from which the event that follows `state` is rolled.
pub fn roll_range_for(state: CatState) -> (r: (u32, u32))
    ensures
        r == roll_bounds(state),
{
    match state {
        CatState::Idle => (1, 18),
        CatState::IdleToSleeping => (19, 19),
        CatState::Sleeping => (19, 26),
        CatState::SleepingToIdle => (1, 1),
        CatState::WalkingLeft => (1, 18),
        CatState::WalkingRight => (1, 18),
    }
}

/// Every event that an animation can roll leads to an animation that may
/// follow it: the cat falls asleep only through the falling-asleep animation
/// and wakes up only through the waking-up animation.
pub proof fn lemma_rolls_follow_the_graph(state: CatState, event: u32)
    requires
        roll_bounds(state).0 <= event <= roll_bounds(state).1,
    ensures
        is_known_event(event),
        can_follow(state, next_state(event, state)),
{
}

/// Frames advance one at a time: below the last frame the next frame is the
/// one after it, and only after the last frame does the animation start over
/// at frame 0.
pub proof fn lemma_frames_advance_by_one(frame: nat, total: nat)
    requires
        frame < total,
    ensures
        frame + 1 < total ==> next_frame(frame, total) == frame + 1,
        frame + 1 == total ==> next_frame(frame, total) == 0,
        next_frame(frame, total) < total,
{
}

/// During the intro scene the cat is drawn walking left, whatever phase of
/// the scene it is in; afterwards it shows its brain's animation.
pub proof fn lemma_intro_shows_the_left_walk(v: KetView)
    ensures
        v.phase != IntroPhase::Done ==> animation_of(v) == CatState::WalkingLeft,
        v.phase == IntroPhase::Done ==> animation_of(v) == v.brain.current_state,
{
}

/// The animation table: idle, sleep and both walks have 4 frames, falling
/// asleep and waking up have 6; awake cats roll 1-18, falling asleep rolls
/// 19, sleeping rolls 19-26 and waking up rolls 1.
pub proof fn lemma_animation_table()
    ensures
        frame_count(CatState::Idle) == 4,
        frame_count(CatState::IdleToSleeping) == 6,
        frame_count(CatState::Sleeping) == 4,
        frame_count(CatState::SleepingToIdle) == 6,
        frame_count(CatState::WalkingLeft) == 4,
        frame_count(CatState::WalkingRight) == 4,
        roll_bounds(CatState::Idle) == (1u32, 18u32),
        roll_bounds(CatState::IdleToSleeping) == (19u32, 19u32),
        roll_bounds(CatState::Sleeping) == (19u32, 26u32),
        roll_bounds(CatState::SleepingToIdle) == (1u32, 1u32),
        roll_bounds(CatState::WalkingLeft) == (1u32, 18u32),
        roll_bounds(CatState::WalkingRight) == (1u32, 18u32),
{
}

/// The cat as a whole.
pub struct Ket {
    intro: IntroSequence,
    ai_brain: BehaviorBrain,
    i_frame: usize,
}

impl View for Ket {
    type V = KetView;

    closed spec fn view(&self) -> KetView {
        KetView { phase: self.intro.current_phase, brain: self.ai_brain, frame: self.i_frame as nat }
    }
}

impl Ket {
    /// What every cat keeps true: its frame delay matches its animation; its
    /// brain is untouched until the intro scene is over; the frame on screen
    /// belongs to the animation on screen; and once the scene is over, the
    /// pending event leads to an animation that may follow the current one
    /// and in which the current frame still exists.
    #[verifier::type_invariant]
    closed spec fn well_formed(self) -> bool {
        &&& paced(self.ai_brain)
        &&& (self.intro.current_phase != IntroPhase::Done ==> self.ai_brain == initial_brain())
        &&& self.i_frame < frame_count(animation_of(self@))
        &&& (self.intro.current_phase == IntroPhase::Done ==> {
            let pending = next_state(self.ai_brain.event_number, self.ai_brain.current_state);
            &&& self.i_frame < frame_count(pending)
            &&& can_follow(self.ai_brain.current_state, pending)
        })
    }

    /// A cat at the start of its intro scene, with a fresh brain, on frame 0.
    pub fn new() -> (k: Self)
        ensures
            k@.phase == IntroPhase::WalkingOutLeft,
            k@.brain == initial_brain(),
            k@.frame == 0,
    {
        Ket { intro: IntroSequence::new(), ai_brain: BehaviorBrain::new(), i_frame: 0 }
    }

    /// The phase of the intro scene.
    pub fn intro_phase(&self) -> (p: IntroPhase)
        ensures
            p == self@.phase,
    {
        self.intro.current_phase
    }

    /// A copy of the brain.
    pub fn brain(&self) -> (b: BehaviorBrain)
        ensures
            b == self@.brain,
    {
        self.ai_brain
    }

    /// The animation on screen.
    pub fn animation(&self) -> (a: CatState)
        ensures
            a == animation_of(self@),
            self@.phase != IntroPhase::Done ==> a == CatState::WalkingLeft,
            self@.phase == IntroPhase::Done ==> a == self@.brain.current_state,
    {
        if self.intro.current_phase == IntroPhase::Done {
            self.ai_brain.current_state
        } else {
            CatState::WalkingLeft
        }
    }

    /// The frame on screen, which always exists in the animation on screen.
    pub fn frame_index(&self) -> (i: usize)
        ensures
            i == self@.frame,
            i < frame_count(animation_of(self@)),
    {
        proof {
            use_type_invariant(self);
        }
        self.i_frame
    }

    /// The time to wait before the next tick: the fast delay during the
    /// intro scene, the brain's delay afterwards, which is always the one
    /// that the animation on screen calls for.
    pub fn current_delay_ms(&self) -> (ms: u64)
        ensures
            ms == (if self@.phase == IntroPhase::Done { self@.brain.frame_delay_ms } else { FAST_FRAME_MS }),
            ms == (if self@.phase == IntroPhase::Done { delay_for(animation_of(self@)) } else { FAST_FRAME_MS }),
    {
        proof {
            use_type_invariant(self);
        }
        if self.intro.current_phase != IntroPhase::Done {
            FAST_FRAME_MS
        } else {
            self.ai_brain.frame_delay_ms
        }
    }

    /// The move that the next intro tick makes.
    pub fn planned_intro_move(&self) -> (mv: IntroMove)
        ensures
            mv == move_for(self@.phase),
    {
        self.intro.planned_move()
    }

    /// One tick of the intro scene. The caller has made the move that
    /// `planned_intro_move` named and says whether that walk reached its
    /// boundary. A walking move also shows the next frame of the walk. Once
    /// the scene is over nothing changes and the move is `Rest`.
    pub fn intro_tick(&mut self, boundary_reached: bool) -> (mv: IntroMove)
        ensures
            mv == move_for(old(self)@.phase),
            final(self)@.phase == next_phase(old(self)@.phase, boundary_reached),
            final(self)@.brain == old(self)@.brain,
            old(self)@.phase != IntroPhase::Done ==> final(self)@.brain == initial_brain(),
            final(self)@.frame == (if animates(mv) {
                next_frame(old(self)@.frame, frame_count(CatState::WalkingLeft) as nat)
            } else {
                old(self)@.frame
            }),
    {
        proof {
            use_type_invariant(&*self);
        }
        let mut intro = self.intro;
        let mv = intro.tick_sequence(boundary_reached);
        let mut frame = self.i_frame;
        if mv.animates() {
            let total_walk_frames = frames_in(CatState::WalkingLeft);
            if frame < total_walk_frames - 1 {
                frame = frame + 1;
            } else {
                frame = 0;
            }
        }
        *self = Ket { intro, ai_brain: self.ai_brain, i_frame: frame };
        mv
    }

    /// Whether a tick is due after `elapsed_ms` milliseconds, and which one:
    /// `None` while the current delay has not passed, the planned intro move
    /// while the intro scene runs, the brain's tick afterwards.
    pub fn next_tick(&self, elapsed_ms: u64) -> (t: Option<TickKind>)
        ensures
            t == (if elapsed_ms < (if self@.phase == IntroPhase::Done { self@.brain.frame_delay_ms } else { FAST_FRAME_MS }) {
                None
            } else if self@.phase == IntroPhase::Done {
                Some(TickKind::Brain)
            } else {
                Some(TickKind::Intro(move_for(self@.phase)))
            }),
    {
        if elapsed_ms < self.current_delay_ms() {
            None
        } else if self.intro.current_phase == IntroPhase::Done {
            Some(TickKind::Brain)
        } else {
            Some(TickKind::Intro(self.intro.planned_move()))
        }
    }

    /// One tick of the cat once the intro scene is over: the brain reads its
    /// event, the animation shows its next frame (rolling a new event after
    /// the last one), and the cat roams. The caller says whether the cat is
    /// clear of the left and of the right edge of its walking area. Returns
    /// the roaming step and the animation that the event named, before any
    /// turn at an edge.
    pub fn ai_tick(&mut self, clear_of_left_edge: bool, clear_of_right_edge: bool) -> (r: (Roam, CatState))
        requires
            old(self)@.phase == IntroPhase::Done,
        ensures
            ({
                let read = interpreted(old(self)@.brain);
                let total = frame_count(read.current_state) as nat;
                let wrapped = !(old(self)@.frame + 1 < total);
                &&& r.1 == read.current_state
                &&& final(self)@.phase == old(self)@.phase
                &&& final(self)@.frame == next_frame(old(self)@.frame, total)
                &&& (!wrapped ==> final(self)@.brain.event_number == old(self)@.brain.event_number)
                &&& (wrapped ==> roll_bounds(read.current_state).0 <= final(self)@.brain.event_number
                    <= roll_bounds(read.current_state).1)
                &&& (final(self)@.brain, r.0) == roamed(
                    BehaviorBrain { event_number: final(self)@.brain.event_number, ..read },
                    clear_of_left_edge,
                    clear_of_right_edge,
                )
            }),
            can_follow(old(self)@.brain.current_state, final(self)@.brain.current_state),
    {
        proof {
            use_type_invariant(&*self);
            lemma_interpret_idempotent(self.ai_brain);
        }
        let mut read = self.ai_brain;
        read.interpret_new_event();
        let state = read.current_state;
        let total = frames_in(state);
        let (min_roll, max_roll) = roll_range_for(state);
        let (frame, mut brain) = advance_animation_frame(self.i_frame, total, read, min_roll, max_roll);
        proof {
            if !(self.i_frame + 1 < total) {
                lemma_rolls_follow_the_graph(state, brain.event_number);
            }
        }
        let step = brain.tick_roaming(clear_of_left_edge, clear_of_right_edge);
        proof {
            if is_known_event(brain.event_number) {
                lemma_known_event_ignores_state(brain.event_number, brain.current_state, state);
            }
        }
        *self = Ket { intro: self.intro, ai_brain: brain, i_frame: frame };
        (step, state)
    }
}

/// Which tick is due.
#[derive(PartialEq, Eq, Structural, Debug, Clone, Copy)]
pub enum TickKind {
    /// A tick of the intro scene, making this move.
    Intro(IntroMove),
    /// A tick of the brain.
    Brain,
}

/// Shows the next frame of an animation of `total_frames` frames. After the
/// last frame the animation starts over at frame 0 and a new event is rolled
/// in `min_roll..=max_roll`; otherwise the brain is left as it is.
pub fn advance_animation_frame(
    frame: usize,
    total_frames: usize,
    brain: BehaviorBrain,
    min_roll: u32,
    max_roll: u32,
) -> (r: (usize, BehaviorBrain))
    requires
        total_frames >= 1,
        frame + 1 >= total_frames ==> min_roll <= max_roll && max_roll - min_roll < u32::MAX,
    ensures
        r.0 < total_frames,
        r.0 == next_frame(frame as nat, total_frames as nat),
        frame + 1 < total_frames ==> r.0 == frame + 1,
        !(frame + 1 < total_frames) ==> r.0 == 0,
        frame + 1 < total_frames ==> r.1 == brain,
        !(frame + 1 < total_frames) ==> {
            &&& r.1 == (BehaviorBrain { event_number: r.1.event_number, ..brain })
            &&& min_roll <= r.1.event_number <= max_roll
        },
{
    if frame < total_frames - 1 {
        (frame + 1, brain)
    } else {
        let event = rand_range(min_roll, max_roll);
        (0, BehaviorBrain { event_number: event, ..brain })
    }
}

} // verus!
