//! The cue tip's controller: it watches for the tip's first contact with the
//! cue ball and, from then on, brakes the tip with a force against its
//! motion.

use crate::scene::{BodyId, CuePair};
use vstd::prelude::*;

verus! {

/// The gain of the braking force, unless another is configured.
pub const DAMPING_GAIN: i32 = 1000;

/// A contact between two bodies that began or ended during a tick.
#[derive(Clone, Copy, Debug, PartialEq, Eq)]
pub enum ContactEvent {
    Started(BodyId, BodyId),
    Stopped(BodyId, BodyId),
}

/// Whether the cue tip has touched the cue ball yet.
#[derive(Clone, Copy, Debug, PartialEq, Eq, Structural)]
pub enum CueState {
    Idle,
    Contacted,
}

/// A vector of the plane with integer components.
pub struct Vector {
    pub x: int,
    pub y: int,
}

impl Vector {
    /// `k * self`.
    pub open spec fn scaled(self, k: int) -> Vector {
        Vector { x: k * self.x, y: k * self.y }
    }

    /// Whether the vector has a length other than zero.
    pub open spec fn is_nonzero(self) -> bool {
        self.x != 0 || self.y != 0
    }
}

/// The linear velocity of the cue tip, in table units a second.
#[derive(Clone, Copy, Debug, PartialEq, Eq)]
pub struct Velocity {
    pub x: i32,
    pub y: i32,
}

impl View for Velocity {
    type V = Vector;

    open spec fn view(&self) -> Vector {
        Vector { x: self.x as int, y: self.y as int }
    }
}

/// The external force on the cue tip, in the units of a velocity times a
/// gain.
#[derive(Clone, Copy, Debug, PartialEq, Eq)]
pub struct Force {
    pub x: i64,
    pub y: i64,
}

impl View for Force {
    type V = Vector;

    open spec fn view(&self) -> Vector {
        Vector { x: self.x as int, y: self.y as int }
    }
}

/// Whether `event` says that the cue tip and the cue ball have begun to touch.
/// The two may be named in either order.
pub open spec fn is_cue_contact(event: ContactEvent, tip: BodyId, ball: BodyId) -> bool {
    match event {
        ContactEvent::Started(first, second) => (first == ball && second == tip) || (second
            == ball && first == tip),
        ContactEvent::Stopped(_, _) => false,
    }
}

/// The state that follows `state` when `event` is seen.
pub open spec fn state_after_event(
    state: CueState,
    event: ContactEvent,
    tip: BodyId,
    ball: BodyId,
) -> CueState {
    if is_cue_contact(event, tip, ball) {
        CueState::Contacted
    } else {
        state
    }
}

/// The state that follows `state` when all of `events` have been seen: the
/// tip has contacted if it had before, or if one of the events says so.
pub open spec fn state_after(
    state: CueState,
    events: Seq<ContactEvent>,
    tip: BodyId,
    ball: BodyId,
) -> CueState {
    if state == CueState::Contacted || exists|i: int|
        0 <= i < events.len() && is_cue_contact(#[trigger] events[i], tip, ball) {
        CueState::Contacted
    } else {
        CueState::Idle
    }
}

/// The force on the tip at the end of a tick that leaves the controller in
/// `state`: a tip that has contacted and moves is braked by `-gain` times its
/// velocity; in every other case the force stays as it was.
pub open spec fn force_after(state: CueState, velocity: Vector, gain: int, force: Vector) -> Vector {
    if state == CueState::Contacted && velocity.is_nonzero() {
        velocity.scaled(-gain)
    } else {
        force
    }
}

/// What a controller holds.
pub struct CueModel {
    pub tip: BodyId,
    pub ball: BodyId,
    pub gain: int,
    pub state: CueState,
}

/// The controller of the one cue tip of a session.
#[derive(Clone, Copy, Debug, PartialEq, Eq)]
pub struct CueController {
    tip: BodyId,
    ball: BodyId,
    gain: i32,
    state: CueState,
}

impl View for CueController {
    type V = CueModel;

    closed spec fn view(&self) -> CueModel {
        CueModel { tip: self.tip, ball: self.ball, gain: self.gain as int, state: self.state }
    }
}

/// Seeing one more event is one more step of the state.
pub proof fn lemma_state_after_push(
    state: CueState,
    events: Seq<ContactEvent>,
    event: ContactEvent,
    tip: BodyId,
    ball: BodyId,
)
    ensures
        state_after(state, events.push(event), tip, ball) == state_after_event(
            state_after(state, events, tip, ball),
            event,
            tip,
            ball,
        ),
{
    let longer = events.push(event);
    if is_cue_contact(event, tip, ball) {
        assert(is_cue_contact(longer[events.len() as int], tip, ball));
    } else if state_after(state, events, tip, ball) == CueState::Contacted {
        if state != CueState::Contacted {
            let i = choose|i: int|
                0 <= i < events.len() && is_cue_contact(#[trigger] events[i], tip, ball);
            assert(is_cue_contact(longer[i], tip, ball));
        }
    } else {
        assert forall|i: int| 0 <= i < longer.len() implies !is_cue_contact(
            #[trigger] longer[i],
            tip,
            ball,
        ) by {
            if i < events.len() {
                assert(longer[i] == events[i]);
            }
        }
    }
}

/// The contact latches: once the tip has contacted, no events make it idle
/// again.
pub proof fn lemma_contact_latches(
    state: CueState,
    events: Seq<ContactEvent>,
    tip: BodyId,
    ball: BodyId,
)
    ensures
        state == CueState::Contacted ==> state_after(state, events, tip, ball)
            == CueState::Contacted,
{
}

/// The events of two ticks, seen one tick after the other, leave the state
/// that they leave when seen at once: so the latch holds over any number of
/// ticks.
pub proof fn lemma_state_after_ticks(
    state: CueState,
    earlier: Seq<ContactEvent>,
    later: Seq<ContactEvent>,
    tip: BodyId,
    ball: BodyId,
)
    ensures
        state_after(state_after(state, earlier, tip, ball), later, tip, ball) == state_after(
            state,
            earlier + later,
            tip,
            ball,
        ),
{
    let both = earlier + later;
    if state_after(state_after(state, earlier, tip, ball), later, tip, ball)
        == CueState::Contacted {
        if state != CueState::Contacted {
            if state_after(state, earlier, tip, ball) == CueState::Contacted {
                let i = choose|i: int|
                    0 <= i < earlier.len() && is_cue_contact(#[trigger] earlier[i], tip, ball);
                assert(is_cue_contact(both[i], tip, ball));
            } else {
                let i = choose|i: int|
                    0 <= i < later.len() && is_cue_contact(#[trigger] later[i], tip, ball);
                assert(both[earlier.len() + i] == later[i]);
                assert(is_cue_contact(both[earlier.len() + i], tip, ball));
            }
        }
    } else {
        assert forall|i: int| 0 <= i < both.len() implies !is_cue_contact(
            #[trigger] both[i],
            tip,
            ball,
        ) by {
            if i < earlier.len() {
                assert(both[i] == earlier[i]);
            } else {
                assert(both[i] == later[i - earlier.len()]);
            }
        }
    }
}

/// The product of two 32-bit numbers, and its negative, fit in 64 bits.
proof fn lemma_gain_product_fits(gain: int, speed: int)
    by (nonlinear_arith)
    requires
        -0x8000_0000 <= gain <= 0x7fff_ffff,
        -0x8000_0000 <= speed <= 0x7fff_ffff,
    ensures
        -0x4000_0000_0000_0000 <= gain * speed <= 0x4000_0000_0000_0000,
        -gain * speed == -(gain * speed),
{
}

/// The force that brakes a tip moving at `velocity`: `-gain` times the
/// velocity.
pub fn braking_force(velocity: Velocity, gain: i32) -> (force: Force)
    ensures
        force@ == velocity@.scaled(-(gain as int)),
{
    proof {
        lemma_gain_product_fits(gain as int, velocity.x as int);
        lemma_gain_product_fits(gain as int, velocity.y as int);
    }
    Force {
        x: -((gain as i64) * (velocity.x as i64)),
        y: -((gain as i64) * (velocity.y as i64)),
    }
}

impl CueController {
    /// A controller for the given tip and ball: idle, with the gain
    /// [`DAMPING_GAIN`].
    pub fn new(pair: CuePair) -> (controller: CueController)
        ensures
            controller@ == (CueModel {
                tip: pair.tip,
                ball: pair.ball,
                gain: DAMPING_GAIN as int,
                state: CueState::Idle,
            }),
    {
        CueController { tip: pair.tip, ball: pair.ball, gain: DAMPING_GAIN, state: CueState::Idle }
    }

    /// The same controller with another gain.
    pub fn with_gain(self, gain: i32) -> (controller: CueController)
        ensures
            controller@ == (CueModel { gain: gain as int, ..self@ }),
    {
        CueController { tip: self.tip, ball: self.ball, gain, state: self.state }
    }

    /// The place of the cue tip.
    pub fn tip(&self) -> (tip: BodyId)
        ensures
            tip == self@.tip,
    {
        self.tip
    }

    /// The place of the cue ball.
    pub fn ball(&self) -> (ball: BodyId)
        ensures
            ball == self@.ball,
    {
        self.ball
    }

    /// The gain of the braking force.
    pub fn gain(&self) -> (gain: i32)
        ensures
            gain == self@.gain,
    {
        self.gain
    }

    /// Idle, or contacted.
    pub fn state(&self) -> (state: CueState)
        ensures
            state == self@.state,
    {
        self.state
    }

    /// Whether the tip has touched the cue ball.
    pub fn has_contacted(&self) -> (contacted: bool)
        ensures
            contacted == (self@.state == CueState::Contacted),
    {
        self.state == CueState::Contacted
    }

    /// Whether `event` is the contact this controller waits for.
    pub fn is_contact(&self, event: &ContactEvent) -> (hit: bool)
        ensures
            hit == is_cue_contact(*event, self@.tip, self@.ball),
    {
        match event {
            ContactEvent::Started(first, second) => (*first == self.ball && *second == self.tip)
                || (*second == self.ball && *first == self.tip),
            ContactEvent::Stopped(_, _) => false,
        }
    }

    /// Takes note of one event.
    pub fn observe(&mut self, event: &ContactEvent)
        ensures
            final(self)@ == (CueModel {
                state: state_after_event(old(self)@.state, *event, old(self)@.tip, old(self)@.ball),
                ..old(self)@
            }),
            old(self)@.state == CueState::Contacted ==> final(self)@.state == CueState::Contacted,
    {
        if self.is_contact(event) {
            self.state = CueState::Contacted;
        }
    }

    /// Takes note of the events of one tick.
    pub fn observe_all(&mut self, events: &Vec<ContactEvent>)
        ensures
            final(self)@ == (CueModel {
                state: state_after(old(self)@.state, events@, old(self)@.tip, old(self)@.ball),
                ..old(self)@
            }),
            old(self)@.state == CueState::Contacted ==> final(self)@.state == CueState::Contacted,
    {
        let mut seen: usize = 0;
        assert(events@.take(0) =~= Seq::<ContactEvent>::empty());
        while seen < events.len()
            invariant
                seen <= events@.len(),
                self@ == (CueModel {
                    state: state_after(
                        old(self)@.state,
                        events@.take(seen as int),
                        old(self)@.tip,
                        old(self)@.ball,
                    ),
                    ..old(self)@
                }),
            decreases events@.len() - seen,
        {
            proof {
                lemma_state_after_push(
                    old(self)@.state,
                    events@.take(seen as int),
                    events@[seen as int],
                    old(self)@.tip,
                    old(self)@.ball,
                );
                assert(events@.take(seen as int).push(events@[seen as int]) =~= events@.take(
                    seen as int + 1,
                ));
            }
            self.observe(&events[seen]);
            seen += 1;
        }
        assert(events@.take(seen as int) =~= events@);
    }

    /// One tick of the controller. It takes note of the tick's events, and
    /// then sets the force on the tip: if the tip has contacted, now or
    /// before, and moves, the force becomes `-gain` times its velocity;
    /// otherwise the force is left as it is. Whether the strike key is held
    /// (the third argument) changes nothing: striking is not wired to a
    /// force.
    pub fn tick(
        &mut self,
        events: &Vec<ContactEvent>,
        _strike_pressed: bool,
        velocity: Velocity,
        force: &mut Force,
    )
        ensures
            final(self)@ == (CueModel {
                state: state_after(old(self)@.state, events@, old(self)@.tip, old(self)@.ball),
                ..old(self)@
            }),
            final(force)@ == force_after(
                final(self)@.state,
                velocity@,
                old(self)@.gain,
                old(force)@,
            ),
            old(self)@.state == CueState::Contacted ==> final(self)@.state == CueState::Contacted,
            final(self)@.state == CueState::Contacted && velocity@.is_nonzero() ==> final(force)@
                == velocity@.scaled(-old(self)@.gain),
            final(self)@.state == CueState::Idle ==> *final(force) == *old(force),
    {
        self.observe_all(events);
        if self.has_contacted() && (velocity.x != 0 || velocity.y != 0) {
            *force = braking_force(velocity, self.gain);
        }
    }
}

} // verus!
