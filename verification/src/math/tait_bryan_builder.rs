//! Builder that collects Tait-Bryan angles in their intrinsic order (yaw, then pitch, then roll).
use core::marker::PhantomData;
use vstd::prelude::*;

verus! {

/// Tells, at the level of types, how many of the three Tait-Bryan angles a
/// [`TaitBryanBuilder`] has received: yaw first, then pitch, then roll.
pub trait TaitBryanStage {
    /// The number of angles given so far, between 0 and 3.
    spec fn angles_given() -> nat;
}

/// State marker indicating yaw angle is needed next
pub struct NeedsYaw;

/// State marker indicating pitch angle is needed next
pub struct NeedsPitch;

/// State marker indicating roll angle is needed next
pub struct NeedsRoll;

/// State marker indicating all angles are set and ready to build
pub struct Complete;

impl TaitBryanStage for NeedsYaw {
    open spec fn angles_given() -> nat {
        0
    }
}

impl TaitBryanStage for NeedsPitch {
    open spec fn angles_given() -> nat {
        1
    }
}

impl TaitBryanStage for NeedsRoll {
    open spec fn angles_given() -> nat {
        2
    }
}

impl TaitBryanStage for Complete {
    open spec fn angles_given() -> nat {
        3
    }
}

/// The abstract state of a fresh [`TaitBryanBuilder`]: no angle given.
pub open spec fn no_angles<A>() -> (Option<A>, Option<A>, Option<A>) {
    (None, None, None)
}

/// What giving the yaw does to the abstract state of a [`TaitBryanBuilder`].
pub open spec fn with_yaw<A>(partial: (Option<A>, Option<A>, Option<A>), yaw: A) -> (Option<A>, Option<A>, Option<A>) {
    (Some(yaw), partial.1, partial.2)
}

/// What giving the pitch does to the abstract state of a [`TaitBryanBuilder`].
pub open spec fn with_pitch<A>(partial: (Option<A>, Option<A>, Option<A>), pitch: A) -> (Option<A>, Option<A>, Option<A>) {
    (partial.0, Some(pitch), partial.2)
}

/// What giving the roll does to the abstract state of a [`TaitBryanBuilder`].
pub open spec fn with_roll<A>(partial: (Option<A>, Option<A>, Option<A>), roll: A) -> (Option<A>, Option<A>, Option<A>) {
    (partial.0, partial.1, Some(roll))
}

/// The (yaw, pitch, roll) that a complete [`TaitBryanBuilder`] hands out.
pub open spec fn collected_angles<A>(partial: (Option<A>, Option<A>, Option<A>)) -> (A, A, A) {
    (partial.0.unwrap(), partial.1.unwrap(), partial.2.unwrap())
}

/// Unified builder for Tait-Bryan angle construction with compile-time ordering enforcement.
///
/// This builder ensures that Tait-Bryan angles are provided in the correct intrinsic order:
/// yaw (rotation about Z), then pitch (rotation about Y'), then roll (rotation about X''). The
/// `Target` parameter names what the angles are meant to construct (an orientation or a
/// rotation); the angles themselves have type `A`.
pub struct TaitBryanBuilder<State: TaitBryanStage, Target, A> {
    yaw: Option<A>,
    pitch: Option<A>,
    roll: Option<A>,
    state: PhantomData<State>,
    target: PhantomData<Target>,
}

impl<State: TaitBryanStage, Target, A> View for TaitBryanBuilder<State, Target, A> {
    type V = (Option<A>, Option<A>, Option<A>);

    /// The yaw, pitch and roll given so far.
    closed spec fn view(&self) -> (Option<A>, Option<A>, Option<A>) {
        (self.yaw, self.pitch, self.roll)
    }
}

impl<State: TaitBryanStage, Target, A: Copy> Clone for TaitBryanBuilder<State, Target, A> {
    fn clone(&self) -> (r: Self)
        ensures
            r@ == self@,
    {
        *self
    }
}

impl<State: TaitBryanStage, Target, A: Copy> Copy for TaitBryanBuilder<State, Target, A> {}

impl<State: TaitBryanStage, Target, A> TaitBryanBuilder<State, Target, A> {
    /// Exactly the angles that the stage counts have been given, in intrinsic order.
    #[verifier::type_invariant]
    spec fn angles_match_stage(self) -> bool {
        &&& self.yaw is Some <==> State::angles_given() >= 1
        &&& self.pitch is Some <==> State::angles_given() >= 2
        &&& self.roll is Some <==> State::angles_given() >= 3
    }
}

impl<Target, A> TaitBryanBuilder<NeedsYaw, Target, A> {
    /// Creates a new builder needing a yaw angle.
    pub fn new() -> (r: Self)
        ensures
            r@ == no_angles::<A>(),
    {
        TaitBryanBuilder { yaw: None, pitch: None, roll: None, state: PhantomData, target: PhantomData }
    }

    /// Sets the yaw angle (rotation about Z axis).
    pub fn yaw(self, angle: A) -> (r: TaitBryanBuilder<NeedsPitch, Target, A>)
        ensures
            r@ == with_yaw(self@, angle),
    {
        proof {
            use_type_invariant(&self);
        }
        TaitBryanBuilder { yaw: Some(angle), pitch: None, roll: None, state: PhantomData, target: PhantomData }
    }
}

impl<Target, A> TaitBryanBuilder<NeedsPitch, Target, A> {
    /// Sets the pitch angle (rotation about Y' axis after yaw is applied).
    pub fn pitch(self, angle: A) -> (r: TaitBryanBuilder<NeedsRoll, Target, A>)
        ensures
            r@ == with_pitch(self@, angle),
    {
        proof {
            use_type_invariant(&self);
        }
        TaitBryanBuilder { yaw: self.yaw, pitch: Some(angle), roll: None, state: PhantomData, target: PhantomData }
    }
}

impl<Target, A> TaitBryanBuilder<NeedsRoll, Target, A> {
    /// Sets the roll angle (rotation about X'' axis after yaw and pitch are applied).
    pub fn roll(self, angle: A) -> (r: TaitBryanBuilder<Complete, Target, A>)
        ensures
            r@ == with_roll(self@, angle),
    {
        proof {
            use_type_invariant(&self);
        }
        TaitBryanBuilder { yaw: self.yaw, pitch: self.pitch, roll: Some(angle), state: PhantomData, target: PhantomData }
    }
}

impl<Target, A> TaitBryanBuilder<Complete, Target, A> {
    /// The collected angles as (yaw, pitch, roll), the argument order of the Tait-Bryan
    /// constructors of orientations and rotations.
    pub fn yaw_pitch_roll(self) -> (r: (A, A, A))
        ensures
            r == collected_angles(self@),
    {
        proof {
            use_type_invariant(&self);
        }
        let TaitBryanBuilder { yaw, pitch, roll, .. } = self;
        (yaw.unwrap(), pitch.unwrap(), roll.unwrap())
    }
}

/// The angles given to a fresh builder come out as (yaw, pitch, roll), whatever their values:
/// the builder neither reorders nor alters them.
pub proof fn lemma_angles_come_out_in_intrinsic_order<A>(yaw: A, pitch: A, roll: A)
    ensures
        collected_angles(with_roll(with_pitch(with_yaw(no_angles::<A>(), yaw), pitch), roll)) == (yaw, pitch, roll),
{
}

} // verus!
