//! The type-state builder of vectors, and the seal of the component-access trait.
use core::marker::PhantomData;
use vstd::prelude::*;

use crate::builder::{ComponentState, IsSet, Unset};
use crate::systems::{CoordinateSystem, EnuLike, FrdLike, NedLike, RightHandedXyzLike};

verus! {

/// Seal for the trait through which a vector's Cartesian components are accessed in their native
/// units (length, velocity or acceleration); it has no methods, and only the vector types of
/// those three units are meant to implement it.
pub trait Sealed {}

/// The abstract state of a [`Builder`]: the X, Y and Z components given so far.
pub open spec fn unset_vector<L>() -> (Option<L>, Option<L>, Option<L>) {
    (None, None, None)
}

/// What setting the X component does to the abstract state of a [`Builder`].
pub open spec fn with_x<L>(partial: (Option<L>, Option<L>, Option<L>), value: L) -> (Option<L>, Option<L>, Option<L>) {
    (Some(value), partial.1, partial.2)
}

/// What setting the Y component does to the abstract state of a [`Builder`].
pub open spec fn with_y<L>(partial: (Option<L>, Option<L>, Option<L>), value: L) -> (Option<L>, Option<L>, Option<L>) {
    (partial.0, Some(value), partial.2)
}

/// What setting the Z component does to the abstract state of a [`Builder`].
pub open spec fn with_z<L>(partial: (Option<L>, Option<L>, Option<L>), value: L) -> (Option<L>, Option<L>, Option<L>) {
    (partial.0, partial.1, Some(value))
}

/// The components, in X, Y, Z order, that a complete [`Builder`] produces.
pub open spec fn finished_components<L>(partial: (Option<L>, Option<L>, Option<L>)) -> Seq<L> {
    seq![partial.0.unwrap(), partial.1.unwrap(), partial.2.unwrap()]
}

/// [Builder] for a vector in the coordinate system `In` whose components have type `L`.
///
/// The type parameters `X`, `Y` and `Z` record whether each component has been given; the
/// setters are named after the convention of `In` (eg `ned_north` for a [`NedLike`] system), and
/// [`Builder::build`] exists only once all three components have been given.
///
/// [Builder]: https://rust-unofficial.github.io/patterns/patterns/creational/builder.html
#[derive(Debug)]
pub struct Builder<In, X: ComponentState, Y: ComponentState, Z: ComponentState, L> {
    x: Option<L>,
    y: Option<L>,
    z: Option<L>,
    system: PhantomData<In>,
    set: (PhantomData<X>, PhantomData<Y>, PhantomData<Z>),
}

impl<In, X: ComponentState, Y: ComponentState, Z: ComponentState, L> View for Builder<In, X, Y, Z, L> {
    type V = (Option<L>, Option<L>, Option<L>);

    closed spec fn view(&self) -> (Option<L>, Option<L>, Option<L>) {
        (self.x, self.y, self.z)
    }
}

impl<In, X: ComponentState, Y: ComponentState, Z: ComponentState, L: Copy> Clone for Builder<In, X, Y, Z, L> {
    fn clone(&self) -> (r: Self)
        ensures
            r@ == self@,
    {
        *self
    }
}

impl<In, X: ComponentState, Y: ComponentState, Z: ComponentState, L: Copy> Copy for Builder<In, X, Y, Z, L> {}

impl<In, L> Builder<In, Unset, Unset, Unset, L> {
    /// A builder with no component given yet.
    pub fn new() -> (r: Self)
        ensures
            r@ == unset_vector::<L>(),
    {
        Builder { x: None, y: None, z: None, system: PhantomData, set: (PhantomData, PhantomData, PhantomData) }
    }
}

impl<In, L> Default for Builder<In, Unset, Unset, Unset, L> {
    fn default() -> (r: Self)
        ensures
            r@ == unset_vector::<L>(),
    {
        Self::new()
    }
}

impl<In, X: ComponentState, Y: ComponentState, Z: ComponentState, L> Builder<In, X, Y, Z, L> {
    /// A component whose marker says "set" holds a value.
    #[verifier::type_invariant]
    spec fn given_components_are_held(self) -> bool {
        &&& X::is_set() ==> self.x is Some
        &&& Y::is_set() ==> self.y is Some
        &&& Z::is_set() ==> self.z is Some
    }

    fn set_x(self, value: L) -> (r: Builder<In, IsSet, Y, Z, L>)
        ensures
            r@ == with_x(self@, value),
    {
        proof {
            use_type_invariant(&self);
        }
        Builder { x: Some(value), y: self.y, z: self.z, system: PhantomData, set: (PhantomData, PhantomData, PhantomData) }
    }

    fn set_y(self, value: L) -> (r: Builder<In, X, IsSet, Z, L>)
        ensures
            r@ == with_y(self@, value),
    {
        proof {
            use_type_invariant(&self);
        }
        Builder { x: self.x, y: Some(value), z: self.z, system: PhantomData, set: (PhantomData, PhantomData, PhantomData) }
    }

    fn set_z(self, value: L) -> (r: Builder<In, X, Y, IsSet, L>)
        ensures
            r@ == with_z(self@, value),
    {
        proof {
            use_type_invariant(&self);
        }
        Builder { x: self.x, y: self.y, z: Some(value), system: PhantomData, set: (PhantomData, PhantomData, PhantomData) }
    }
}

impl<In: CoordinateSystem<Convention = RightHandedXyzLike>, X: ComponentState, Y: ComponentState, Z: ComponentState, L> Builder<In, X, Y, Z, L> {
    /// Sets the X component of the vector-to-be.
    pub fn x(self, value: L) -> (r: Builder<In, IsSet, Y, Z, L>)
        ensures
            r@ == with_x(self@, value),
    {
        self.set_x(value)
    }

    /// Sets the Y component of the vector-to-be.
    pub fn y(self, value: L) -> (r: Builder<In, X, IsSet, Z, L>)
        ensures
            r@ == with_y(self@, value),
    {
        self.set_y(value)
    }

    /// Sets the Z component of the vector-to-be.
    pub fn z(self, value: L) -> (r: Builder<In, X, Y, IsSet, L>)
        ensures
            r@ == with_z(self@, value),
    {
        self.set_z(value)
    }
}

impl<In: CoordinateSystem<Convention = NedLike>, X: ComponentState, Y: ComponentState, Z: ComponentState, L> Builder<In, X, Y, Z, L> {
    /// Sets the North (X) component of the vector-to-be.
    pub fn ned_north(self, value: L) -> (r: Builder<In, IsSet, Y, Z, L>)
        ensures
            r@ == with_x(self@, value),
    {
        self.set_x(value)
    }

    /// Sets the East (Y) component of the vector-to-be.
    pub fn ned_east(self, value: L) -> (r: Builder<In, X, IsSet, Z, L>)
        ensures
            r@ == with_y(self@, value),
    {
        self.set_y(value)
    }

    /// Sets the Down (Z) component of the vector-to-be.
    pub fn ned_down(self, value: L) -> (r: Builder<In, X, Y, IsSet, L>)
        ensures
            r@ == with_z(self@, value),
    {
        self.set_z(value)
    }
}

impl<In: CoordinateSystem<Convention = FrdLike>, X: ComponentState, Y: ComponentState, Z: ComponentState, L> Builder<In, X, Y, Z, L> {
    /// Sets the Front (X) component of the vector-to-be.
    pub fn frd_front(self, value: L) -> (r: Builder<In, IsSet, Y, Z, L>)
        ensures
            r@ == with_x(self@, value),
    {
        self.set_x(value)
    }

    /// Sets the Right (Y) component of the vector-to-be.
    pub fn frd_right(self, value: L) -> (r: Builder<In, X, IsSet, Z, L>)
        ensures
            r@ == with_y(self@, value),
    {
        self.set_y(value)
    }

    /// Sets the Down (Z) component of the vector-to-be.
    pub fn frd_down(self, value: L) -> (r: Builder<In, X, Y, IsSet, L>)
        ensures
            r@ == with_z(self@, value),
    {
        self.set_z(value)
    }
}

impl<In: CoordinateSystem<Convention = EnuLike>, X: ComponentState, Y: ComponentState, Z: ComponentState, L> Builder<In, X, Y, Z, L> {
    /// Sets the East (X) component of the vector-to-be.
    pub fn enu_east(self, value: L) -> (r: Builder<In, IsSet, Y, Z, L>)
        ensures
            r@ == with_x(self@, value),
    {
        self.set_x(value)
    }

    /// Sets the North (Y) component of the vector-to-be.
    pub fn enu_north(self, value: L) -> (r: Builder<In, X, IsSet, Z, L>)
        ensures
            r@ == with_y(self@, value),
    {
        self.set_y(value)
    }

    /// Sets the Up (Z) component of the vector-to-be.
    pub fn enu_up(self, value: L) -> (r: Builder<In, X, Y, IsSet, L>)
        ensures
            r@ == with_z(self@, value),
    {
        self.set_z(value)
    }
}

impl<In, L> Builder<In, IsSet, IsSet, IsSet, L> {
    /// Finalizes the vector: its components along X, Y and Z, in that order, as set last.
    pub fn build(self) -> (r: [L; 3])
        ensures
            r@ == finished_components(self@),
    {
        proof {
            use_type_invariant(&self);
        }
        let Builder { x, y, z, .. } = self;
        [x.unwrap(), y.unwrap(), z.unwrap()]
    }
}

/// Setting the three components on a fresh builder, in whatever order, yields exactly those
/// components along X, Y and Z.
pub proof fn lemma_build_gives_set_components<L>(x: L, y: L, z: L)
    ensures
        finished_components(with_z(with_y(with_x(unset_vector::<L>(), x), y), z)) == seq![x, y, z],
        finished_components(with_x(with_y(with_z(unset_vector::<L>(), z), y), x)) == seq![x, y, z],
        finished_components(with_y(with_x(with_z(unset_vector::<L>(), z), x), y)) == seq![x, y, z],
{
}

/// Setters of different components commute, and setting one component twice keeps only the
/// value set last.
pub proof fn lemma_setters_overwrite_and_commute<L>(
    partial: (Option<L>, Option<L>, Option<L>),
    a: L,
    b: L,
)
    ensures
        with_y(with_x(partial, a), b) == with_x(with_y(partial, b), a),
        with_z(with_x(partial, a), b) == with_x(with_z(partial, b), a),
        with_z(with_y(partial, a), b) == with_y(with_z(partial, b), a),
        with_x(with_x(partial, a), b) == with_x(partial, b),
        with_y(with_y(partial, a), b) == with_y(partial, b),
        with_z(with_z(partial, a), b) == with_z(partial, b),
{
}

} // verus!
