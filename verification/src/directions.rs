//! Bearings (azimuth + elevation) and their type-state builder.
use core::marker::PhantomData;
use vstd::prelude::*;

use crate::builder::ComponentState;

verus! {

/// Used to indicate that a partially-constructed [`Bearing`] is missing the azimuthal component.
pub struct MissingAzimuth;

/// Used to indicate that a partially-constructed [`Bearing`] has the azimuthal component set.
pub struct HasAzimuth;

/// Used to indicate that a partially-constructed [`Bearing`] is missing the elevation component.
pub struct MissingElevation;

/// Used to indicate that a partially-constructed [`Bearing`] has the elevation component set.
pub struct HasElevation;

impl ComponentState for MissingAzimuth {
    open spec fn is_set() -> bool {
        false
    }
}

impl ComponentState for HasAzimuth {
    open spec fn is_set() -> bool {
        true
    }
}

impl ComponentState for MissingElevation {
    open spec fn is_set() -> bool {
        false
    }
}

impl ComponentState for HasElevation {
    open spec fn is_set() -> bool {
        true
    }
}

/// Argument type for [`Bearing::build`], and the abstract value of a [`Bearing`].
#[derive(Debug, Default)]
pub struct Components<A> {
    /// The azimuthal angle of the proposed [`Bearing`].
    pub azimuth: A,
    /// The elevation angle of the proposed [`Bearing`].
    ///
    /// The elevation must be in [-90°,90°] % 360° to form a valid [`Bearing`].
    pub elevation: A,
}

/// A direction in the coordinate system `In`, given by an azimuth and an elevation of type `A`.
///
/// A `Bearing` can only be obtained through [`Bearing::build`] or a [`Builder`], both of which
/// refuse an elevation that is not in [-90°,90°] % 360°.
#[derive(Debug)]
pub struct Bearing<In, A> {
    azimuth: A,
    elevation: A,
    system: PhantomData<In>,
}

impl<In, A> View for Bearing<In, A> {
    type V = Components<A>;

    closed spec fn view(&self) -> Components<A> {
        Components { azimuth: self.azimuth, elevation: self.elevation }
    }
}

impl<In, A: Copy> Clone for Bearing<In, A> {
    fn clone(&self) -> (r: Self)
        ensures
            r@ == self@,
    {
        *self
    }
}

impl<In, A: Copy> Copy for Bearing<In, A> {}

/// The abstract state of a [`Builder`]: the azimuth and the elevation given so far.
pub open spec fn unset_bearing<A>() -> (Option<A>, Option<A>) {
    (None, None)
}

/// What setting the azimuth does to the abstract state of a [`Builder`].
pub open spec fn with_azimuth<A>(partial: (Option<A>, Option<A>), azimuth: A) -> (Option<A>, Option<A>) {
    (Some(azimuth), partial.1)
}

/// What setting a valid elevation does to the abstract state of a [`Builder`].
pub open spec fn with_elevation<A>(partial: (Option<A>, Option<A>), elevation: A) -> (Option<A>, Option<A>) {
    (partial.0, Some(elevation))
}

/// The bearing that a complete [`Builder`] produces.
pub open spec fn finished_bearing<A>(partial: (Option<A>, Option<A>)) -> Components<A> {
    Components { azimuth: partial.0.unwrap(), elevation: partial.1.unwrap() }
}

/// The abstract state of the builder that [`Bearing::to_builder`] returns.
pub open spec fn reopened_bearing<A>(bearing: Components<A>) -> (Option<A>, Option<A>) {
    (Some(bearing.azimuth), Some(bearing.elevation))
}

/// [Builder] for a [`Bearing`].
///
/// The type parameters `Azimuth` and `Elevation` record whether each component has been given;
/// [`Builder::build`] exists only once both have.
///
/// [Builder]: https://rust-unofficial.github.io/patterns/patterns/creational/builder.html
#[derive(Debug)]
pub struct Builder<In, Azimuth: ComponentState, Elevation: ComponentState, A> {
    azimuth: Option<A>,
    elevation: Option<A>,
    system: PhantomData<In>,
    has: (PhantomData<Azimuth>, PhantomData<Elevation>),
}

impl<In, Azimuth: ComponentState, Elevation: ComponentState, A> View for Builder<In, Azimuth, Elevation, A> {
    type V = (Option<A>, Option<A>);

    closed spec fn view(&self) -> (Option<A>, Option<A>) {
        (self.azimuth, self.elevation)
    }
}

impl<In, Azimuth: ComponentState, Elevation: ComponentState, A: Copy> Clone for Builder<In, Azimuth, Elevation, A> {
    fn clone(&self) -> (r: Self)
        ensures
            r@ == self@,
    {
        *self
    }
}

impl<In, Azimuth: ComponentState, Elevation: ComponentState, A: Copy> Copy for Builder<In, Azimuth, Elevation, A> {}

impl<In, Azimuth: ComponentState, Elevation: ComponentState, A> Builder<In, Azimuth, Elevation, A> {
    /// A component whose marker says "set" holds a value.
    #[verifier::type_invariant]
    spec fn given_components_are_held(self) -> bool {
        &&& Azimuth::is_set() ==> self.azimuth is Some
        &&& Elevation::is_set() ==> self.elevation is Some
    }

    /// Sets the azimuthal angle of the [`Bearing`]-to-be.
    pub fn azimuth(self, angle: A) -> (r: Builder<In, HasAzimuth, Elevation, A>)
        ensures
            r@ == with_azimuth(self@, angle),
    {
        proof {
            use_type_invariant(&self);
        }
        Builder {
            azimuth: Some(angle),
            elevation: self.elevation,
            system: PhantomData,
            has: (PhantomData, PhantomData),
        }
    }

    /// Sets the elevation angle of the [`Bearing`]-to-be.
    ///
    /// `elevation_in_range` tells whether `angle` lies in [-90°,90°] % 360°. If it does not, the
    /// elevation is refused and this function returns `None`.
    pub fn elevation(self, angle: A, elevation_in_range: bool) -> (r: Option<
        Builder<In, Azimuth, HasElevation, A>,
    >)
        ensures
            r is Some <==> elevation_in_range,
            r matches Some(b) ==> b@ == with_elevation(self@, angle),
    {
        proof {
            use_type_invariant(&self);
        }
        if !elevation_in_range {
            None
        } else {
            Some(
                Builder {
                    azimuth: self.azimuth,
                    elevation: Some(angle),
                    system: PhantomData,
                    has: (PhantomData, PhantomData),
                },
            )
        }
    }
}

impl<In, A> Builder<In, HasAzimuth, HasElevation, A> {
    /// Finalizes the [`Bearing`] with the azimuth and elevation set last.
    pub fn build(self) -> (r: Bearing<In, A>)
        ensures
            r@ == finished_bearing(self@),
    {
        proof {
            use_type_invariant(&self);
        }
        let Builder { azimuth, elevation, .. } = self;
        Bearing { azimuth: azimuth.unwrap(), elevation: elevation.unwrap(), system: PhantomData }
    }
}

impl<In, A> Bearing<In, A> {
    /// Constructs a bearing towards the given azimuth and elevation in the coordinate system
    /// `In`.
    ///
    /// `elevation_in_range` tells whether the elevation lies in [-90°,90°] % 360°. If it does
    /// not, this function returns `None`.
    pub fn build(components: Components<A>, elevation_in_range: bool) -> (r: Option<Self>)
        ensures
            r is Some <==> elevation_in_range,
            r matches Some(b) ==> b@ == components,
    {
        let Components { azimuth, elevation } = components;
        match Self::builder().azimuth(azimuth).elevation(elevation, elevation_in_range) {
            Some(b) => Some(b.build()),
            None => None,
        }
    }

    /// Constructs a bearing from an azimuth and an elevation given in that order.
    ///
    /// Prefer [`Bearing::build`] or [`Bearing::builder`] to avoid risk of argument order
    /// confusion.
    pub fn new(azimuth: A, elevation: A, elevation_in_range: bool) -> (r: Option<Self>)
        ensures
            r is Some <==> elevation_in_range,
            r matches Some(b) ==> b@ == (Components { azimuth, elevation }),
    {
        Self::build(Components { azimuth, elevation }, elevation_in_range)
    }

    /// Provides a constructor for a bearing in the coordinate system `In`.
    pub fn builder() -> (r: Builder<In, MissingAzimuth, MissingElevation, A>)
        ensures
            r@ == unset_bearing::<A>(),
    {
        Builder { azimuth: None, elevation: None, system: PhantomData, has: (PhantomData, PhantomData) }
    }

    /// Turns a [`Bearing`] back into a builder so that its components can be modified.
    pub fn to_builder(self) -> (r: Builder<In, HasAzimuth, HasElevation, A>)
        ensures
            r@ == reopened_bearing(self@),
    {
        Builder {
            azimuth: Some(self.azimuth),
            elevation: Some(self.elevation),
            system: PhantomData,
            has: (PhantomData, PhantomData),
        }
    }

}

impl<In, A: Copy> Bearing<In, A> {
    /// Returns the azimuthal angle of this bearing.
    pub fn azimuth(&self) -> (r: A)
        ensures
            r == self@.azimuth,
    {
        self.azimuth
    }

    /// Returns the elevation angle of this bearing.
    pub fn elevation(&self) -> (r: A)
        ensures
            r == self@.elevation,
    {
        self.elevation
    }
}

/// Building from [`Components`] gives the same bearing as setting the azimuth and then the
/// elevation on a fresh builder: both keep exactly the given components.
pub proof fn lemma_build_matches_builder<A>(components: Components<A>)
    ensures
        finished_bearing(with_elevation(with_azimuth(unset_bearing::<A>(), components.azimuth), components.elevation))
            == components,
{
}

/// Turning a bearing into a builder and building it again gives back the same bearing.
pub proof fn lemma_to_builder_build_roundtrip<A>(bearing: Components<A>)
    ensures
        finished_bearing(reopened_bearing(bearing)) == bearing,
{
}

/// Changing one component through [`Bearing::to_builder`] leaves the other one as it was.
pub proof fn lemma_modify_one_component<A>(bearing: Components<A>, angle: A)
    ensures
        finished_bearing(with_azimuth(reopened_bearing(bearing), angle))
            == (Components { azimuth: angle, elevation: bearing.elevation }),
        finished_bearing(with_elevation(reopened_bearing(bearing), angle))
            == (Components { azimuth: bearing.azimuth, elevation: angle }),
{
}

/// Setting a component twice keeps only the value set last, and the two components can be set
/// in either order.
pub proof fn lemma_setters_overwrite_and_commute<A>(
    partial: (Option<A>, Option<A>),
    first: A,
    second: A,
    other: A,
)
    ensures
        with_azimuth(with_azimuth(partial, first), second) == with_azimuth(partial, second),
        with_elevation(with_elevation(partial, first), second) == with_elevation(partial, second),
        with_elevation(with_azimuth(partial, first), other) == with_azimuth(with_elevation(partial, other), first),
{
}

} // verus!
