//! WGS84 locations (latitude, longitude, altitude) and their type-state builder.
use core::marker::PhantomData;
use vstd::prelude::*;

use crate::builder::ComponentState;

verus! {

/// Used to indicate that a partially-constructed [`Wgs84`] is missing the latitude component.
pub struct MissingLatitude;

/// Used to indicate that a partially-constructed [`Wgs84`] has the latitude component set.
pub struct HasLatitude;

/// Used to indicate that a partially-constructed [`Wgs84`] is missing the longitude component.
pub struct MissingLongitude;

/// Used to indicate that a partially-constructed [`Wgs84`] has the longitude component set.
pub struct HasLongitude;

/// Used to indicate that a partially-constructed [`Wgs84`] is missing the altitude component.
pub struct MissingAltitude;

/// Used to indicate that a partially-constructed [`Wgs84`] has the altitude component set.
pub struct HasAltitude;

impl ComponentState for MissingLatitude {
    open spec fn is_set() -> bool {
        false
    }
}

impl ComponentState for HasLatitude {
    open spec fn is_set() -> bool {
        true
    }
}

impl ComponentState for MissingLongitude {
    open spec fn is_set() -> bool {
        false
    }
}

impl ComponentState for HasLongitude {
    open spec fn is_set() -> bool {
        true
    }
}

impl ComponentState for MissingAltitude {
    open spec fn is_set() -> bool {
        false
    }
}

impl ComponentState for HasAltitude {
    open spec fn is_set() -> bool {
        true
    }
}

/// Argument type for [`Wgs84::build`], and the abstract value of a [`Wgs84`] location.
#[derive(Debug, Default)]
pub struct Components<A, L> {
    /// The latitude angle of the proposed [`Wgs84`] coordinate.
    ///
    /// The latitude must be in [-90°,90°] % 360° to form a valid location.
    pub latitude: A,
    /// The longitude angle of the proposed [`Wgs84`] coordinate.
    pub longitude: A,
    /// The altitude of the proposed [`Wgs84`] coordinate, measured as distance above the WGS84
    /// datum reference ellipsoid.
    pub altitude: L,
}

/// An Earth-bound location in the [World Geodetic System
/// '84](https://en.wikipedia.org/wiki/World_Geodetic_System#WGS_84), with angles of type `A`
/// and an altitude of type `L`.
///
/// A `Wgs84` can only be obtained through [`Wgs84::build`] or a [`Builder`], both of which
/// refuse a latitude that is not in [-90°,90°] % 360°.
#[derive(Debug)]
pub struct Wgs84<A, L> {
    latitude: A,
    longitude: A,
    altitude: L,
}

impl<A, L> View for Wgs84<A, L> {
    type V = Components<A, L>;

    closed spec fn view(&self) -> Components<A, L> {
        Components { latitude: self.latitude, longitude: self.longitude, altitude: self.altitude }
    }
}

impl<A: Copy, L: Copy> Clone for Wgs84<A, L> {
    fn clone(&self) -> (r: Self)
        ensures
            r@ == self@,
    {
        *self
    }
}

impl<A: Copy, L: Copy> Copy for Wgs84<A, L> {}

/// The abstract state of a [`Builder`]: the latitude, longitude and altitude given so far.
pub open spec fn unset_location<A, L>() -> (Option<A>, Option<A>, Option<L>) {
    (None, None, None)
}

/// What setting a valid latitude does to the abstract state of a [`Builder`].
pub open spec fn with_latitude<A, L>(
    partial: (Option<A>, Option<A>, Option<L>),
    latitude: A,
) -> (Option<A>, Option<A>, Option<L>) {
    (Some(latitude), partial.1, partial.2)
}

/// What setting the longitude does to the abstract state of a [`Builder`].
pub open spec fn with_longitude<A, L>(
    partial: (Option<A>, Option<A>, Option<L>),
    longitude: A,
) -> (Option<A>, Option<A>, Option<L>) {
    (partial.0, Some(longitude), partial.2)
}

/// What setting the altitude does to the abstract state of a [`Builder`].
pub open spec fn with_altitude<A, L>(
    partial: (Option<A>, Option<A>, Option<L>),
    altitude: L,
) -> (Option<A>, Option<A>, Option<L>) {
    (partial.0, partial.1, Some(altitude))
}

/// The location that a complete [`Builder`] produces.
pub open spec fn finished_location<A, L>(partial: (Option<A>, Option<A>, Option<L>)) -> Components<A, L> {
    Components {
        latitude: partial.0.unwrap(),
        longitude: partial.1.unwrap(),
        altitude: partial.2.unwrap(),
    }
}

/// The abstract state of the builder that [`Wgs84::to_builder`] returns.
pub open spec fn reopened_location<A, L>(location: Components<A, L>) -> (Option<A>, Option<A>, Option<L>) {
    (Some(location.latitude), Some(location.longitude), Some(location.altitude))
}

/// [Builder] for a [`Wgs84`] coordinate.
///
/// The type parameters `Latitude`, `Longitude` and `Altitude` record whether each component has
/// been given; [`Builder::build`] exists only once all three have.
///
/// [Builder]: https://rust-unofficial.github.io/patterns/patterns/creational/builder.html
#[derive(Debug)]
pub struct Builder<Latitude: ComponentState, Longitude: ComponentState, Altitude: ComponentState, A, L> {
    latitude: Option<A>,
    longitude: Option<A>,
    altitude: Option<L>,
    has: (PhantomData<Latitude>, PhantomData<Longitude>, PhantomData<Altitude>),
}

impl<
    Latitude: ComponentState,
    Longitude: ComponentState,
    Altitude: ComponentState,
    A,
    L,
> View for Builder<Latitude, Longitude, Altitude, A, L> {
    type V = (Option<A>, Option<A>, Option<L>);

    closed spec fn view(&self) -> (Option<A>, Option<A>, Option<L>) {
        (self.latitude, self.longitude, self.altitude)
    }
}

impl<
    Latitude: ComponentState,
    Longitude: ComponentState,
    Altitude: ComponentState,
    A: Copy,
    L: Copy,
> Clone for Builder<Latitude, Longitude, Altitude, A, L> {
    fn clone(&self) -> (r: Self)
        ensures
            r@ == self@,
    {
        *self
    }
}

impl<
    Latitude: ComponentState,
    Longitude: ComponentState,
    Altitude: ComponentState,
    A: Copy,
    L: Copy,
> Copy for Builder<Latitude, Longitude, Altitude, A, L> {}

impl<
    Latitude: ComponentState,
    Longitude: ComponentState,
    Altitude: ComponentState,
    A,
    L,
> Builder<Latitude, Longitude, Altitude, A, L> {
    /// A component whose marker says "set" holds a value.
    #[verifier::type_invariant]
    spec fn given_components_are_held(self) -> bool {
        &&& Latitude::is_set() ==> self.latitude is Some
        &&& Longitude::is_set() ==> self.longitude is Some
        &&& Altitude::is_set() ==> self.altitude is Some
    }

    /// Sets the latitudal angle of the [`Wgs84`]-to-be.
    ///
    /// `latitude_in_range` tells whether `latitude` lies in [-90°,90°] % 360°. If it does not,
    /// the latitude is refused and this function returns `None`.
    pub fn latitude(self, latitude: A, latitude_in_range: bool) -> (r: Option<
        Builder<HasLatitude, Longitude, Altitude, A, L>,
    >)
        ensures
            r is Some <==> latitude_in_range,
            r matches Some(b) ==> b@ == with_latitude(self@, latitude),
    {
        proof {
            use_type_invariant(&self);
        }
        if !latitude_in_range {
            None
        } else {
            Some(
                Builder {
                    latitude: Some(latitude),
                    longitude: self.longitude,
                    altitude: self.altitude,
                    has: (PhantomData, PhantomData, PhantomData),
                },
            )
        }
    }

    /// Sets the longitudal angle of the [`Wgs84`]-to-be.
    pub fn longitude(self, longitude: A) -> (r: Builder<Latitude, HasLongitude, Altitude, A, L>)
        ensures
            r@ == with_longitude(self@, longitude),
    {
        proof {
            use_type_invariant(&self);
        }
        Builder {
            latitude: self.latitude,
            longitude: Some(longitude),
            altitude: self.altitude,
            has: (PhantomData, PhantomData, PhantomData),
        }
    }

    /// Sets the altitude of the [`Wgs84`]-to-be, measured as distance above the WGS84 datum
    /// reference ellipsoid.
    pub fn altitude(self, altitude: L) -> (r: Builder<Latitude, Longitude, HasAltitude, A, L>)
        ensures
            r@ == with_altitude(self@, altitude),
    {
        proof {
            use_type_invariant(&self);
        }
        Builder {
            latitude: self.latitude,
            longitude: self.longitude,
            altitude: Some(altitude),
            has: (PhantomData, PhantomData, PhantomData),
        }
    }
}

impl<A, L> Builder<HasLatitude, HasLongitude, HasAltitude, A, L> {
    /// Finalizes the [`Wgs84`] location with the components set last.
    pub fn build(self) -> (r: Wgs84<A, L>)
        ensures
            r@ == finished_location(self@),
    {
        proof {
            use_type_invariant(&self);
        }
        let Builder { latitude, longitude, altitude, .. } = self;
        Wgs84 { latitude: latitude.unwrap(), longitude: longitude.unwrap(), altitude: altitude.unwrap() }
    }
}

impl<A, L> Wgs84<A, L> {
    /// Constructs a world location from latitude, longitude, and altitude.
    ///
    /// `latitude_in_range` tells whether the latitude lies in [-90°,90°] % 360°. If it does not,
    /// this function returns `None`.
    pub fn build(components: Components<A, L>, latitude_in_range: bool) -> (r: Option<Self>)
        ensures
            r is Some <==> latitude_in_range,
            r matches Some(w) ==> w@ == components,
    {
        let Components { latitude, longitude, altitude } = components;
        match Self::builder().latitude(latitude, latitude_in_range) {
            Some(b) => Some(b.longitude(longitude).altitude(altitude).build()),
            None => None,
        }
    }

    /// Constructs a world location from latitude, longitude, and altitude given in that order.
    ///
    /// Prefer [`Wgs84::build`] or [`Wgs84::builder`] to avoid risk of argument order confusion.
    pub fn new(latitude: A, longitude: A, altitude: L, latitude_in_range: bool) -> (r: Option<Self>)
        ensures
            r is Some <==> latitude_in_range,
            r matches Some(w) ==> w@ == (Components { latitude, longitude, altitude }),
    {
        Self::build(Components { latitude, longitude, altitude }, latitude_in_range)
    }

    /// Provides a constructor for a [`Wgs84`] coordinate.
    pub fn builder() -> (r: Builder<MissingLatitude, MissingLongitude, MissingAltitude, A, L>)
        ensures
            r@ == unset_location::<A, L>(),
    {
        Builder { latitude: None, longitude: None, altitude: None, has: (PhantomData, PhantomData, PhantomData) }
    }

    /// Turns a [`Wgs84`] coordinate back into a builder so that its components can be modified.
    pub fn to_builder(self) -> (r: Builder<HasLatitude, HasLongitude, HasAltitude, A, L>)
        ensures
            r@ == reopened_location(self@),
    {
        Builder {
            latitude: Some(self.latitude),
            longitude: Some(self.longitude),
            altitude: Some(self.altitude),
            has: (PhantomData, PhantomData, PhantomData),
        }
    }
}

impl<A: Copy, L: Copy> Wgs84<A, L> {
    /// Returns the latitude exactly as it was given (not brought into a signed range).
    pub fn latitude_as_given(&self) -> (r: A)
        ensures
            r == self@.latitude,
    {
        self.latitude
    }

    /// Returns the longitude exactly as it was given (not brought into a signed range).
    pub fn longitude_as_given(&self) -> (r: A)
        ensures
            r == self@.longitude,
    {
        self.longitude
    }

    /// Returns the distance beyond the WGS84 vertical datum, ie the WGS84 ellipsoid.
    pub fn altitude(&self) -> (r: L)
        ensures
            r == self@.altitude,
    {
        self.altitude
    }
}

/// The hemisphere letters under which a location is printed: `N` for a latitude whose sign is
/// positive and `S` otherwise, then `E` for a longitude whose sign is positive and `W`
/// otherwise.
pub fn hemisphere_letters(latitude_sign_positive: bool, longitude_sign_positive: bool) -> (r: (char, char))
    ensures
        r.0 == (if latitude_sign_positive { 'N' } else { 'S' }),
        r.1 == (if longitude_sign_positive { 'E' } else { 'W' }),
{
    match (latitude_sign_positive, longitude_sign_positive) {
        (true, true) => ('N', 'E'),
        (true, false) => ('N', 'W'),
        (false, true) => ('S', 'E'),
        (false, false) => ('S', 'W'),
    }
}

/// Building from [`Components`] gives the same location as setting latitude, longitude and
/// altitude on a fresh builder: both keep exactly the given components.
pub proof fn lemma_build_matches_builder<A, L>(components: Components<A, L>)
    ensures
        finished_location(
            with_altitude(
                with_longitude(with_latitude(unset_location::<A, L>(), components.latitude), components.longitude),
                components.altitude,
            ),
        ) == components,
{
}

/// Turning a location into a builder and building it again gives back the same location.
pub proof fn lemma_to_builder_build_roundtrip<A, L>(location: Components<A, L>)
    ensures
        finished_location(reopened_location(location)) == location,
{
}

/// Changing one component through [`Wgs84::to_builder`] leaves the other two as they were.
pub proof fn lemma_modify_one_component<A, L>(location: Components<A, L>, angle: A, altitude: L)
    ensures
        finished_location(with_latitude(reopened_location(location), angle)) == (Components {
            latitude: angle,
            longitude: location.longitude,
            altitude: location.altitude,
        }),
        finished_location(with_longitude(reopened_location(location), angle)) == (Components {
            latitude: location.latitude,
            longitude: angle,
            altitude: location.altitude,
        }),
        finished_location(with_altitude(reopened_location(location), altitude)) == (Components {
            latitude: location.latitude,
            longitude: location.longitude,
            altitude,
        }),
{
}

/// The three components can be set in any order with the same result, and a component set twice
/// keeps only the value set last.
pub proof fn lemma_setters_overwrite_and_commute<A, L>(
    partial: (Option<A>, Option<A>, Option<L>),
    latitude: A,
    longitude: A,
    altitude: L,
    later_altitude: L,
)
    ensures
        with_longitude(with_latitude(partial, latitude), longitude) == with_latitude(
            with_longitude(partial, longitude),
            latitude,
        ),
        with_altitude(with_latitude(partial, latitude), altitude) == with_latitude(
            with_altitude(partial, altitude),
            latitude,
        ),
        with_altitude(with_longitude(partial, longitude), altitude) == with_longitude(
            with_altitude(partial, altitude),
            longitude,
        ),
        with_altitude(with_altitude(partial, altitude), later_altitude) == with_altitude(partial, later_altitude),
        with_latitude(with_latitude(partial, longitude), latitude) == with_latitude(partial, latitude),
        with_longitude(with_longitude(partial, latitude), longitude) == with_longitude(partial, longitude),
{
}

} // verus!
