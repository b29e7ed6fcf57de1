//! Coordinate systems and the naming conventions of their axes.
use vstd::prelude::*;

verus! {

/// Convention of "North, East, Down" systems: X points North, Y East and Z down (in the
/// direction of gravity).
pub struct NedLike;

/// Convention of "Front, Right, Down" body systems: X points forward, Y to the right and Z down.
pub struct FrdLike;

/// Convention of "East, North, Up" systems: X points East, Y North and Z up.
pub struct EnuLike;

/// Convention of right-handed systems whose axes are simply named X, Y and Z.
pub struct RightHandedXyzLike;

/// A coordinate system, characterised by the naming convention of its axes.
pub trait CoordinateSystem {
    /// The naming convention of the axes (eg [`NedLike`]).
    type Convention;
}

/// The Earth-Centered, Earth-Fixed coordinate system.
pub struct Ecef;

impl CoordinateSystem for Ecef {
    type Convention = RightHandedXyzLike;
}

/// Components of a vector in a [`NedLike`] system, by name.
#[derive(Debug, Default)]
pub struct NedComponents<L> {
    pub north: L,
    pub east: L,
    pub down: L,
}

/// Components of a vector in a [`FrdLike`] system, by name.
#[derive(Debug, Default)]
pub struct FrdComponents<L> {
    pub front: L,
    pub right: L,
    pub down: L,
}

/// Components of a vector in an [`EnuLike`] system, by name.
#[derive(Debug, Default)]
pub struct EnuComponents<L> {
    pub east: L,
    pub north: L,
    pub up: L,
}

/// Components of a vector in a [`RightHandedXyzLike`] system, by name.
#[derive(Debug, Default)]
pub struct XyzComponents<L> {
    pub x: L,
    pub y: L,
    pub z: L,
}

/// Relates a convention to the named components of its vectors, and orders those components
/// along the X, Y and Z axes.
pub trait HasComponents<L> {
    /// The named components of a vector in this convention.
    type Components;

    /// The components along X, Y and Z, in that order.
    spec fn xyz_of(components: Self::Components) -> Seq<L>;

    /// Orders the named components along X, Y and Z.
    fn to_xyz(components: Self::Components) -> (r: [L; 3])
        ensures
            r@ == Self::xyz_of(components),
    ;
}

impl<L> HasComponents<L> for NedLike {
    type Components = NedComponents<L>;

    open spec fn xyz_of(components: NedComponents<L>) -> Seq<L> {
        seq![components.north, components.east, components.down]
    }

    fn to_xyz(components: NedComponents<L>) -> (r: [L; 3]) {
        let NedComponents { north, east, down } = components;
        [north, east, down]
    }
}

impl<L> HasComponents<L> for FrdLike {
    type Components = FrdComponents<L>;

    open spec fn xyz_of(components: FrdComponents<L>) -> Seq<L> {
        seq![components.front, components.right, components.down]
    }

    fn to_xyz(components: FrdComponents<L>) -> (r: [L; 3]) {
        let FrdComponents { front, right, down } = components;
        [front, right, down]
    }
}

impl<L> HasComponents<L> for EnuLike {
    type Components = EnuComponents<L>;

    open spec fn xyz_of(components: EnuComponents<L>) -> Seq<L> {
        seq![components.east, components.north, components.up]
    }

    fn to_xyz(components: EnuComponents<L>) -> (r: [L; 3]) {
        let EnuComponents { east, north, up } = components;
        [east, north, up]
    }
}

impl<L> HasComponents<L> for RightHandedXyzLike {
    type Components = XyzComponents<L>;

    open spec fn xyz_of(components: XyzComponents<L>) -> Seq<L> {
        seq![components.x, components.y, components.z]
    }

    fn to_xyz(components: XyzComponents<L>) -> (r: [L; 3]) {
        let XyzComponents { x, y, z } = components;
        [x, y, z]
    }
}

} // verus!
