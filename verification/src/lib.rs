//! Hard-to-misuse building blocks for rigid body transforms between coordinate systems.
//!
//! This crate holds the parts of the spatial-math library that do not compute with
//! floating-point numbers: the type-state builders through which bearings, WGS84 locations,
//! vectors and Tait-Bryan rotations are assembled, the naming conventions of the coordinate
//! systems, and the hemisphere decisions used when a WGS84 location is printed. Every builder is
//! generic over the type of the values it carries (angles, lengths, velocities), and states in
//! its contracts exactly which values come out of it.
pub mod builder;
pub mod directions;
pub mod geodetic;
pub mod math;
pub mod systems;
pub mod vectors;
