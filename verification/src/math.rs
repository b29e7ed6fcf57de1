//! Spatial operations expressed in mathematical language.
//!
//! The parts of rigid-body transforms that do not compute with floating-point numbers live here:
//! the type-state builder that collects Tait-Bryan angles in their intrinsic order.
pub mod tait_bryan_builder;
