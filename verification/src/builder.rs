//! Type-level markers shared by the builders of this crate.
use vstd::prelude::*;

verus! {

/// Tells, at the level of types, whether a component of a partially-constructed value has been
/// given.
///
/// Every marker type that a builder uses for one of its components implements this trait, and
/// the builder keeps as its invariant that a component whose marker says "set" holds a value.
pub trait ComponentState {
    /// Whether a builder in this state holds a value for the component.
    spec fn is_set() -> bool;
}

/// Used to indicate that a partially-constructed value is missing a given component.
#[derive(Debug, Clone, Copy)]
pub struct Unset;

/// Used to indicate that a partially-constructed value has a given component set (the
/// counterpart of [`Unset`]).
#[derive(Debug, Clone, Copy)]
pub struct IsSet;

impl ComponentState for Unset {
    open spec fn is_set() -> bool {
        false
    }
}

impl ComponentState for IsSet {
    open spec fn is_set() -> bool {
        true
    }
}

} // verus!
