//! Marker types and traits of the state platform.
use vstd::prelude::*;

verus! {

/// A marker trait for types that are used as state without being made
/// reactive.
pub trait UnreactiveState {}

/// A marker for when the type of template state is unknown.
#[derive(Clone, Copy, Debug)]
pub struct UnknownStateType;

/// An analogue of `std::convert::Infallible` that can be serialized and
/// deserialized.
#[derive(Clone, Debug)]
pub struct SerdeInfallible;

} // verus!
