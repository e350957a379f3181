//! Where the engine keeps its build artifacts: the immutable store, and the
//! default filesystem-backed mutable store.
pub mod immutable;
pub mod mutable;
