//! State fetched by the browser after the page that needs it has loaded.
use vstd::prelude::*;

verus! {

/// A wrapper for state that will be fetched asynchronously by the browser
/// *after* the page it is needed by has been loaded.
pub enum Delayed<T> {
    /// The state is ready for use.
    Ready(T),
    /// The state is being fetched.
    Waiting,
    /// There was an error while trying to fetch the state.
    Error,
}

impl<T> Delayed<T> {
    /// Takes the underlying value out of the wrapper if it's ready. If `self`
    /// is not `Delayed::Ready`, this returns `None`.
    pub fn take(self) -> (r: Option<T>)
        ensures
            r == (match self {
                Delayed::Ready(v) => Some(v),
                _ => None,
            }),
    {
        match self {
            Delayed::Ready(val) => Some(val),
            _ => None,
        }
    }
}

impl<T> From<T> for Delayed<T> {
    fn from(val: T) -> (r: Self) {
        Delayed::Ready(val)
    }
}

impl<T> vstd::std_specs::convert::FromSpecImpl<T> for Delayed<T> {
    open spec fn obeys_from_spec() -> bool {
        true
    }

    open spec fn from_spec(v: T) -> Self {
        Delayed::Ready(v)
    }
}

} // verus!
