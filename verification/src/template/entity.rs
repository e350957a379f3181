//! Storage of entities either owned or by static reference.
use vstd::prelude::*;

verus! {

/// A wrapper type that allows something to be stored as either an owned type
/// or a static reference.
#[derive(Debug)]
pub enum Forever<T: 'static> {
    /// An owned value.
    Owned(T),
    /// A reference that lives forever.
    StaticRef(&'static T),
}

impl<T: 'static> Forever<T> {
    /// The value held, however it is held.
    pub open spec fn value(&self) -> T {
        match self {
            Forever::Owned(v) => *v,
            Forever::StaticRef(v) => **v,
        }
    }

}

impl<T: 'static> std::ops::Deref for Forever<T> {
    type Target = T;

    /// Gives access to the value held, however it is held.
    fn deref(&self) -> (r: &T)
        ensures
            *r == self.value(),
    {
        match self {
            Forever::Owned(val) => val,
            Forever::StaticRef(val) => val,
        }
    }
}

} // verus!
