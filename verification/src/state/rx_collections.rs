//! Collections whose elements are made reactive one by one.
use std::collections::HashMap;
use vstd::prelude::*;

verus! {

/// A vector whose elements are each made reactive.
#[derive(Clone, Debug)]
pub struct RxVec<T>(pub Vec<T>);

/// A map whose values are each made reactive.
#[derive(Clone, Debug)]
pub struct RxHashMap<K, V>(pub HashMap<K, V>);

impl<T> std::ops::Deref for RxVec<T> {
    type Target = Vec<T>;

    fn deref(&self) -> (r: &Vec<T>)
        ensures
            r == &self.0,
    {
        &self.0
    }
}

impl<K, V> std::ops::Deref for RxHashMap<K, V> {
    type Target = HashMap<K, V>;

    fn deref(&self) -> (r: &HashMap<K, V>)
        ensures
            r == &self.0,
    {
        &self.0
    }
}

} // verus!
