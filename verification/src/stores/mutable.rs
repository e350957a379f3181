//! The default mutable store, which uses the filesystem.
use crate::stores::immutable::{asset_path, asset_path_spec};
use vstd::prelude::*;

verus! {

/// The default mutable store, which simply uses the filesystem under a root
/// path (such as `dist/mutable`).
#[derive(Clone, Debug)]
pub struct FsMutableStore {
    root_path: String,
}

impl FsMutableStore {
    /// The root path of this store.
    pub closed spec fn root(&self) -> Seq<char> {
        self.root_path@
    }

    /// Creates a new filesystem store rooted at the given path.
    pub fn new(root_path: String) -> (r: Self)
        ensures
            r.root() == root_path@,
    {
        FsMutableStore { root_path }
    }

    /// The filesystem path of the asset with the given name.
    pub fn asset_path(&self, name: &str) -> (r: String)
        ensures
            r@ == asset_path_spec(self.root(), name@),
    {
        asset_path(self.root_path.as_str(), name)
    }
}

} // verus!
