//! The immutable store of build artifacts.
use crate::template::widget_component::strip_leading_slash;
use crate::text::{chars_of, string_from_chars};
use vstd::prelude::*;

verus! {

/// `s` without any trailing `/` characters.
pub open spec fn strip_trailing_slashes(s: Seq<char>) -> Seq<char>
    decreases s.len(),
{
    if s.len() > 0 && s.last() == '/' {
        strip_trailing_slashes(s.drop_last())
    } else {
        s
    }
}

/// The path of asset `name` under `root`: the two joined by `/`.
pub open spec fn asset_path_spec(root: Seq<char>, name: Seq<char>) -> Seq<char> {
    root + "/"@ + name
}

/// The directory part of a path: everything before its last `/` (nothing if
/// it has none).
pub open spec fn parent_dir_spec(path: Seq<char>) -> Seq<char>
    decreases path.len(),
{
    if path.len() == 0 {
        path
    } else if path.last() == '/' {
        path.drop_last()
    } else {
        parent_dir_spec(path.drop_last())
    }
}

/// Removes any trailing `/` characters.
pub fn strip_trailing(s: &str) -> (r: String)
    ensures
        r@ == strip_trailing_slashes(s@),
{
    let mut cs = chars_of(s);
    while cs.len() > 0 && cs[cs.len() - 1] == '/'
        invariant
            strip_trailing_slashes(cs@) == strip_trailing_slashes(s@),
        decreases cs.len(),
    {
        let ghost before = cs@;
        cs.pop();
        assert(cs@ == before.drop_last());
    }
    string_from_chars(&cs)
}

/// Removes one leading `/`, if there is one.
pub fn strip_leading(s: &str) -> (r: String)
    ensures
        r@ == strip_leading_slash(s@),
{
    let mut cs = chars_of(s);
    if cs.len() > 0 && cs[0] == '/' {
        let ghost before = cs@;
        cs.remove(0);
        assert(cs@ =~= before.skip(1));
    }
    string_from_chars(&cs)
}

/// The directory in which the file at `path` lies: everything before the last
/// `/` of the path (empty if it has none).
pub fn parent_dir(path: &str) -> (r: String)
    ensures
        r@ == parent_dir_spec(path@),
{
    let mut cs = chars_of(path);
    while cs.len() > 0 && cs[cs.len() - 1] != '/'
        invariant
            parent_dir_spec(cs@) == parent_dir_spec(path@),
        decreases cs.len(),
    {
        let ghost before = cs@;
        cs.pop();
        assert(cs@ == before.drop_last());
    }
    if cs.len() > 0 {
        let ghost before = cs@;
        cs.pop();
        assert(cs@ == before.drop_last());
    }
    string_from_chars(&cs)
}

/// Joins a root path and an asset name with `/`.
pub fn asset_path(root: &str, name: &str) -> (r: String)
    ensures
        r@ == asset_path_spec(root@, name@),
{
    let mut r = root.to_owned();
    r.append("/");
    r.append(name);
    r
}

/// An immutable storage system used by the engine to store build artifacts,
/// rooted at a path on the filesystem (such as `dist`).
#[derive(Clone, Debug)]
pub struct ImmutableStore {
    root_path: String,
}

impl ImmutableStore {
    /// The root path of this store.
    pub closed spec fn root(&self) -> Seq<char> {
        self.root_path@
    }

    /// Creates a new immutable store. One leading slash of the path is
    /// stripped, and so are any trailing slashes.
    pub fn new(root_path: String) -> (r: Self)
        ensures
            r.root() == strip_trailing_slashes(strip_leading_slash(root_path@)),
    {
        ImmutableStore { root_path: strip_trailing(strip_leading(root_path.as_str()).as_str()) }
    }

    /// Gets the filesystem path used for this immutable store.
    pub fn get_path(&self) -> (r: &str)
        ensures
            r@ == self.root(),
    {
        self.root_path.as_str()
    }

    /// The filesystem path of the asset with the given name.
    pub fn asset_path(&self, name: &str) -> (r: String)
        ensures
            r@ == asset_path_spec(self.root(), name@),
    {
        asset_path(self.root_path.as_str(), name)
    }
}

/// A root path never ends in `/` once stripped.
pub proof fn law_stripped_has_no_trailing_slash(s: Seq<char>)
    ensures
        strip_trailing_slashes(s).len() == 0 || strip_trailing_slashes(s).last() != '/',
    decreases s.len(),
{
    if s.len() > 0 && s.last() == '/' {
        law_stripped_has_no_trailing_slash(s.drop_last());
    }
}

/// The directory of an asset is its store's root.
pub proof fn law_asset_parent_is_root(root: Seq<char>, name: Seq<char>)
    requires
        !name.contains('/'),
    ensures
        parent_dir_spec(asset_path_spec(root, name)) == root,
    decreases name.len(),
{
    reveal_strlit("/");
    if name.len() == 0 {
        assert(asset_path_spec(root, name) == root.push('/'));
        assert(root.push('/').drop_last() == root);
    } else {
        let shorter = name.drop_last();
        assert(!shorter.contains('/')) by {
            if shorter.contains('/') {
                let j = choose|j: int| 0 <= j < shorter.len() && shorter[j] == '/';
                assert(name[j] == '/');
            }
        }
        assert(name.last() != '/') by {
            assert(name.contains(name[name.len() - 1]));
        }
        assert(asset_path_spec(root, name).drop_last() == asset_path_spec(root, shorter));
        law_asset_parent_is_root(root, shorter);
    }
}

} // verus!
