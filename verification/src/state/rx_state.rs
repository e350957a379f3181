//! Traits for state that can be frozen into a string.
use vstd::prelude::*;

verus! {

/// A trait for reactive `struct`s that can be made unreactive and serialized
/// to a `String`.
pub trait Freeze {
    /// The frozen form of the value. An impl that Verus checks states it; of
    /// one it does not check (outside this library), nothing is known but
    /// what that impl's author promises by implementing the trait.
    open spec fn frozen(&self) -> Seq<char> {
        arbitrary()
    }

    /// 'Freezes' the reactive `struct` by making it unreactive and converting
    /// it to a `String`: its frozen form.
    fn freeze(&self) -> (r: String)
        ensures
            r@ == self.frozen(),
    ;
}

/// A convenience super-trait for `Freeze`able things.
pub trait AnyFreeze: Freeze {}

impl<T: Freeze> AnyFreeze for T {}

/// Serializes `None` to JSON (`serde_json::to_string(&Option::<()>::None)`),
/// which its documentation gives as `null`.
#[verifier::external_body]
fn none_to_json() -> (r: String)
    ensures
        r@ == "null"@,
{
    serde_json::to_string(&Option::<()>::None).unwrap()
}

/// The global state starts out as an `Option::<()>::None`; it freezes to the
/// JSON for `None`.
impl Freeze for Option<()> {
    open spec fn frozen(&self) -> Seq<char> {
        "null"@
    }

    fn freeze(&self) -> (r: String) {
        none_to_json()
    }
}

} // verus!
