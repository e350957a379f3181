//! Template state as the server handles it: JSON text, with JSON `null`
//! standing for a template that has no state.
use crate::text::opt_view;
use vstd::prelude::*;

verus! {

/// What parsing `s` as JSON and writing it out again gives: the compact JSON
/// text of the parsed value, or the parser's error message.
pub uninterp spec fn json_reserialized(s: Seq<char>) -> Result<Seq<char>, Seq<char>>;

/// Parses `s` into a `serde_json::Value` with `serde_json::from_str` and
/// writes that value out again with its `Display` impl; a parse error is
/// given back as its message. Trusted: the result is exactly
/// `json_reserialized` of the input, which depends on nothing else.
#[verifier::external_body]
fn reserialize_json(s: &str) -> (r: Result<String, String>)
    ensures
        match r {
            Ok(t) => json_reserialized(s@) == Ok::<Seq<char>, Seq<char>>(t@),
            Err(e) => json_reserialized(s@) == Err::<Seq<char>, Seq<char>>(e@),
        },
{
    match serde_json::from_str::<serde_json::Value>(s) {
        Ok(v) => Ok(v.to_string()),
        Err(e) => Err(e.to_string()),
    }
}

/// Template state given as JSON text: `None` where it is `null` (empty state).
pub open spec fn state_of_json(t: Seq<char>) -> Option<Seq<char>> {
    if t == "null"@ {
        None
    } else {
        Some(t)
    }
}

/// Creates template state by deserializing it from a string: the compact
/// JSON text of the state, `None` for empty (`null`) state, or the parser's
/// error message.
pub fn template_state_from_str(s: &str) -> (r: Result<Option<String>, String>)
    ensures
        match json_reserialized(s@) {
            Ok(t) => r matches Ok(o) && opt_view(o) == state_of_json(t),
            Err(e) => r matches Err(m) && m@ == e,
        },
{
    match reserialize_json(s) {
        Ok(t) => {
            let null = "null".to_owned();
            proof {
                reveal_strlit("null");
            }
            if t == null {
                Ok(None)
            } else {
                Ok(Some(t))
            }
        },
        Err(e) => Err(e),
    }
}

} // verus!
