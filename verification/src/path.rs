//! The kinds of paths the library works with.
use crate::server::render::{join_locale, path_with_locale_spec};
use vstd::prelude::*;

verus! {

/// A path that may have a locale prepended (as the page state store keys its
/// entries).
pub type PathMaybeWithLocale = String;

/// A path without any locale.
pub type PathWithoutLocale = String;

/// The path with the locale prepended, or as it is where i18n isn't used
/// (the locale is `xx-XX`).
pub fn path_maybe_with_locale(path: &str, locale: &str) -> (r: PathMaybeWithLocale)
    ensures
        r@ == path_with_locale_spec(path@, locale@),
{
    join_locale(&path.to_owned(), &locale.to_owned())
}

} // verus!
