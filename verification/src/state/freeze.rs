//! Frozen apps and the user's preferences on thawing them.
use crate::assoc::string_views;
use crate::path::{PathMaybeWithLocale, PathWithoutLocale};
use crate::state::global_state::FrozenGlobalState;
use vstd::prelude::*;

verus! {

/// A representation of a frozen app.
#[derive(Debug)]
pub struct FrozenApp {
    /// The frozen global state.
    pub global_state: FrozenGlobalState,
    /// The frozen route, if the app had hydrated when it was frozen.
    pub route: Option<PathMaybeWithLocale>,
    /// The frozen state store: the frozen state of each page, by path.
    pub state_store: Vec<(PathMaybeWithLocale, String)>,
}

/// The user's preferences on state thawing.
#[derive(Debug)]
pub struct ThawPrefs {
    /// The preference for page thawing.
    pub page: PageThawPrefs,
    /// Whether or not active global state should be overridden by frozen
    /// state.
    pub global_prefer_frozen: bool,
}

/// The user's preferences on page state thawing: which pages should prefer
/// frozen state over active state.
#[derive(Debug)]
pub enum PageThawPrefs {
    /// Include the attached pages by their URLs (with no leading `/`).
    Include(Vec<String>),
    /// Includes all pages in the app.
    IncludeAll,
    /// Excludes the attached pages by their URLs (with no leading `/`); any
    /// pages not listed prefer frozen state. `Exclude(Vec::new())` is
    /// equivalent to `IncludeAll`.
    Exclude(Vec<String>),
}

impl PageThawPrefs {
    /// Whether the page at `url` prefers frozen state over active state.
    pub open spec fn prefers_frozen(&self, url: Seq<char>) -> bool {
        match self {
            PageThawPrefs::Include(pages) => string_views(pages@).contains(url),
            PageThawPrefs::IncludeAll => true,
            PageThawPrefs::Exclude(pages) => !string_views(pages@).contains(url),
        }
    }

    /// Checks whether or not the given URL should prioritize frozen state over
    /// active state.
    pub fn should_prefer_frozen_state(&self, url: &PathWithoutLocale) -> (b: bool)
        ensures
            b == self.prefers_frozen(url@),
    {
        match self {
            PageThawPrefs::Include(pages) => crate::assoc::contains_string(pages, url),
            PageThawPrefs::IncludeAll => true,
            PageThawPrefs::Exclude(pages) => !crate::assoc::contains_string(pages, url),
        }
    }
}

/// `Exclude` with no pages is equivalent to `IncludeAll`.
pub proof fn law_exclude_nothing_is_include_all(pages: Vec<String>, url: Seq<char>)
    requires
        pages@.len() == 0,
    ensures
        PageThawPrefs::Exclude(pages).prefers_frozen(url) == PageThawPrefs::IncludeAll.prefers_frozen(url),
{
    assert(string_views(pages@).len() == 0);
}

} // verus!
