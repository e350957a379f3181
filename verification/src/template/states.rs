//! Page properties, the states a template can generate, and the earlier
//! form of frozen apps and thaw preferences.
use crate::assoc::string_views;
use crate::errors::ServeError;
use vstd::prelude::*;

verus! {

/// The properties that every page will be initialized with.
#[derive(Clone, Debug)]
pub struct PageProps {
    /// The path it's rendering at.
    pub path: String,
    /// The state provided to the page, if any was generated.
    pub state: Option<String>,
    /// The global state, stringified, if any was generated.
    pub global_state: Option<String>,
}

/// A representation of a frozen app.
#[derive(Debug)]
pub struct FrozenApp {
    /// The frozen global state.
    pub global_state: String,
    /// The frozen route.
    pub route: String,
    /// The frozen page state store: the frozen state of each page, by URL.
    pub page_state_store: Vec<(String, String)>,
}

/// The user's preferences on state thawing.
#[derive(Debug)]
pub struct ThawPrefs {
    /// The preference for page thawing.
    pub page: PageThawPrefs,
    /// Whether or not active global state should be overridden by frozen
    /// state.
    pub global_prefer_frozen: bool,
}

/// The user's preferences on page state thawing: which pages should use
/// frozen state over active state.
#[derive(Debug)]
pub enum PageThawPrefs {
    /// Include the attached pages by their URLs (with no leading `/`).
    Include(Vec<String>),
    /// Includes all pages in the app.
    IncludeAll,
    /// Excludes the attached pages by their URLs (with no leading `/`).
    /// `Exclude(Vec::new())` is equivalent to `IncludeAll`.
    Exclude(Vec<String>),
}

impl PageThawPrefs {
    /// Whether the page at `url` uses frozen state over active state.
    pub open spec fn uses_frozen(&self, url: Seq<char>) -> bool {
        match self {
            PageThawPrefs::Include(pages) => string_views(pages@).contains(url),
            PageThawPrefs::IncludeAll => true,
            PageThawPrefs::Exclude(pages) => !string_views(pages@).contains(url),
        }
    }

    /// Checks whether or not the given URL should prioritize frozen state over
    /// active state.
    pub fn should_use_frozen_state(&self, url: &str) -> (b: bool)
        ensures
            b == self.uses_frozen(url@),
    {
        let key = url.to_owned();
        match self {
            PageThawPrefs::Include(pages) => crate::assoc::contains_string(pages, &key),
            PageThawPrefs::IncludeAll => true,
            PageThawPrefs::Exclude(pages) => !crate::assoc::contains_string(pages, &key),
        }
    }
}

/// `Exclude` with no pages is equivalent to `IncludeAll`.
pub proof fn law_exclude_nothing_is_include_all(pages: Vec<String>, url: Seq<char>)
    requires
        pages@.len() == 0,
    ensures
        PageThawPrefs::Exclude(pages).uses_frozen(url) == PageThawPrefs::IncludeAll.uses_frozen(url),
{
    assert(string_views(pages@).len() == 0);
}

/// All the different states that can be generated for a single template.
#[derive(Debug)]
pub struct States {
    /// Any state generated by the *build state* strategy.
    pub build_state: Option<String>,
    /// Any state generated by the *request state* strategy.
    pub request_state: Option<String>,
}

impl States {
    /// Creates a new instance of the states, setting both to `None`.
    pub fn new() -> (r: Self)
        ensures
            r.build_state is None,
            r.request_state is None,
    {
        States { build_state: None, request_state: None }
    }

    /// Checks if both request state and build state are defined.
    pub fn both_defined(&self) -> (b: bool)
        ensures
            b == (self.build_state is Some && self.request_state is Some),
    {
        self.build_state.is_some() && self.request_state.is_some()
    }

    /// Gets the only defined state if only one is defined. If no states are
    /// defined, this returns `None`. If both are defined, this returns an
    /// error.
    pub fn get_defined(&self) -> (r: Result<Option<String>, ServeError>)
        ensures
            self.build_state is Some && self.request_state is Some ==> r == Err::<
                Option<String>,
                ServeError,
            >(ServeError::BothStatesDefined),
            self.build_state is Some && self.request_state is None ==> r == Ok::<
                Option<String>,
                ServeError,
            >(self.build_state),
            self.build_state is None ==> r == Ok::<Option<String>, ServeError>(self.request_state),
    {
        if self.both_defined() {
            return Err(ServeError::BothStatesDefined);
        }
        match &self.build_state {
            Some(s) => Ok(Some(s.clone())),
            None => match &self.request_state {
                Some(s) => Ok(Some(s.clone())),
                None => Ok(None),
            },
        }
    }
}

} // verus!
