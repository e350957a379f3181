//! Global state: the creator of the app-wide state, and its frozen form.
use crate::errors::{BuildError, ServerError};
use vstd::prelude::*;

verus! {

/// The name under which the global state reports errors.
pub open spec fn global_state_name() -> Seq<char> {
    "GLOBAL_STATE"@
}

/// A creator for global state: the user-provided functions that generate the
/// app-wide state at build time (`B`), at request time (`R`) and that
/// amalgamate the two (`A`).
pub struct GlobalStateCreator<B, R, A> {
    /// The function that creates state at build-time.
    build: Option<B>,
    /// The function that creates state at request-time.
    request: Option<R>,
    /// The function that amalgamates state from build-time and request-time.
    amalgamation: Option<A>,
}

impl<B, R, A> GlobalStateCreator<B, R, A> {
    /// The build-time state function, if set.
    pub closed spec fn build_spec(&self) -> Option<B> {
        self.build
    }

    /// The request-time state function, if set.
    pub closed spec fn request_spec(&self) -> Option<R> {
        self.request
    }

    /// The amalgamation function, if set.
    pub closed spec fn amalgamation_spec(&self) -> Option<A> {
        self.amalgamation
    }

    /// Creates a new creator with no functions.
    pub fn new() -> (r: Self)
        ensures
            r.build_spec() is None,
            r.request_spec() is None,
            r.amalgamation_spec() is None,
    {
        GlobalStateCreator { build: None, request: None, amalgamation: None }
    }

    /// Adds a function to generate global state at build-time.
    pub fn build_state_fn(self, val: B) -> (r: Self)
        ensures
            r.build_spec() == Some(val),
            r.request_spec() == self.request_spec(),
            r.amalgamation_spec() == self.amalgamation_spec(),
    {
        GlobalStateCreator { build: Some(val), ..self }
    }

    /// Adds a function to generate global state at request-time.
    pub fn request_state_fn(self, val: R) -> (r: Self)
        ensures
            r.request_spec() == Some(val),
            r.build_spec() == self.build_spec(),
            r.amalgamation_spec() == self.amalgamation_spec(),
    {
        GlobalStateCreator { request: Some(val), ..self }
    }

    /// Adds a function to amalgamate build-time and request-time global
    /// state.
    pub fn amalgamate_states_fn(self, val: A) -> (r: Self)
        ensures
            r.amalgamation_spec() == Some(val),
            r.build_spec() == self.build_spec(),
            r.request_spec() == self.request_spec(),
    {
        GlobalStateCreator { amalgamation: Some(val), ..self }
    }

    /// Checks if this state needs to do anything on requests for it.
    pub fn uses_request_state(&self) -> (b: bool)
        ensures
            b == self.request_spec() is Some,
    {
        self.request.is_some()
    }

    /// Checks if this state needs to do anything at build time.
    pub fn uses_build_state(&self) -> (b: bool)
        ensures
            b == self.build_spec() is Some,
    {
        self.build.is_some()
    }

    /// Checks if this state has custom logic to amalgamate build and request
    /// states if both are generated.
    pub fn can_amalgamate_states(&self) -> (b: bool)
        ensures
            b == self.amalgamation_spec() is Some,
    {
        self.amalgamation.is_some()
    }

    /// The function that generates the global state at build time, or the
    /// error reported when there is none.
    pub fn get_build_state_fn(&self) -> (r: Result<&B, ServerError>)
        ensures
            match self.build_spec() {
                Some(b) => r == Ok::<&B, ServerError>(&b),
                None => feature_not_enabled(r, "build_state"@),
            },
    {
        match &self.build {
            Some(b) => Ok(b),
            None => Err(not_enabled("build_state")),
        }
    }

    /// The function that generates the global state at request time, or the
    /// error reported when there is none.
    pub fn get_request_state_fn(&self) -> (r: Result<&R, ServerError>)
        ensures
            match self.request_spec() {
                Some(f) => r == Ok::<&R, ServerError>(&f),
                None => feature_not_enabled(r, "request_state"@),
            },
    {
        match &self.request {
            Some(f) => Ok(f),
            None => Err(not_enabled("request_state")),
        }
    }

    /// The function that amalgamates build-time and request-time global
    /// state, or the error reported when there is none.
    pub fn get_amalgamate_states_fn(&self) -> (r: Result<&A, ServerError>)
        ensures
            match self.amalgamation_spec() {
                Some(f) => r == Ok::<&A, ServerError>(&f),
                None => feature_not_enabled(r, "amalgamate_states"@),
            },
    {
        match &self.amalgamation {
            Some(f) => Ok(f),
            None => Err(not_enabled("amalgamate_states")),
        }
    }
}

/// `r` is the error saying that the global state has not enabled `feature`.
pub open spec fn feature_not_enabled<T>(r: Result<T, ServerError>, feature: Seq<char>) -> bool {
    match r {
        Err(
            ServerError::BuildError(
                BuildError::TemplateFeatureNotEnabled { template_name: t, feature_name: f },
            ),
        ) => t@ == global_state_name() && f@ == feature,
        _ => false,
    }
}

/// The error saying that the global state has not enabled `feature`.
fn not_enabled(feature: &str) -> (e: ServerError)
    ensures
        feature_not_enabled(Err::<(), ServerError>(e), feature@),
{
    ServerError::BuildError(
        BuildError::TemplateFeatureNotEnabled {
            template_name: "GLOBAL_STATE".to_owned(),
            feature_name: feature.to_owned(),
        },
    )
}

/// Frozen global state.
#[derive(Debug)]
pub enum FrozenGlobalState {
    /// There is state that should be instantiated.
    Frozen(String),
    /// The global state had not been modified from the engine-side.
    Server,
    /// There was no global state.
    Absent,
    /// The frozen global state has already been used.
    Used,
}

} // verus!
