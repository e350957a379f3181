//! What state generation is given: the output of the build seed, and the
//! information every state generator receives.
use vstd::prelude::*;

verus! {

/// The output of the build seed system, which should be generated by a user
/// function for each template.
#[derive(Debug)]
pub struct BuildPaths {
    /// The paths to render underneath this template, without the template name
    /// or leading forward slashes.
    pub paths: Vec<String>,
    /// Any additional state, to be passed to all future state generation, as
    /// JSON text (`None` for none).
    pub extra: Option<String>,
}

/// The information any function that generates state will be provided.
#[derive(Debug, Clone)]
pub struct StateGeneratorInfo {
    /// The path it is generating for, not including the template name or
    /// locale.
    pub path: String,
    /// The locale it is generating for.
    pub locale: String,
    /// Any extra data from the template's build seed, as JSON text (`None`
    /// for none).
    pub extra: Option<String>,
}

} // verus!
