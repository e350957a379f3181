use vstd::prelude::*;

pub mod assoc;
pub mod errors;
pub mod path;
pub mod serve;
pub mod server;
pub mod shell;
pub mod state;
pub mod stores;
pub mod template;
pub mod text;
pub mod translator;

verus! {

} // verus!
