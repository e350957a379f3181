//! The results of user-provided state generator functions.
use crate::errors::{ClientError, ClientInvariantError, ErrorBlame, ServerError};
use vstd::prelude::*;

verus! {

/// An error from a generator function with an attached statement of who is
/// to blame for it.
#[derive(Debug)]
pub struct GenericBlamedError {
    /// The error's message.
    pub error: String,
    /// Who is to blame.
    pub blame: ErrorBlame,
}

/// The result of a state generator function that does not assign blame for
/// errors.
#[derive(Debug)]
pub enum GeneratorResult<T> {
    /// The function succeeded.
    Success(T),
    /// The function failed, with this error message.
    Failure(String),
}

impl<T> GeneratorResult<T> {
    /// Converts this into a `Result`. Since this type has no blame, any error
    /// is blamed on the server with no special status code.
    pub fn to_server_result(self, fn_name: &str, template_name: String) -> (r: Result<T, ServerError>)
        ensures
            match self {
                GeneratorResult::Success(v) => r == Ok::<T, ServerError>(v),
                GeneratorResult::Failure(e) => match r {
                    Err(ServerError::RenderFnFailed { fn_name: f, template_name: t, blame, source }) => f@
                        == fn_name@ && t == template_name && blame == ErrorBlame::Server(None) && source
                        == e,
                    _ => false,
                },
            },
    {
        match self {
            GeneratorResult::Success(val) => Ok(val),
            GeneratorResult::Failure(err) => Err(
                ServerError::RenderFnFailed {
                    fn_name: fn_name.to_owned(),
                    template_name,
                    blame: ErrorBlame::Server(None),
                    source: err,
                },
            ),
        }
    }
}

/// The result of a state generator function that assigns blame for errors.
#[derive(Debug)]
pub enum BlamedGeneratorResult<T> {
    /// The function succeeded.
    Success(T),
    /// The function failed, with this blamed error.
    Failure(GenericBlamedError),
}

impl<T> BlamedGeneratorResult<T> {
    /// Converts this into a `Result`, keeping the error's blame.
    pub fn to_server_result(self, fn_name: &str, template_name: String) -> (r: Result<T, ServerError>)
        ensures
            match self {
                BlamedGeneratorResult::Success(v) => r == Ok::<T, ServerError>(v),
                BlamedGeneratorResult::Failure(e) => match r {
                    Err(ServerError::RenderFnFailed { fn_name: f, template_name: t, blame, source }) => f@
                        == fn_name@ && t == template_name && blame == e.blame && source == e.error,
                    _ => false,
                },
            },
    {
        match self {
            BlamedGeneratorResult::Success(val) => Ok(val),
            BlamedGeneratorResult::Failure(err) => Err(
                ServerError::RenderFnFailed {
                    fn_name: fn_name.to_owned(),
                    template_name,
                    blame: err.blame,
                    source: err.error,
                },
            ),
        }
    }
}

/// Checks the state handed to a state-dependent head or headers function:
/// empty state is an error, as the function needs some.
pub fn state_present(state: &Option<String>) -> (r: Result<&String, ServerError>)
    ensures
        match state {
            Some(s) => r == Ok::<&String, ServerError>(s),
            None => r == Err::<&String, ServerError>(
                ServerError::ClientError(ClientError::InvariantError(ClientInvariantError::NoState)),
            ),
        },
{
    match state {
        Some(s) => Ok(s),
        None => Err(ServerError::ClientError(ClientError::InvariantError(ClientInvariantError::NoState))),
    }
}

/// Settles what deserializing present state into the type a head or headers
/// function takes gave: the typed state, or an error saying the state was
/// not of that type, with the deserializer's message.
pub fn typed_state<S>(typed: Result<S, String>) -> (r: Result<S, ServerError>)
    ensures
        match typed {
            Ok(s) => r == Ok::<S, ServerError>(s),
            Err(m) => r == Err::<S, ServerError>(
                ServerError::ClientError(ClientError::InvariantError(ClientInvariantError::InvalidState { source: m })),
            ),
        },
{
    match typed {
        Ok(s) => Ok(s),
        Err(m) => Err(ServerError::ClientError(ClientError::InvariantError(ClientInvariantError::InvalidState { source: m }))),
    }
}

} // verus!
