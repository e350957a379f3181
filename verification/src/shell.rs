//! The browser's side of fetching pages from the server.
use crate::errors::{ClientError, FetchError};
use vstd::prelude::*;

verus! {

/// What a response to a fetch of `url` comes to, given its status and its
/// body (if it was text): nothing for a 404, the body for a 200, and
/// otherwise an error carrying the body.
pub fn fetch_response(url: &str, status: u16, body: Option<String>) -> (r: Result<Option<String>, ClientError>)
    ensures
        status == 404 ==> r == Ok::<Option<String>, ClientError>(None),
        status != 404 ==> match body {
            None => r matches Err(ClientError::FetchError(FetchError::NotString { url: u })) && u@ == url@,
            Some(b) => if status == 200 {
                r == Ok::<Option<String>, ClientError>(Some(b))
            } else {
                r matches Err(ClientError::FetchError(FetchError::NotOk { url: u, status: s, err })) && u@ == url@
                    && s == status && err == b
            },
        },
{
    if status == 404 {
        return Ok(None);
    }
    match body {
        None => Err(ClientError::FetchError(FetchError::NotString { url: url.to_owned() })),
        Some(b) => if status == 200 {
            Ok(Some(b))
        } else {
            Err(ClientError::FetchError(FetchError::NotOk { url: url.to_owned(), status, err: b }))
        },
    }
}

} // verus!
