//! Requests, and how the flags and paths of a command line name one.

use vstd::prelude::*;
use crate::error::{RequestError, UsageError};
use crate::path::NativePath;

verus! {

/// One request to the tool.
#[derive(Clone, Debug, PartialEq, Eq)]
pub enum Request {
    /// Report the junction at `path`; with `recursive`, every junction at and
    /// below it; with `quiet`, without diagnostics for what cannot be read.
    List { path: NativePath, quiet: bool, recursive: bool },
    /// Make `source` a junction that leads to `destination`.
    Create { source: NativePath, destination: NativePath },
    /// Remove the junction at `path` and the directory that carried it.
    Delete { path: NativePath },
}

/// The request that flags and paths name: `None` where there is nothing to
/// do but show the usage text, an error where they name no request.
pub open spec fn request_of(delete: bool, quiet: bool, recursive: bool, paths: Seq<NativePath>)
    -> Result<Option<Request>, UsageError> {
    if delete {
        if paths.len() == 1 {
            Ok(Some(Request::Delete { path: paths[0] }))
        } else {
            Err(UsageError::DeleteArity(paths.len() as usize))
        }
    } else if paths.len() == 0 {
        Ok(None)
    } else if paths.len() == 1 {
        Ok(Some(Request::List { path: paths[0], quiet, recursive }))
    } else if quiet || recursive {
        if paths.len() == 2 {
            Err(UsageError::StrayListFlags)
        } else {
            Err(UsageError::ListArity(paths.len() as usize))
        }
    } else if paths.len() == 2 {
        Ok(Some(Request::Create { source: paths[0], destination: paths[1] }))
    } else {
        Err(UsageError::CreateArity(paths.len() as usize))
    }
}

/// Builds the request that the flags and the free paths of a command line
/// name. With `delete` the other two flags play no part.
pub fn parse_request(delete: bool, quiet: bool, recursive: bool, paths: Vec<NativePath>) -> (result:
    Result<Option<Request>, RequestError>)
    ensures
        match request_of(delete, quiet, recursive, paths@) {
            Ok(request) => result == Ok::<Option<Request>, RequestError>(request),
            Err(usage) => result == Err::<Option<Request>, RequestError>(
                RequestError::UsageError(usage),
            ),
        },
{
    let mut paths = paths;
    let count: usize = paths.len();
    if delete {
        if count == 1 {
            let path = paths.pop().unwrap();
            Ok(Some(Request::Delete { path }))
        } else {
            Err(RequestError::UsageError(UsageError::DeleteArity(count)))
        }
    } else if count == 0 {
        Ok(None)
    } else if count == 1 {
        let path = paths.pop().unwrap();
        Ok(Some(Request::List { path, quiet, recursive }))
    } else if quiet || recursive {
        if count == 2 {
            Err(RequestError::UsageError(UsageError::StrayListFlags))
        } else {
            Err(RequestError::UsageError(UsageError::ListArity(count)))
        }
    } else if count == 2 {
        let destination = paths.pop().unwrap();
        let source = paths.pop().unwrap();
        Ok(Some(Request::Create { source, destination }))
    } else {
        Err(RequestError::UsageError(UsageError::CreateArity(count)))
    }
}

/// Arguments that name no request are refused before anything is done: a
/// request comes out only of one path, or of two paths without listing flags.
pub proof fn request_needs_the_right_paths(
    delete: bool,
    quiet: bool,
    recursive: bool,
    paths: Seq<NativePath>,
)
    ensures
        request_of(delete, quiet, recursive, paths) is Err <==> if delete {
            paths.len() != 1
        } else {
            paths.len() > 2 || (paths.len() == 2 && (quiet || recursive))
        },
        request_of(delete, quiet, recursive, paths) == Ok::<Option<Request>, UsageError>(None)
            <==> !delete && paths.len() == 0,
{
}

} // verus!
