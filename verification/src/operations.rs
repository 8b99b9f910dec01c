//! Creating and deleting a junction: what the platform's answers mean.
//!
//! Deleting takes two platform operations in a fixed order. The caller
//! removes the reparse point and hands the answer to
//! [`after_reparse_removal`]; only with the [`ShellRemoval`] that it gives
//! back on success may the caller remove the directory and hand that answer
//! to [`after_shell_removal`].

use vstd::prelude::*;
use crate::error::{OperationKind, PlatformError, RequestError};
use crate::path::NativePath;

verus! {

/// The result of a creation request, given the platform's answer.
pub open spec fn create_result(source: NativePath, answer: Result<(), PlatformError>) -> Result<
    (),
    RequestError,
> {
    match answer {
        Ok(_) => Ok(()),
        Err(cause) => Err(
            RequestError::OperationError { kind: OperationKind::Create, path: source, cause },
        ),
    }
}

/// Decides how a creation request ends. `source` is the path that was to
/// become the junction; `answer` is what the platform said to creating it.
/// A refusal is one error; nothing is cleaned up.
pub fn create_junction(source: NativePath, answer: Result<(), PlatformError>) -> (result: Result<
    (),
    RequestError,
>)
    ensures
        result == create_result(source, answer),
{
    match answer {
        Ok(_) => Ok(()),
        Err(cause) => Err(
            RequestError::OperationError { kind: OperationKind::Create, path: source, cause },
        ),
    }
}

/// Proof that the reparse point at a path has been removed, and the duty to
/// remove the directory that carried it. Only [`after_reparse_removal`]
/// makes one, and only for a removal that succeeded.
#[derive(Debug, PartialEq, Eq)]
pub struct ShellRemoval {
    path: NativePath,
}

impl ShellRemoval {
    /// The path whose reparse point is gone.
    pub closed spec fn site(&self) -> NativePath {
        self.path
    }

    /// The path of the directory that has to be removed.
    pub fn path(&self) -> (path: &NativePath)
        ensures
            *path == self.site(),
    {
        &self.path
    }
}

/// The result of a deletion whose reparse point is gone, given the
/// platform's answer to removing the directory.
pub open spec fn shell_removal_result(path: NativePath, answer: Result<(), PlatformError>) -> Result<
    (),
    RequestError,
> {
    match answer {
        Ok(_) => Ok(()),
        Err(cause) => Err(RequestError::PartialDeleteError { path, cause }),
    }
}

/// The result of a whole deletion, given the platform's answer to removing
/// the reparse point and the answer it gives to removing the directory.
pub open spec fn delete_result(
    path: NativePath,
    reparse: Result<(), PlatformError>,
    shell: Result<(), PlatformError>,
) -> Result<(), RequestError> {
    match reparse {
        Ok(_) => shell_removal_result(path, shell),
        Err(cause) => Err(
            RequestError::OperationError { kind: OperationKind::Delete, path, cause },
        ),
    }
}

/// Decides what follows the removal of the reparse point: on failure the
/// request fails and the directory is left alone; on success the directory
/// has to be removed next.
pub fn after_reparse_removal(path: NativePath, answer: Result<(), PlatformError>) -> (step: Result<
    ShellRemoval,
    RequestError,
>)
    ensures
        match answer {
            Ok(_) => step is Ok && step->Ok_0.site() == path,
            Err(cause) => step == Err::<ShellRemoval, RequestError>(
                RequestError::OperationError { kind: OperationKind::Delete, path, cause },
            ),
        },
{
    match answer {
        Ok(_) => Ok(ShellRemoval { path }),
        Err(cause) => Err(
            RequestError::OperationError { kind: OperationKind::Delete, path, cause },
        ),
    }
}

/// Decides how a deletion ends once the reparse point is gone: a directory
/// that could not be removed is an error of its own kind.
pub fn after_shell_removal(pending: ShellRemoval, answer: Result<(), PlatformError>) -> (result:
    Result<(), RequestError>)
    ensures
        result == shell_removal_result(pending.site(), answer),
{
    match answer {
        Ok(_) => Ok(()),
        Err(cause) => Err(RequestError::PartialDeleteError { path: pending.path, cause }),
    }
}

/// Decides how a deletion ends from both answers at once, for a caller that
/// has them. The second answer is looked at only where the first is a success.
pub fn delete_junction(
    path: NativePath,
    reparse: Result<(), PlatformError>,
    shell: Result<(), PlatformError>,
) -> (result: Result<(), RequestError>)
    ensures
        result == delete_result(path, reparse, shell),
{
    match after_reparse_removal(path, reparse) {
        Ok(pending) => after_shell_removal(pending, shell),
        Err(error) => Err(error),
    }
}

/// A deletion succeeds only if the reparse point and the directory are both
/// gone; each failure has its own error, which names the path and the cause.
pub proof fn delete_succeeds_only_when_complete(
    path: NativePath,
    reparse: Result<(), PlatformError>,
    shell: Result<(), PlatformError>,
)
    ensures
        delete_result(path, reparse, shell) is Ok <==> reparse is Ok && shell is Ok,
        reparse is Err ==> delete_result(path, reparse, shell) == Err::<(), RequestError>(
            RequestError::OperationError {
                kind: OperationKind::Delete,
                path,
                cause: reparse->Err_0,
            },
        ),
        reparse is Ok && shell is Err ==> delete_result(path, reparse, shell) == Err::<
            (),
            RequestError,
        >(RequestError::PartialDeleteError { path, cause: shell->Err_0 }),
{
}

/// Deleting is not idempotent: each time the platform refuses to remove the
/// reparse point the deletion is an error, never a success, whatever
/// removing the directory would give.
pub proof fn repeated_delete_fails_each_time(
    path: NativePath,
    first: PlatformError,
    second: PlatformError,
    shell_first: Result<(), PlatformError>,
    shell_second: Result<(), PlatformError>,
)
    ensures
        delete_result(path, Err(first), shell_first) is Err,
        delete_result(path, Err(second), shell_second) is Err,
{
}

/// A creation succeeds exactly when the platform created the junction.
pub proof fn create_succeeds_only_when_created(source: NativePath, answer: Result<(), PlatformError>)
    ensures
        create_result(source, answer) is Ok <==> answer is Ok,
        answer is Err ==> create_result(source, answer) == Err::<(), RequestError>(
            RequestError::OperationError {
                kind: OperationKind::Create,
                path: source,
                cause: answer->Err_0,
            },
        ),
{
}

} // verus!
