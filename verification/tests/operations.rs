use free_junc::error::{OperationKind, PlatformError, RequestError};
use free_junc::operations::{
    after_reparse_removal, after_shell_removal, create_junction, delete_junction,
};
use free_junc::path::NativePath;

fn native(text: &str) -> NativePath {
    NativePath::new(text.encode_utf16().collect())
}

fn failure(code: Option<i32>, message: &str) -> PlatformError {
    PlatformError::new(code, message.to_string())
}

#[test]
fn create_succeeds_when_the_platform_does() {
    assert_eq!(create_junction(native("/r/b"), Ok(())), Ok(()));
}

#[test]
fn create_over_a_non_empty_directory_is_an_operation_error() {
    let cause = failure(Some(145), "The directory is not empty. (os error 145)");
    let result = create_junction(native("/r/b"), Err(cause.clone()));
    assert_eq!(
        result,
        Err(RequestError::OperationError {
            kind: OperationKind::Create,
            path: native("/r/b"),
            cause,
        })
    );
    assert_eq!(
        result.unwrap_err().message(),
        "failed to create junction `/r/b`: The directory is not empty. (os error 145)"
    );
}

#[test]
fn delete_succeeds_when_both_removals_do() {
    assert_eq!(delete_junction(native("/r/b"), Ok(()), Ok(())), Ok(()));
    let pending = after_reparse_removal(native("/r/b"), Ok(())).unwrap();
    assert_eq!(pending.path(), &native("/r/b"));
    assert_eq!(after_shell_removal(pending, Ok(())), Ok(()));
}

#[test]
fn failed_reparse_removal_leaves_the_directory_alone() {
    let cause = failure(Some(4390), "The file or directory is not a reparse point.");
    let step = after_reparse_removal(native("/r/a"), Err(cause.clone()));
    let error = step.unwrap_err();
    assert_eq!(
        error,
        RequestError::OperationError {
            kind: OperationKind::Delete,
            path: native("/r/a"),
            cause,
        }
    );
    assert_eq!(
        error.message(),
        "failed to remove junction `/r/a`: The file or directory is not a reparse point."
    );
}

#[test]
fn failed_reparse_removal_ignores_the_second_answer() {
    let cause = failure(Some(5), "Access is denied.");
    let expected = Err(RequestError::OperationError {
        kind: OperationKind::Delete,
        path: native("/r/b"),
        cause: cause.clone(),
    });
    assert_eq!(delete_junction(native("/r/b"), Err(cause.clone()), Ok(())), expected);
    assert_eq!(
        delete_junction(native("/r/b"), Err(cause), Err(failure(None, "other"))),
        expected
    );
}

#[test]
fn stray_directory_is_a_partial_delete() {
    let cause = failure(Some(145), "The directory is not empty.");
    let result = delete_junction(native("/r/b"), Ok(()), Err(cause.clone()));
    assert_eq!(result, Err(RequestError::PartialDeleteError { path: native("/r/b"), cause }));
    assert_eq!(
        result.unwrap_err().message(),
        "failed to delete empty directory `/r/b` after removing junction: The directory is not empty."
    );
}

#[test]
fn deleting_twice_fails_both_times() {
    let gone = failure(Some(2), "The system cannot find the file specified.");
    let first = delete_junction(native("/r/b"), Err(gone.clone()), Err(gone.clone()));
    let second = delete_junction(native("/r/b"), Err(gone.clone()), Err(gone.clone()));
    assert!(first.is_err());
    assert!(second.is_err());
    assert_eq!(first, second);
    assert_eq!(
        second,
        Err(RequestError::OperationError {
            kind: OperationKind::Delete,
            path: native("/r/b"),
            cause: gone,
        })
    );
}

#[test]
fn stray_directory_is_found_step_by_step() {
    let pending = after_reparse_removal(native("/r/b"), Ok(())).unwrap();
    let cause = failure(Some(145), "The directory is not empty.");
    assert_eq!(
        after_shell_removal(pending, Err(cause.clone())),
        Err(RequestError::PartialDeleteError { path: native("/r/b"), cause })
    );
}
