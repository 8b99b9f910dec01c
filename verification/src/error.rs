//! Errors of the platform, and the errors a request can end in.

use vstd::prelude::*;
use crate::path::{lossy_text, NativePath};
use crate::text::{
    create_arity_text, create_failed_text, decimal, delete_arity_text, join4,
    junction_test_text, list_arity_text, not_a_junction_text, remove_failed_text,
    shell_left_text, stray_flags_text, target_lookup_text,
};

verus! {

/// The platform's code for "the file or directory is not a reparse point".
pub const NOT_A_REPARSE_POINT_CODE: i32 = 4390;

/// The platform's code that the junction query gives when the path has no
/// reparse attribute to open.
pub const NO_SUCH_ATTRIBUTE_CODE: i32 = 32;

/// The closed set of meanings that a platform error code can have here.
#[derive(Clone, Copy, Debug, PartialEq, Eq, Structural)]
pub enum ErrorCategory {
    /// The path is there but carries no reparse point.
    NotAReparsePoint,
    /// The path, or the attribute asked for, is not there.
    NoSuchAttribute,
    /// Anything else: permission denied, path too long, and so on.
    Other,
}

/// The category of a raw platform error code.
pub open spec fn category_of(code: Option<i32>) -> ErrorCategory {
    if code == Some(NOT_A_REPARSE_POINT_CODE) {
        ErrorCategory::NotAReparsePoint
    } else if code == Some(NO_SUCH_ATTRIBUTE_CODE) {
        ErrorCategory::NoSuchAttribute
    } else {
        ErrorCategory::Other
    }
}

/// A failure reported by a platform operation: its raw code, if it has one,
/// and its description.
#[derive(Clone, Debug, PartialEq, Eq)]
pub struct PlatformError {
    pub code: Option<i32>,
    pub message: String,
}

impl PlatformError {
    /// An error with the given code and description.
    pub fn new(code: Option<i32>, message: String) -> (error: PlatformError)
        ensures
            error.code == code,
            error.message == message,
    {
        PlatformError { code, message }
    }

    /// What the error's code means.
    pub fn category(&self) -> (category: ErrorCategory)
        ensures
            category == category_of(self.code),
    {
        match self.code {
            Some(code) => {
                if code == NOT_A_REPARSE_POINT_CODE {
                    ErrorCategory::NotAReparsePoint
                } else if code == NO_SUCH_ATTRIBUTE_CODE {
                    ErrorCategory::NoSuchAttribute
                } else {
                    ErrorCategory::Other
                }
            },
            None => ErrorCategory::Other,
        }
    }

    /// Whether the error says for certain that the path is no junction.
    pub open spec fn denies_junction(&self) -> bool {
        category_of(self.code) != ErrorCategory::Other
    }
}

/// The query that an access failure happened in.
#[derive(Clone, Copy, Debug, PartialEq, Eq, Structural)]
pub enum AccessStage {
    /// Asking whether the path is a junction failed: nothing is known of it.
    JunctionTest,
    /// The path is a junction, but its target could not be read.
    TargetLookup,
}

/// Why no definitive answer could be given for a path.
#[derive(Clone, Debug, PartialEq, Eq)]
pub struct AccessFailure {
    pub stage: AccessStage,
    pub cause: PlatformError,
}

impl AccessFailure {
    /// The diagnostic for this failure at `path`, given the path as text.
    pub open spec fn diagnostic_text(&self, path: Seq<char>) -> Seq<char> {
        match self.stage {
            AccessStage::JunctionTest => junction_test_text(path, self.cause.message@),
            AccessStage::TargetLookup => target_lookup_text(path, self.cause.message@),
        }
    }

    /// The diagnostic line for this failure at `path`.
    pub fn diagnostic(&self, path: &NativePath) -> (line: String)
        ensures
            line@ == self.diagnostic_text(lossy_text(path@)),
    {
        let shown = path.display();
        match self.stage {
            AccessStage::JunctionTest => join4(
                "Could not access path `",
                shown.as_str(),
                "` to check if junction: ",
                self.cause.message.as_str(),
            ),
            AccessStage::TargetLookup => join4(
                "cannot access `",
                shown.as_str(),
                "`: ",
                self.cause.message.as_str(),
            ),
        }
    }
}

/// The platform operation that a request failed in.
#[derive(Clone, Copy, Debug, PartialEq, Eq, Structural)]
pub enum OperationKind {
    Create,
    Delete,
}

/// A combination of arguments that names no request.
#[derive(Clone, Copy, Debug, PartialEq, Eq, Structural)]
pub enum UsageError {
    /// Deletion takes one path; this many were given.
    DeleteArity(usize),
    /// Listing takes one path; this many were given.
    ListArity(usize),
    /// Creation takes two paths; this many were given.
    CreateArity(usize),
    /// The listing flags were given together with two paths.
    StrayListFlags,
}

impl UsageError {
    /// The wording of the error.
    pub open spec fn message_text(&self) -> Seq<char> {
        match *self {
            UsageError::DeleteArity(count) => delete_arity_text(count as nat),
            UsageError::ListArity(count) => list_arity_text(count as nat),
            UsageError::CreateArity(count) => create_arity_text(count as nat),
            UsageError::StrayListFlags => stray_flags_text(),
        }
    }

    /// The line that describes the error.
    pub fn message(&self) -> (line: String)
        ensures
            line@ == self.message_text(),
    {
        match *self {
            UsageError::DeleteArity(count) => String::from_str(
                "expected exactly 1 path to junction to delete, got ",
            ).concat(decimal(count).as_str()),
            UsageError::ListArity(count) => String::from_str(
                "expected exactly 1 path to display junction information, got ",
            ).concat(decimal(count).as_str()),
            UsageError::CreateArity(count) => String::from_str(
                "expected exactly 2 paths to create junction, got ",
            ).concat(decimal(count).as_str()),
            UsageError::StrayListFlags => String::from_str(
                "q and s are for a different subcommand",
            ),
        }
    }
}

/// How a request can fail. Each value describes one fatal condition: the
/// path it concerns and the underlying cause.
#[derive(Clone, Debug, PartialEq, Eq)]
pub enum RequestError {
    /// The single path asked about is definitely no junction.
    NotAJunction { path: NativePath },
    /// The single path asked about could not be examined.
    AccessError { path: NativePath, failure: AccessFailure },
    /// The platform refused to create the junction, or to remove its reparse
    /// point; the filesystem is as it was.
    OperationError { kind: OperationKind, path: NativePath, cause: PlatformError },
    /// The reparse point is gone, but the directory that carried it is not.
    PartialDeleteError { path: NativePath, cause: PlatformError },
    /// The arguments name no request; the filesystem was not touched.
    UsageError(UsageError),
}

impl RequestError {
    /// The wording of the error.
    pub open spec fn message_text(&self) -> Seq<char> {
        match *self {
            RequestError::NotAJunction { path } => not_a_junction_text(lossy_text(path@)),
            RequestError::AccessError { path, failure } => failure.diagnostic_text(
                lossy_text(path@),
            ),
            RequestError::OperationError { kind, path, cause } => match kind {
                OperationKind::Create => create_failed_text(lossy_text(path@), cause.message@),
                OperationKind::Delete => remove_failed_text(lossy_text(path@), cause.message@),
            },
            RequestError::PartialDeleteError { path, cause } => shell_left_text(
                lossy_text(path@),
                cause.message@,
            ),
            RequestError::UsageError(usage) => usage.message_text(),
        }
    }

    /// The one line that describes the error to the user.
    pub fn message(&self) -> (line: String)
        ensures
            line@ == self.message_text(),
    {
        match self {
            RequestError::NotAJunction { path } => String::from_str("path `").concat(
                path.display().as_str(),
            ).concat("` is not a junction"),
            RequestError::AccessError { path, failure } => failure.diagnostic(path),
            RequestError::OperationError { kind, path, cause } => match kind {
                OperationKind::Create => join4(
                    "failed to create junction `",
                    path.display().as_str(),
                    "`: ",
                    cause.message.as_str(),
                ),
                OperationKind::Delete => join4(
                    "failed to remove junction `",
                    path.display().as_str(),
                    "`: ",
                    cause.message.as_str(),
                ),
            },
            RequestError::PartialDeleteError { path, cause } => join4(
                "failed to delete empty directory `",
                path.display().as_str(),
                "` after removing junction: ",
                cause.message.as_str(),
            ),
            RequestError::UsageError(usage) => usage.message(),
        }
    }
}

} // verus!
