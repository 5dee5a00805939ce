//! The one error type of the library, and the failures that the
//! version-control engine reports.

use vstd::prelude::*;
use vstd::std_specs::convert::FromSpecImpl;
use vstd::string::*;
use crate::engine::{engine_conflict, engine_message, error_is_conflict, error_message};

verus! {

/// What went wrong.
#[derive(Clone, Copy, Debug, PartialEq, Eq, Structural)]
pub enum ErrorKind {
    /// The path could not be resolved to a canonical one.
    InvalidPath,
    /// The path is resolved, and no repository is found there.
    NotARepository,
    /// The name of a branch could not be read.
    InvalidBranchName,
    /// Neither a local nor a remote-tracking branch has the requested name.
    BranchNotFound,
    /// The safe checkout refused to overwrite local modifications.
    CheckoutConflict,
    /// Any other failure of a ref, commit or branch operation.
    RefOperationFailed,
}

/// An error of this library: its kind, and a message for the user.
#[derive(Debug)]
pub struct GitError {
    pub kind: ErrorKind,
    pub message: String,
}

/// A `GitError` as contracts see it.
pub ghost struct GitErrorView {
    pub kind: ErrorKind,
    pub message: Seq<char>,
}

impl View for GitError {
    type V = GitErrorView;

    open spec fn view(&self) -> GitErrorView {
        GitErrorView { kind: self.kind, message: self.message@ }
    }
}

/// A failure of one engine operation, as far as the library reads it.
#[derive(Debug)]
pub struct EngineFailure {
    /// Whether the engine reported a conflict with local modifications.
    pub conflict: bool,
    /// The engine's own message.
    pub message: String,
}

/// An `EngineFailure` as contracts see it.
pub ghost struct EngineFailureView {
    pub conflict: bool,
    pub message: Seq<char>,
}

impl View for EngineFailure {
    type V = EngineFailureView;

    open spec fn view(&self) -> EngineFailureView {
        EngineFailureView { conflict: self.conflict, message: self.message@ }
    }
}

/// What the library reads of `error`: whether it reports a conflict, and its
/// message.
pub open spec fn engine_failure(error: git2::Error) -> EngineFailureView {
    EngineFailureView { conflict: engine_conflict(error), message: engine_message(error) }
}

impl EngineFailure {
    /// What the library reads of `error`: whether it reports a conflict, and
    /// its message.
    pub(crate) fn of(error: &git2::Error) -> (failure: EngineFailure)
        ensures
            failure@ == engine_failure(*error),
    {
        EngineFailure { conflict: error_is_conflict(error), message: error_message(error) }
    }
}

/// The message for a path that cannot be resolved.
pub open spec fn invalid_path_message(detail: Seq<char>) -> Seq<char> {
    "路径无效: "@ + detail
}

/// The message for a path that holds no repository.
pub open spec fn not_a_repository_message(detail: Seq<char>) -> Seq<char> {
    "不是有效的 Git 仓库: "@ + detail
}

/// The message for a branch name that matches no branch.
pub open spec fn branch_not_found_message(name: Seq<char>) -> Seq<char> {
    "分支不存在: "@ + name
}

/// The error that a failed tree checkout becomes: a conflict where the
/// engine reported one, a failed operation otherwise.
pub open spec fn checkout_error(failure: EngineFailureView) -> GitErrorView {
    GitErrorView {
        kind: if failure.conflict {
            ErrorKind::CheckoutConflict
        } else {
            ErrorKind::RefOperationFailed
        },
        message: failure.message,
    }
}

/// The error that a failed ref, commit or branch operation becomes.
pub open spec fn operation_error(failure: EngineFailureView) -> GitErrorView {
    GitErrorView { kind: ErrorKind::RefOperationFailed, message: failure.message }
}

impl GitError {
    /// The path `detail` speaks of cannot be resolved.
    pub fn invalid_path(detail: &str) -> (error: GitError)
        ensures
            error@ == (GitErrorView {
                kind: ErrorKind::InvalidPath,
                message: invalid_path_message(detail@),
            }),
    {
        GitError {
            kind: ErrorKind::InvalidPath,
            message: "路径无效: ".to_owned().concat(detail),
        }
    }

    /// No repository is found; `detail` is the engine's message.
    pub fn not_a_repository(detail: &str) -> (error: GitError)
        ensures
            error@ == (GitErrorView {
                kind: ErrorKind::NotARepository,
                message: not_a_repository_message(detail@),
            }),
    {
        GitError {
            kind: ErrorKind::NotARepository,
            message: "不是有效的 Git 仓库: ".to_owned().concat(detail),
        }
    }

    /// No branch is named `name`.
    pub fn branch_not_found(name: &str) -> (error: GitError)
        ensures
            error@ == (GitErrorView {
                kind: ErrorKind::BranchNotFound,
                message: branch_not_found_message(name@),
            }),
    {
        GitError {
            kind: ErrorKind::BranchNotFound,
            message: "分支不存在: ".to_owned().concat(name),
        }
    }

    /// The name of a branch could not be read; the message is the engine's.
    pub fn invalid_branch_name(failure: EngineFailure) -> (error: GitError)
        ensures
            error@ == (GitErrorView {
                kind: ErrorKind::InvalidBranchName,
                message: failure@.message,
            }),
    {
        GitError { kind: ErrorKind::InvalidBranchName, message: failure.message }
    }

    /// A tree checkout failed.
    pub fn from_checkout(failure: EngineFailure) -> (error: GitError)
        ensures
            error@ == checkout_error(failure@),
    {
        let kind = if failure.conflict {
            ErrorKind::CheckoutConflict
        } else {
            ErrorKind::RefOperationFailed
        };
        GitError { kind, message: failure.message }
    }

    /// A ref, commit or branch operation failed.
    pub fn from_operation(failure: EngineFailure) -> (error: GitError)
        ensures
            error@ == operation_error(failure@),
    {
        GitError { kind: ErrorKind::RefOperationFailed, message: failure.message }
    }
}

impl From<git2::Error> for GitError {
    /// A failure of the engine, taken for a failed operation: the message
    /// is the engine's.
    fn from(error: git2::Error) -> (converted: GitError)
        ensures
            converted@ == operation_error(engine_failure(error)),
            converted.kind == ErrorKind::RefOperationFailed,
            converted.message@ == engine_message(error),
    {
        GitError::from_operation(EngineFailure::of(&error))
    }
}

impl FromSpecImpl<git2::Error> for GitError {
    /// The result is stated by its view, in the contract of `from`: no
    /// spec function builds a `GitError`.
    open spec fn obeys_from_spec() -> bool {
        false
    }

    open spec fn from_spec(error: git2::Error) -> GitError {
        arbitrary()
    }
}

} // verus!
