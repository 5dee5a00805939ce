//! Opening a repository and describing it.

use vstd::prelude::*;
use vstd::string::*;
use crate::engine::{
    canonicalize, error_message, head, io_error_text, is_bare, open_repository, path_text,
    reference_is_branch, reference_shorthand,
};
use crate::error::{
    invalid_path_message, not_a_repository_message, ErrorKind, GitError, GitErrorView,
};
use crate::names::starts_with;

verus! {

/// What `open_repo` tells of a repository: a snapshot, taken once.
#[derive(Debug)]
pub struct RepoInfo {
    /// The canonical path of the repository.
    pub path: String,
    /// The short name of the branch that `HEAD` is on; `None` where `HEAD`
    /// is detached or its branch has no commit yet.
    pub current_branch: Option<String>,
    /// Whether the repository has no working tree.
    pub is_bare: bool,
}

/// A `RepoInfo` as contracts see it.
pub ghost struct RepoInfoView {
    pub path: Seq<char>,
    pub current_branch: Option<Seq<char>>,
    pub is_bare: bool,
}

impl View for RepoInfo {
    type V = RepoInfoView;

    open spec fn view(&self) -> RepoInfoView {
        RepoInfoView {
            path: self.path@,
            current_branch: self.current_branch.deep_view(),
            is_bare: self.is_bare,
        }
    }
}

/// What the library reads of the ref that `HEAD` resolves to.
#[derive(Debug)]
pub struct HeadInfo {
    /// Whether the ref is a local branch.
    pub is_branch: bool,
    /// The short name of the ref, where it is valid text.
    pub shorthand: Option<String>,
}

/// The branch that `HEAD` is on: the short name of the ref it resolves to
/// where that ref is a local branch; none where `HEAD` does not resolve, as
/// on a branch without commits, or resolves to no branch, as when detached.
pub open spec fn current_branch_of(head: Option<HeadInfo>) -> Option<Seq<char>> {
    match head {
        Some(info) => if info.is_branch {
            info.shorthand.deep_view()
        } else {
            None
        },
        None => None,
    }
}

/// Whether `error` is one with which opening a repository fails: the path
/// is invalid, or it holds no repository.
pub open spec fn is_open_error(error: GitErrorView) -> bool {
    ||| error.kind == ErrorKind::InvalidPath && starts_with(error.message, "路径无效: "@)
    ||| error.kind == ErrorKind::NotARepository && starts_with(
        error.message,
        "不是有效的 Git 仓库: "@,
    )
}

impl RepoInfo {
    /// Describes the repository at the canonical path `path`, of which `HEAD`
    /// resolves to `head`.
    pub fn describe(path: String, head: Option<HeadInfo>, is_bare: bool) -> (info: RepoInfo)
        ensures
            info@ == (RepoInfoView {
                path: path@,
                current_branch: current_branch_of(head),
                is_bare,
            }),
    {
        let current_branch = match head {
            Some(info) => if info.is_branch {
                info.shorthand
            } else {
                None
            },
            None => None,
        };
        RepoInfo { path, current_branch, is_bare }
    }
}

/// Resolves `repo_path` and opens the repository there.
fn open_at(repo_path: &str) -> (opened: Result<(std::path::PathBuf, git2::Repository), GitError>)
    ensures
        opened matches Err(error) ==> is_open_error(error@),
{
    let path = match canonicalize(repo_path) {
        Ok(path) => path,
        Err(failure) => {
            let detail = io_error_text(&failure);
            proof {
                let prefix = "路径无效: "@;
                assert(invalid_path_message(detail@).take(prefix.len() as int) =~= prefix);
            }
            return Err(GitError::invalid_path(detail.as_str()));
        },
    };
    match open_repository(&path) {
        Ok(repo) => Ok((path, repo)),
        Err(failure) => {
            let detail = error_message(&failure);
            proof {
                let prefix = "不是有效的 Git 仓库: "@;
                assert(not_a_repository_message(detail@).take(prefix.len() as int) =~= prefix);
            }
            Err(GitError::not_a_repository(detail.as_str()))
        },
    }
}

/// Reads what `HEAD` resolves to; `None` where it does not resolve.
fn read_head(repo: &git2::Repository) -> (info: Option<HeadInfo>) {
    match head(repo) {
        Ok(reference) => Some(
            HeadInfo {
                is_branch: reference_is_branch(&reference),
                shorthand: reference_shorthand(&reference),
            },
        ),
        Err(_) => None,
    }
}

/// Opens the repository at `repo_path` and returns the handle to it.
///
/// Fails with `InvalidPath` where the path cannot be resolved, and with
/// `NotARepository` where the resolved path holds no repository.
pub fn get_repo(repo_path: &str) -> (opened: Result<git2::Repository, GitError>)
    ensures
        opened matches Err(error) ==> is_open_error(error@),
{
    match open_at(repo_path) {
        Ok((_, repo)) => Ok(repo),
        Err(error) => Err(error),
    }
}

/// Opens the repository at `repo_path` and describes it: its canonical
/// path, the branch that `HEAD` is on, and whether it is bare.
///
/// Fails as `get_repo` does. Nothing is written.
pub fn open_repo(repo_path: &str) -> (opened: Result<RepoInfo, GitError>)
    ensures
        opened matches Err(error) ==> is_open_error(error@),
{
    match open_at(repo_path) {
        Ok((path, repo)) => {
            let head = read_head(&repo);
            Ok(RepoInfo::describe(path_text(&path), head, is_bare(&repo)))
        },
        Err(error) => Err(error),
    }
}

} // verus!
