//! The version-control engine: the calls into `git2` and the file system.
//!
//! Each item here is a declaration that the verifier takes on trust. What an
//! operation on a repository answers depends on the repository on disk, so
//! none of them promises anything of its result: the verified code that calls
//! them is proved for every answer. What is read from an error depends on the
//! error alone, and has a name.

use vstd::prelude::*;
use crate::names::BranchKind;

verus! {

/// `git2::Repository`: a handle to a repository on disk.
#[verifier::external_type_specification]
#[verifier::external_body]
pub struct ExRepository(git2::Repository);

/// `git2::Reference`: a ref of a repository.
#[verifier::external_type_specification]
#[verifier::external_body]
pub struct ExReference<'repo>(git2::Reference<'repo>);

/// `git2::Branch`: a branch of a repository.
#[verifier::external_type_specification]
#[verifier::external_body]
pub struct ExBranch<'repo>(git2::Branch<'repo>);

/// `git2::BranchType`: the kind of a branch, which the walk hands out with
/// each branch.
#[verifier::external_type_specification]
#[verifier::external_body]
pub struct ExBranchType(git2::BranchType);

/// `git2::Branches`: a walk over the branches of a repository.
#[verifier::external_type_specification]
#[verifier::external_body]
pub struct ExBranches<'repo>(git2::Branches<'repo>);

/// `git2::Commit`: a commit of a repository.
#[verifier::external_type_specification]
#[verifier::external_body]
pub struct ExCommit<'repo>(git2::Commit<'repo>);

/// `git2::Error`: what a failed engine operation reports.
#[verifier::external_type_specification]
#[verifier::external_body]
pub struct ExEngineError(git2::Error);

/// `std::path::PathBuf`: a path of the file system.
#[verifier::external_type_specification]
#[verifier::external_body]
pub struct ExPathBuf(std::path::PathBuf);

/// `std::io::Error`: what a failed file-system operation reports.
#[verifier::external_type_specification]
#[verifier::external_body]
pub struct ExIoError(std::io::Error);

/// Calls `std::path::Path::canonicalize` on `path`: the absolute path with
/// symbolic links resolved, or the failure to reach it.
#[verifier::external_body]
pub(crate) fn canonicalize(path: &str) -> (canonical: Result<std::path::PathBuf, std::io::Error>) {
    std::path::Path::new(path).canonicalize()
}

/// The text of `path`, by `std::path::Path::to_string_lossy`.
#[verifier::external_body]
pub(crate) fn path_text(path: &std::path::PathBuf) -> (text: String) {
    path.to_string_lossy().into_owned()
}

/// The text of `error`, as its `Display` writes it.
#[verifier::external_body]
pub(crate) fn io_error_text(error: &std::io::Error) -> (text: String) {
    format!("{}", error)
}

/// The message that `error` holds: what `git2::Error::message` returns. An
/// error is a value that holds its code, its class and its message, so the
/// message depends on the error alone.
pub uninterp spec fn engine_message(error: git2::Error) -> Seq<char>;

/// Whether `error` holds the code `Conflict`, the code with which a checkout
/// refuses to overwrite local modifications: whether `git2::Error::code`
/// returns `git2::ErrorCode::Conflict`.
pub uninterp spec fn engine_conflict(error: git2::Error) -> bool;

/// Calls `git2::Error::message`, which returns the message that the error
/// holds.
#[verifier::external_body]
pub(crate) fn error_message(error: &git2::Error) -> (message: String)
    ensures
        message@ == engine_message(*error),
{
    error.message().to_string()
}

/// Calls `git2::Error::code` and tells whether it is `Conflict`. The code
/// is read from the error and from nothing else.
#[verifier::external_body]
pub(crate) fn error_is_conflict(error: &git2::Error) -> (conflict: bool)
    ensures
        conflict == engine_conflict(*error),
{
    error.code() == git2::ErrorCode::Conflict
}

/// Calls `git2::Repository::open` on `path`.
#[verifier::external_body]
pub(crate) fn open_repository(path: &std::path::PathBuf) -> (opened: Result<
    git2::Repository,
    git2::Error,
>) {
    git2::Repository::open(path)
}

/// Calls `git2::Repository::is_bare`.
#[verifier::external_body]
pub(crate) fn is_bare(repo: &git2::Repository) -> (bare: bool) {
    repo.is_bare()
}

/// Calls `git2::Repository::head`: the ref that `HEAD` resolves to. It fails
/// where `HEAD` points at a branch without commits.
#[verifier::external_body]
pub(crate) fn head<'repo>(repo: &'repo git2::Repository) -> (resolved: Result<
    git2::Reference<'repo>,
    git2::Error,
>) {
    repo.head()
}

/// Calls `git2::Reference::is_branch`: whether the ref is a local branch.
#[verifier::external_body]
pub(crate) fn reference_is_branch(reference: &git2::Reference<'_>) -> (branch: bool) {
    reference.is_branch()
}

/// Calls `git2::Reference::shorthand`: the short name of the ref, or `None`
/// where it is not valid UTF-8.
#[verifier::external_body]
pub(crate) fn reference_shorthand(reference: &git2::Reference<'_>) -> (shorthand: Option<String>) {
    reference.shorthand().map(String::from)
}

/// Calls `git2::Repository::branches`: begins a walk over the branches of
/// `kind`.
#[verifier::external_body]
pub(crate) fn branches<'repo>(
    repo: &'repo git2::Repository,
    kind: BranchKind,
) -> (walk: Result<git2::Branches<'repo>, git2::Error>) {
    let filter = match kind {
        BranchKind::Local => git2::BranchType::Local,
        BranchKind::Remote => git2::BranchType::Remote,
    };
    repo.branches(Some(filter))
}

/// Calls `Iterator::next` of `git2::Branches`: the next branch of the walk,
/// or the failure to hand it out; `None` at the end of the walk.
#[verifier::external_body]
pub(crate) fn next_branch<'repo>(walk: &mut git2::Branches<'repo>) -> (next: Option<
    Result<git2::Branch<'repo>, git2::Error>,
>) {
    walk.next().map(|item| item.map(|(branch, _)| branch))
}

/// Calls `git2::Branch::name`: the short name of the branch, `None` where it
/// is not valid UTF-8, or the failure to read it.
#[verifier::external_body]
pub(crate) fn branch_name(branch: &git2::Branch<'_>) -> (name: Result<
    Option<String>,
    git2::Error,
>) {
    branch.name().map(|name| name.map(String::from))
}

/// Calls `git2::Repository::find_branch` and tells whether it found the
/// branch. Any failure of the lookup counts as not found.
#[verifier::external_body]
pub(crate) fn find_branch(repo: &git2::Repository, name: &str, kind: BranchKind) -> (found: bool) {
    let filter = match kind {
        BranchKind::Local => git2::BranchType::Local,
        BranchKind::Remote => git2::BranchType::Remote,
    };
    repo.find_branch(name, filter).is_ok()
}

/// Calls `git2::Repository::find_reference` with the full name of a ref.
#[verifier::external_body]
pub(crate) fn find_reference<'repo>(
    repo: &'repo git2::Repository,
    refname: &str,
) -> (found: Result<git2::Reference<'repo>, git2::Error>) {
    repo.find_reference(refname)
}

/// Calls `git2::Reference::peel_to_commit`: the commit that the ref leads to.
#[verifier::external_body]
pub(crate) fn peel_to_commit<'repo>(reference: &git2::Reference<'repo>) -> (commit: Result<
    git2::Commit<'repo>,
    git2::Error,
>) {
    reference.peel_to_commit()
}

/// Calls `git2::Repository::branch`: creates the local branch `name` at
/// `target`. Without `force` it fails where a ref stands at that name.
#[verifier::external_body]
pub(crate) fn create_branch(
    repo: &git2::Repository,
    name: &str,
    target: &git2::Commit<'_>,
    force: bool,
) -> (created: Result<(), git2::Error>) {
    repo.branch(name, target, force).map(|_| ())
}

/// Calls `git2::Repository::checkout_tree` on the tree of `target`, with a
/// `git2::build::CheckoutBuilder` in its `safe` mode: index and working tree
/// are brought to that tree, and the call fails rather than overwrite local
/// modifications.
#[verifier::external_body]
pub(crate) fn checkout_tree_safe(
    repo: &git2::Repository,
    target: &git2::Commit<'_>,
) -> (done: Result<(), git2::Error>) {
    let mut options = git2::build::CheckoutBuilder::new();
    options.safe();
    repo.checkout_tree(target.as_object(), Some(&mut options))
}

/// Calls `git2::Repository::set_head`: points `HEAD` at the ref `refname`.
#[verifier::external_body]
pub(crate) fn set_head(repo: &git2::Repository, refname: &str) -> (done: Result<(), git2::Error>) {
    repo.set_head(refname)
}

} // verus!
