//! The branch operations on a repository on disk: listing the branches of a
//! kind, and checking a branch out.
//!
//! Each operation opens the repository anew, asks the engine, and leaves the
//! decisions to `listing` and `checkout`.

use vstd::prelude::*;
use vstd::string::*;
use crate::checkout::{
    answers, initial, initial_local, not_found, requests_left, CheckoutState, CheckoutStateView,
    EngineReply, EngineReplyView, EngineRequest,
};
use crate::checkout_laws::{
    can_end_with, law_outcome, lemma_run_settled, lemma_step_progress, outcome_view, run,
};
use crate::engine::{
    branch_name, branches, checkout_tree_safe, create_branch, find_branch, find_reference,
    next_branch, peel_to_commit, set_head,
};
use crate::error::{engine_failure, EngineFailure, ErrorKind, GitError};
use crate::listing::{
    ascending, entry_error, lemma_first_error_kind, select_names, BranchEntry,
};
use crate::names::{is_remote_head, local_branch_name, BranchKind};
use crate::repository::{get_repo, is_open_error};

verus! {

/// Walks over the branches of `kind` and reads the name of each: one entry
/// for each branch, in the order of the walk. The walk ends at the first
/// entry that stands for a failure, so only the last entry can be one. A
/// vector holds `usize::MAX` entries at most, and the walk ends there at the
/// latest.
fn read_entries(repo: &git2::Repository, kind: BranchKind) -> (entries: Result<
    Vec<BranchEntry>,
    GitError,
>)
    ensures
        match entries {
            Ok(read) => forall|i: int|
                0 <= i < read.len() - 1 ==> entry_error(#[trigger] read.deep_view()[i]) is None,
            Err(error) => error.kind == ErrorKind::RefOperationFailed,
        },
{
    let mut walk = match branches(repo, kind) {
        Ok(walk) => walk,
        Err(failure) => {
            return Err(GitError::from(failure));
        },
    };
    let mut entries: Vec<BranchEntry> = Vec::new();
    while entries.len() < usize::MAX
        invariant
            forall|i: int|
                0 <= i < entries.len() ==> entry_error(#[trigger] entries.deep_view()[i]) is None,
        decreases usize::MAX - entries.len(),
    {
        let entry = match next_branch(&mut walk) {
            Some(Ok(branch)) => BranchEntry::read(branch_name(&branch)),
            Some(Err(failure)) => BranchEntry::failed(failure),
            None => {
                return Ok(entries);
            },
        };
        let last = entry.is_failure();
        let ghost before = entries.deep_view();
        entries.push(entry);
        assert(entries.deep_view() =~= before.push(entry.deep_view()));
        if last {
            return Ok(entries);
        }
    }
    Ok(entries)
}

/// Lists the branches of `kind` of the repository at `repo_path`.
fn list_branches(repo_path: &str, kind: BranchKind) -> (listing: Result<Vec<String>, GitError>)
    ensures
        match listing {
            Ok(names) => {
                &&& ascending(names.deep_view())
                &&& kind == BranchKind::Remote ==> forall|i: int|
                    0 <= i < names.len() ==> !is_remote_head(#[trigger] names.deep_view()[i])
            },
            Err(error) => is_open_error(error@) || error.kind == ErrorKind::RefOperationFailed
                || error.kind == ErrorKind::InvalidBranchName,
        },
{
    let repo = match get_repo(repo_path) {
        Ok(repo) => repo,
        Err(error) => {
            return Err(error);
        },
    };
    let entries = match read_entries(&repo, kind) {
        Ok(entries) => entries,
        Err(error) => {
            return Err(error);
        },
    };
    let ghost told = entries.deep_view();
    let listing = select_names(entries, kind);
    proof {
        lemma_first_error_kind(told);
    }
    listing
}

/// The short names of the local branches of the repository at `repo_path`,
/// such as `main` and `develop`, in ascending order.
///
/// A repository without local branches gives an empty listing. The call fails
/// where the repository cannot be opened, where the engine fails to
/// enumerate, and where it fails to read a name.
pub fn git_local_branches(repo_path: &str) -> (listing: Result<Vec<String>, GitError>)
    ensures
        match listing {
            Ok(names) => ascending(names.deep_view()),
            Err(error) => is_open_error(error@) || error.kind == ErrorKind::RefOperationFailed
                || error.kind == ErrorKind::InvalidBranchName,
        },
{
    list_branches(repo_path, BranchKind::Local)
}

/// The short names of the remote-tracking branches of the repository at
/// `repo_path`, such as `origin/main`, in ascending order, without the
/// remotes' `HEAD` pointers, such as `origin/HEAD`.
///
/// It fails as `git_local_branches` does.
pub fn git_remote_branches(repo_path: &str) -> (listing: Result<Vec<String>, GitError>)
    ensures
        match listing {
            Ok(names) => {
                &&& ascending(names.deep_view())
                &&& forall|i: int|
                    0 <= i < names.len() ==> !is_remote_head(#[trigger] names.deep_view()[i])
            },
            Err(error) => is_open_error(error@) || error.kind == ErrorKind::RefOperationFailed
                || error.kind == ErrorKind::InvalidBranchName,
        },
{
    list_branches(repo_path, BranchKind::Remote)
}

/// Looks the ref `refname` up and peels it to its commit.
fn resolve_commit<'repo>(repo: &'repo git2::Repository, refname: &str) -> (resolved: Result<
    git2::Commit<'repo>,
    EngineFailure,
>) {
    let reference = match find_reference(repo, refname) {
        Ok(reference) => reference,
        Err(failure) => {
            return Err(EngineFailure::of(&failure));
        },
    };
    match peel_to_commit(&reference) {
        Ok(commit) => Ok(commit),
        Err(failure) => Err(EngineFailure::of(&failure)),
    }
}

/// What the library reads of how an operation ended.
fn completed(done: Result<(), git2::Error>) -> (read: Result<(), EngineFailure>)
    ensures
        match done {
            Ok(_) => read is Ok,
            Err(error) => read matches Err(failure) && failure@ == engine_failure(error),
        },
{
    match done {
        Ok(_) => Ok(()),
        Err(failure) => Err(EngineFailure::of(&failure)),
    }
}

/// Hands `request` to the engine and returns its reply.
fn perform<'repo>(
    repo: &'repo git2::Repository,
    request: EngineRequest<'_, git2::Commit<'repo>>,
) -> (reply: EngineReply<git2::Commit<'repo>>)
    ensures
        answers(reply@, request@),
{
    match request {
        EngineRequest::FindBranch { name, kind } => EngineReply::Found(
            find_branch(repo, name, kind),
        ),
        EngineRequest::ResolveCommit { refname } => EngineReply::Commit(
            resolve_commit(repo, refname.as_str()),
        ),
        EngineRequest::CreateBranch { name, target, force } => EngineReply::Completed(
            completed(create_branch(repo, name, target, force)),
        ),
        EngineRequest::CheckoutTree { target } => EngineReply::Completed(
            completed(checkout_tree_safe(repo, target)),
        ),
        EngineRequest::SetHead { refname } => EngineReply::Completed(
            completed(set_head(repo, refname.as_str())),
        ),
    }
}

/// Runs a checkout from `start` to its end: hands each pending request to
/// the engine and its reply to the machine. The outcome is that of a run of
/// the machine over the replies that the engine gave.
fn drive<'repo>(
    repo: &'repo git2::Repository,
    start: CheckoutState<git2::Commit<'repo>>,
) -> (outcome: Result<String, GitError>)
    ensures
        can_end_with(start@, outcome_view(outcome)),
{
    let ghost mut replies: Seq<EngineReplyView<git2::Commit<'repo>>> = Seq::empty();
    let mut state = start;
    loop
        invariant
            state@ == run(start@, replies),
        decreases requests_left(state@),
    {
        let reply = match state.request() {
            Some(request) => perform(repo, request),
            None => {
                return state.into_outcome().unwrap();
            },
        };
        proof {
            lemma_step_progress(state@, reply@);
            assert(replies.push(reply@).drop_last() =~= replies);
            replies = replies.push(reply@);
        }
        state = state.advance(reply);
    }
}

/// Checks the local branch `branch_name` of `repo` out: resolves
/// `refs/heads/<branch_name>` to its commit, brings index and working tree to
/// that commit's tree without overwriting local modifications, and then points
/// `HEAD` at the branch.
///
/// `HEAD` is moved only after the tree is checked out. A failed tree checkout
/// gives `CheckoutConflict` where the engine reported a conflict; every other
/// failure gives `RefOperationFailed`.
pub fn checkout_local_branch(repo: &git2::Repository, branch_name: &str) -> (done: Result<
    (),
    GitError,
>)
    ensures
        done matches Err(error) ==> error.kind == ErrorKind::CheckoutConflict || error.kind
            == ErrorKind::RefOperationFailed,
{
    let outcome = drive(repo, CheckoutState::begin_local(branch_name));
    proof {
        let replies = choose|replies: Seq<EngineReplyView<git2::Commit<'_>>>|
            #[trigger] run(initial_local(branch_name@), replies) == (CheckoutStateView::<
                git2::Commit<'_>,
            >::Finished { outcome: outcome_view(outcome) });
        lemma_run_settled(initial_local(branch_name@), replies, branch_name@);
    }
    match outcome {
        Ok(_) => Ok(()),
        Err(error) => Err(error),
    }
}

/// Checks the branch `branch_name` of the repository at `repo_path` out and
/// returns the name of the local branch that `HEAD` is on afterwards.
///
/// A local branch of that name is checked out as it is, and its name
/// returned. Otherwise a remote-tracking branch of that name, such as
/// `origin/feature`, is checked out through the local branch behind it,
/// `feature`, which is created at the remote-tracking branch's commit unless
/// it exists already; the local name is returned. Where neither exists the
/// call fails with `BranchNotFound`, and with a message that names
/// `branch_name`.
pub fn git_checkout_branch(repo_path: &str, branch_name: &str) -> (checked_out: Result<
    String,
    GitError,
>)
    ensures
        match checked_out {
            Ok(name) => name@ == branch_name@ || name@ == local_branch_name(branch_name@),
            Err(error) => {
                ||| is_open_error(error@)
                ||| error@ == not_found(branch_name@)
                ||| error.kind == ErrorKind::CheckoutConflict
                ||| error.kind == ErrorKind::RefOperationFailed
            },
        },
{
    let repo = match get_repo(repo_path) {
        Ok(repo) => repo,
        Err(error) => {
            return Err(error);
        },
    };
    let outcome = drive(&repo, CheckoutState::begin(branch_name));
    proof {
        let replies = choose|replies: Seq<EngineReplyView<git2::Commit<'_>>>|
            #[trigger] run(initial(branch_name@), replies) == (CheckoutStateView::<
                git2::Commit<'_>,
            >::Finished { outcome: outcome_view(outcome) });
        law_outcome(branch_name@, replies);
    }
    outcome
}

} // verus!
