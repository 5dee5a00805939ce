//! Checking a branch out, as a state machine.
//!
//! The machine holds every decision of a checkout and performs none of its
//! operations. A state names the one request that is pending with the
//! version-control engine; the engine's reply leads to the next state. The
//! contracts are stated over `step` and `pending_request`, the mathematical
//! model of the machine; `checkout_laws` proves what holds of every run of it.
//!
//! `C` is the engine's handle to a commit. The machine only passes it on.

use vstd::prelude::*;
use vstd::string::*;
use crate::error::{
    branch_not_found_message, checkout_error, operation_error, EngineFailure, EngineFailureView,
    ErrorKind, GitError, GitErrorView,
};
use crate::names::{
    local_branch_name, local_name_of, local_ref, local_ref_name, remote_ref, remote_ref_name,
    BranchKind,
};

verus! {

/// What the machine asks of the engine.
#[derive(Debug)]
pub enum EngineRequest<'a, C> {
    /// Is there a branch of this kind with exactly this name?
    FindBranch { name: &'a str, kind: BranchKind },
    /// Look the ref up and peel it to the commit it points at.
    ResolveCommit { refname: String },
    /// Create the local branch `name` at `target`; with `force`, replace a
    /// ref that stands at that name.
    CreateBranch { name: &'a str, target: &'a C, force: bool },
    /// Bring index and working tree to the tree of `target`, refusing to
    /// overwrite local modifications.
    CheckoutTree { target: &'a C },
    /// Point `HEAD` at the ref.
    SetHead { refname: String },
}

/// An `EngineRequest` as contracts see it.
pub ghost enum EngineRequestView<C> {
    FindBranch { name: Seq<char>, kind: BranchKind },
    ResolveCommit { refname: Seq<char> },
    CreateBranch { name: Seq<char>, target: C, force: bool },
    CheckoutTree { target: C },
    SetHead { refname: Seq<char> },
}

impl<'a, C> View for EngineRequest<'a, C> {
    type V = EngineRequestView<C>;

    open spec fn view(&self) -> EngineRequestView<C> {
        match *self {
            EngineRequest::FindBranch { name, kind } => EngineRequestView::FindBranch {
                name: name@,
                kind,
            },
            EngineRequest::ResolveCommit { refname } => EngineRequestView::ResolveCommit {
                refname: refname@,
            },
            EngineRequest::CreateBranch { name, target, force } => EngineRequestView::CreateBranch {
                name: name@,
                target: *target,
                force,
            },
            EngineRequest::CheckoutTree { target } => EngineRequestView::CheckoutTree {
                target: *target,
            },
            EngineRequest::SetHead { refname } => EngineRequestView::SetHead { refname: refname@ },
        }
    }
}

/// What the engine answers.
#[derive(Debug)]
pub enum EngineReply<C> {
    /// The answer to `FindBranch`.
    Found(bool),
    /// The answer to `ResolveCommit`.
    Commit(Result<C, EngineFailure>),
    /// The answer to `CreateBranch`, `CheckoutTree` and `SetHead`.
    Completed(Result<(), EngineFailure>),
}

/// An `EngineReply` as contracts see it.
pub ghost enum EngineReplyView<C> {
    Found(bool),
    Commit(Result<C, EngineFailureView>),
    Completed(Result<(), EngineFailureView>),
}

impl<C> View for EngineReply<C> {
    type V = EngineReplyView<C>;

    open spec fn view(&self) -> EngineReplyView<C> {
        match *self {
            EngineReply::Found(found) => EngineReplyView::Found(found),
            EngineReply::Commit(Ok(commit)) => EngineReplyView::Commit(Ok(commit)),
            EngineReply::Commit(Err(failure)) => EngineReplyView::Commit(Err(failure@)),
            EngineReply::Completed(Ok(())) => EngineReplyView::Completed(Ok(())),
            EngineReply::Completed(Err(failure)) => EngineReplyView::Completed(Err(failure@)),
        }
    }
}

/// How far a checkout has come.
#[derive(Debug)]
pub enum CheckoutState<C> {
    /// Asking whether `requested` is a local branch.
    ProbingLocal { requested: String },
    /// Asking whether `requested` is a remote-tracking branch.
    ProbingRemote { requested: String },
    /// `requested` is a remote-tracking branch; asking whether the local
    /// branch behind it, `local`, exists already.
    ProbingCandidate { requested: String, local: String },
    /// Asking for the commit of the remote-tracking branch `requested`.
    ResolvingRemote { requested: String, local: String },
    /// Creating the local branch `local` at `target`.
    Creating { local: String, target: C },
    /// Asking for the commit of the local branch `local`.
    ResolvingLocal { local: String },
    /// Checking the tree of `target` out.
    CheckingOut { local: String, target: C },
    /// The tree is checked out; pointing `HEAD` at `local`.
    MovingHead { local: String },
    /// Nothing is left to do.
    Finished { outcome: Result<String, GitError> },
}

/// A `CheckoutState` as contracts see it.
pub ghost enum CheckoutStateView<C> {
    ProbingLocal { requested: Seq<char> },
    ProbingRemote { requested: Seq<char> },
    ProbingCandidate { requested: Seq<char>, local: Seq<char> },
    ResolvingRemote { requested: Seq<char>, local: Seq<char> },
    Creating { local: Seq<char>, target: C },
    ResolvingLocal { local: Seq<char> },
    CheckingOut { local: Seq<char>, target: C },
    MovingHead { local: Seq<char> },
    Finished { outcome: Result<Seq<char>, GitErrorView> },
}

impl<C> View for CheckoutState<C> {
    type V = CheckoutStateView<C>;

    open spec fn view(&self) -> CheckoutStateView<C> {
        match *self {
            CheckoutState::ProbingLocal { requested } => CheckoutStateView::ProbingLocal {
                requested: requested@,
            },
            CheckoutState::ProbingRemote { requested } => CheckoutStateView::ProbingRemote {
                requested: requested@,
            },
            CheckoutState::ProbingCandidate { requested, local } => {
                CheckoutStateView::ProbingCandidate { requested: requested@, local: local@ }
            },
            CheckoutState::ResolvingRemote { requested, local } => {
                CheckoutStateView::ResolvingRemote { requested: requested@, local: local@ }
            },
            CheckoutState::Creating { local, target } => CheckoutStateView::Creating {
                local: local@,
                target,
            },
            CheckoutState::ResolvingLocal { local } => CheckoutStateView::ResolvingLocal {
                local: local@,
            },
            CheckoutState::CheckingOut { local, target } => CheckoutStateView::CheckingOut {
                local: local@,
                target,
            },
            CheckoutState::MovingHead { local } => CheckoutStateView::MovingHead { local: local@ },
            CheckoutState::Finished { outcome: Ok(name) } => CheckoutStateView::Finished {
                outcome: Ok(name@),
            },
            CheckoutState::Finished { outcome: Err(error) } => CheckoutStateView::Finished {
                outcome: Err(error@),
            },
        }
    }
}

/// The state in which the checkout of `requested` begins.
pub open spec fn initial<C>(requested: Seq<char>) -> CheckoutStateView<C> {
    CheckoutStateView::ProbingLocal { requested }
}

/// The state in which the checkout of the local branch `local` begins.
pub open spec fn initial_local<C>(local: Seq<char>) -> CheckoutStateView<C> {
    CheckoutStateView::ResolvingLocal { local }
}

/// The error for a name that is neither a local nor a remote-tracking branch.
pub open spec fn not_found(requested: Seq<char>) -> GitErrorView {
    GitErrorView {
        kind: ErrorKind::BranchNotFound,
        message: branch_not_found_message(requested),
    }
}

/// The state of a checkout that has failed with `error`.
pub open spec fn failed<C>(error: GitErrorView) -> CheckoutStateView<C> {
    CheckoutStateView::Finished { outcome: Err(error) }
}

/// The state of a checkout that has ended on the local branch `name`.
pub open spec fn succeeded<C>(name: Seq<char>) -> CheckoutStateView<C> {
    CheckoutStateView::Finished { outcome: Ok(name) }
}

/// The request that is pending in `state`; none when it is finished.
pub open spec fn pending_request<C>(state: CheckoutStateView<C>) -> Option<EngineRequestView<C>> {
    match state {
        CheckoutStateView::ProbingLocal { requested } => Some(
            EngineRequestView::FindBranch { name: requested, kind: BranchKind::Local },
        ),
        CheckoutStateView::ProbingRemote { requested } => Some(
            EngineRequestView::FindBranch { name: requested, kind: BranchKind::Remote },
        ),
        CheckoutStateView::ProbingCandidate { requested, local } => Some(
            EngineRequestView::FindBranch { name: local, kind: BranchKind::Local },
        ),
        CheckoutStateView::ResolvingRemote { requested, local } => Some(
            EngineRequestView::ResolveCommit { refname: remote_ref(requested) },
        ),
        CheckoutStateView::Creating { local, target } => Some(
            EngineRequestView::CreateBranch { name: local, target, force: false },
        ),
        CheckoutStateView::ResolvingLocal { local } => Some(
            EngineRequestView::ResolveCommit { refname: local_ref(local) },
        ),
        CheckoutStateView::CheckingOut { local, target } => Some(
            EngineRequestView::CheckoutTree { target },
        ),
        CheckoutStateView::MovingHead { local } => Some(
            EngineRequestView::SetHead { refname: local_ref(local) },
        ),
        CheckoutStateView::Finished { outcome } => None,
    }
}

/// The state that follows `state` when the engine answers `reply`.
///
/// A reply that does not answer the pending request changes nothing.
pub open spec fn step<C>(
    state: CheckoutStateView<C>,
    reply: EngineReplyView<C>,
) -> CheckoutStateView<C> {
    match (state, reply) {
        (CheckoutStateView::ProbingLocal { requested }, EngineReplyView::Found(found)) => {
            if found {
                CheckoutStateView::ResolvingLocal { local: requested }
            } else {
                CheckoutStateView::ProbingRemote { requested }
            }
        },
        (CheckoutStateView::ProbingRemote { requested }, EngineReplyView::Found(found)) => {
            if found {
                CheckoutStateView::ProbingCandidate {
                    requested,
                    local: local_branch_name(requested),
                }
            } else {
                failed(not_found(requested))
            }
        },
        (
            CheckoutStateView::ProbingCandidate { requested, local },
            EngineReplyView::Found(found),
        ) => {
            if found {
                CheckoutStateView::ResolvingLocal { local }
            } else {
                CheckoutStateView::ResolvingRemote { requested, local }
            }
        },
        (
            CheckoutStateView::ResolvingRemote { requested, local },
            EngineReplyView::Commit(resolved),
        ) => match resolved {
            Ok(target) => CheckoutStateView::Creating { local, target },
            Err(failure) => failed(operation_error(failure)),
        },
        (
            CheckoutStateView::Creating { local, target },
            EngineReplyView::Completed(done),
        ) => match done {
            Ok(_) => CheckoutStateView::ResolvingLocal { local },
            Err(failure) => failed(operation_error(failure)),
        },
        (
            CheckoutStateView::ResolvingLocal { local },
            EngineReplyView::Commit(resolved),
        ) => match resolved {
            Ok(target) => CheckoutStateView::CheckingOut { local, target },
            Err(failure) => failed(operation_error(failure)),
        },
        (
            CheckoutStateView::CheckingOut { local, target },
            EngineReplyView::Completed(done),
        ) => match done {
            Ok(_) => CheckoutStateView::MovingHead { local },
            Err(failure) => failed(checkout_error(failure)),
        },
        (CheckoutStateView::MovingHead { local }, EngineReplyView::Completed(done)) => match done {
            Ok(_) => succeeded(local),
            Err(failure) => failed(operation_error(failure)),
        },
        _ => state,
    }
}

/// Whether `reply` answers `request`.
pub open spec fn answers<C>(reply: EngineReplyView<C>, request: EngineRequestView<C>) -> bool {
    match request {
        EngineRequestView::FindBranch { .. } => reply is Found,
        EngineRequestView::ResolveCommit { .. } => reply is Commit,
        EngineRequestView::CreateBranch { .. } => reply is Completed,
        EngineRequestView::CheckoutTree { .. } => reply is Completed,
        EngineRequestView::SetHead { .. } => reply is Completed,
    }
}

/// The most requests that `state` can still lead to.
pub open spec fn requests_left<C>(state: CheckoutStateView<C>) -> nat {
    match state {
        CheckoutStateView::ProbingLocal { .. } => 8,
        CheckoutStateView::ProbingRemote { .. } => 7,
        CheckoutStateView::ProbingCandidate { .. } => 6,
        CheckoutStateView::ResolvingRemote { .. } => 5,
        CheckoutStateView::Creating { .. } => 4,
        CheckoutStateView::ResolvingLocal { .. } => 3,
        CheckoutStateView::CheckingOut { .. } => 2,
        CheckoutStateView::MovingHead { .. } => 1,
        CheckoutStateView::Finished { .. } => 0,
    }
}

impl<C> CheckoutState<C> {
    /// Begins the checkout of `branch_name`, which may name a local or a
    /// remote-tracking branch.
    pub fn begin(branch_name: &str) -> (state: Self)
        ensures
            state@ == initial::<C>(branch_name@),
    {
        CheckoutState::ProbingLocal { requested: branch_name.to_owned() }
    }

    /// Begins the checkout of the local branch `branch_name`.
    pub fn begin_local(branch_name: &str) -> (state: Self)
        ensures
            state@ == initial_local::<C>(branch_name@),
    {
        CheckoutState::ResolvingLocal { local: branch_name.to_owned() }
    }

    /// The request to hand to the engine next; `None` when the checkout is
    /// finished.
    pub fn request(&self) -> (request: Option<EngineRequest<'_, C>>)
        ensures
            request is Some <==> pending_request(self@) is Some,
            request matches Some(r) ==> pending_request(self@) == Some(r@),
    {
        match self {
            CheckoutState::ProbingLocal { requested } => Some(
                EngineRequest::FindBranch { name: requested.as_str(), kind: BranchKind::Local },
            ),
            CheckoutState::ProbingRemote { requested } => Some(
                EngineRequest::FindBranch { name: requested.as_str(), kind: BranchKind::Remote },
            ),
            CheckoutState::ProbingCandidate { requested: _, local } => Some(
                EngineRequest::FindBranch { name: local.as_str(), kind: BranchKind::Local },
            ),
            CheckoutState::ResolvingRemote { requested, local: _ } => Some(
                EngineRequest::ResolveCommit { refname: remote_ref_name(requested.as_str()) },
            ),
            CheckoutState::Creating { local, target } => Some(
                EngineRequest::CreateBranch { name: local.as_str(), target, force: false },
            ),
            CheckoutState::ResolvingLocal { local } => Some(
                EngineRequest::ResolveCommit { refname: local_ref_name(local.as_str()) },
            ),
            CheckoutState::CheckingOut { local: _, target } => Some(
                EngineRequest::CheckoutTree { target },
            ),
            CheckoutState::MovingHead { local } => Some(
                EngineRequest::SetHead { refname: local_ref_name(local.as_str()) },
            ),
            CheckoutState::Finished { outcome: _ } => None,
        }
    }

    /// The result of the checkout, once it is finished.
    pub fn into_outcome(self) -> (outcome: Option<Result<String, GitError>>)
        ensures
            match outcome {
                Some(Ok(name)) => self@ == succeeded::<C>(name@),
                Some(Err(error)) => self@ == failed::<C>(error@),
                None => !(self@ is Finished),
            },
    {
        match self {
            CheckoutState::Finished { outcome } => Some(outcome),
            _ => None,
        }
    }

    /// Takes the engine's reply to the pending request and moves on.
    pub fn advance(self, reply: EngineReply<C>) -> (next: Self)
        ensures
            next@ == step(self@, reply@),
    {
        match (self, reply) {
            (CheckoutState::ProbingLocal { requested }, EngineReply::Found(found)) => {
                if found {
                    CheckoutState::ResolvingLocal { local: requested }
                } else {
                    CheckoutState::ProbingRemote { requested }
                }
            },
            (CheckoutState::ProbingRemote { requested }, EngineReply::Found(found)) => {
                if found {
                    let local = local_name_of(requested.as_str());
                    CheckoutState::ProbingCandidate { requested, local }
                } else {
                    CheckoutState::Finished {
                        outcome: Err(GitError::branch_not_found(requested.as_str())),
                    }
                }
            },
            (
                CheckoutState::ProbingCandidate { requested, local },
                EngineReply::Found(found),
            ) => {
                if found {
                    CheckoutState::ResolvingLocal { local }
                } else {
                    CheckoutState::ResolvingRemote { requested, local }
                }
            },
            (
                CheckoutState::ResolvingRemote { requested: _, local },
                EngineReply::Commit(resolved),
            ) => match resolved {
                Ok(target) => CheckoutState::Creating { local, target },
                Err(failure) => CheckoutState::Finished {
                    outcome: Err(GitError::from_operation(failure)),
                },
            },
            (
                CheckoutState::Creating { local, target: _ },
                EngineReply::Completed(done),
            ) => match done {
                Ok(_) => CheckoutState::ResolvingLocal { local },
                Err(failure) => CheckoutState::Finished {
                    outcome: Err(GitError::from_operation(failure)),
                },
            },
            (
                CheckoutState::ResolvingLocal { local },
                EngineReply::Commit(resolved),
            ) => match resolved {
                Ok(target) => CheckoutState::CheckingOut { local, target },
                Err(failure) => CheckoutState::Finished {
                    outcome: Err(GitError::from_operation(failure)),
                },
            },
            (
                CheckoutState::CheckingOut { local, target: _ },
                EngineReply::Completed(done),
            ) => match done {
                Ok(_) => CheckoutState::MovingHead { local },
                Err(failure) => CheckoutState::Finished {
                    outcome: Err(GitError::from_checkout(failure)),
                },
            },
            (CheckoutState::MovingHead { local }, EngineReply::Completed(done)) => match done {
                Ok(_) => CheckoutState::Finished { outcome: Ok(local) },
                Err(failure) => CheckoutState::Finished {
                    outcome: Err(GitError::from_operation(failure)),
                },
            },
            (state, _) => state,
        }
    }
}

} // verus!
