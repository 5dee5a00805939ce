//! What holds of every checkout: the laws of the machine in `checkout`.
//!
//! A run is what the machine does over a sequence of replies of the engine.
//! The laws speak of runs, so they hold whatever the engine answers; what they
//! say of the repository, they say through the requests that the machine
//! makes, since a branch is created, a tree checked out or `HEAD` moved only
//! where the machine asks for it.

use vstd::prelude::*;
use crate::checkout::{
    answers, failed, initial, not_found, pending_request, requests_left, step, succeeded,
    CheckoutStateView, EngineReplyView, EngineRequestView,
};
use crate::error::{checkout_error, EngineFailureView, ErrorKind, GitError, GitErrorView};
use crate::names::{local_branch_name, local_ref, remote_ref, BranchKind};

verus! {

/// The state reached from `state` when the engine gives `replies` in turn.
pub open spec fn run<C>(
    state: CheckoutStateView<C>,
    replies: Seq<EngineReplyView<C>>,
) -> CheckoutStateView<C>
    decreases replies.len(),
{
    if replies.len() == 0 {
        state
    } else {
        step(run(state, replies.drop_last()), replies.last())
    }
}

/// The outcome of a checkout as contracts see it.
pub open spec fn outcome_view(outcome: Result<String, GitError>) -> Result<
    Seq<char>,
    GitErrorView,
> {
    match outcome {
        Ok(name) => Ok(name@),
        Err(error) => Err(error@),
    }
}

/// Whether a checkout that begins in `start` can end with `outcome`: whether
/// there are replies of the engine over which the machine runs from `start`
/// to the end with `outcome`.
pub open spec fn can_end_with<C>(
    start: CheckoutStateView<C>,
    outcome: Result<Seq<char>, GitErrorView>,
) -> bool {
    exists|replies: Seq<EngineReplyView<C>>|
        #[trigger] run(start, replies) == (CheckoutStateView::<C>::Finished { outcome })
}

/// Whether `state` belongs to the checkout of the local branch `local` once
/// that branch is known to exist: its commit is being resolved, its tree
/// checked out, `HEAD` pointed at it, or the checkout has ended, in success
/// only with `local`.
pub open spec fn settled_on<C>(state: CheckoutStateView<C>, local: Seq<char>) -> bool {
    match state {
        CheckoutStateView::ResolvingLocal { local: l } => l == local,
        CheckoutStateView::CheckingOut { local: l, target } => l == local,
        CheckoutStateView::MovingHead { local: l } => l == local,
        CheckoutStateView::Finished { outcome: Ok(name) } => name == local,
        CheckoutStateView::Finished { outcome: Err(error) } => error.kind
            == ErrorKind::CheckoutConflict || error.kind == ErrorKind::RefOperationFailed,
        _ => false,
    }
}

/// Whether `state` can occur in the checkout of `requested`.
pub open spec fn on_course<C>(state: CheckoutStateView<C>, requested: Seq<char>) -> bool {
    match state {
        CheckoutStateView::ProbingLocal { requested: r } => r == requested,
        CheckoutStateView::ProbingRemote { requested: r } => r == requested,
        CheckoutStateView::ProbingCandidate { requested: r, local } => r == requested && local
            == local_branch_name(requested),
        CheckoutStateView::ResolvingRemote { requested: r, local } => r == requested && local
            == local_branch_name(requested),
        CheckoutStateView::Creating { local, target } => local == local_branch_name(requested),
        CheckoutStateView::Finished { outcome: Err(error) } => error == not_found(requested)
            || error.kind == ErrorKind::CheckoutConflict || error.kind
            == ErrorKind::RefOperationFailed,
        _ => settled_on(state, requested) || settled_on(state, local_branch_name(requested)),
    }
}

/// A reply that answers the pending request brings the checkout nearer to
/// its end; any other reply leaves the state as it is.
pub proof fn lemma_step_progress<C>(state: CheckoutStateView<C>, reply: EngineReplyView<C>)
    ensures
        pending_request(state) matches Some(request) && answers(reply, request) ==> requests_left(
            step(state, reply),
        ) < requests_left(state),
        pending_request(state) matches Some(request) && !answers(reply, request) ==> step(
            state,
            reply,
        ) == state,
        pending_request(state) is None ==> step(state, reply) == state,
{
}

/// A step keeps a checkout that is settled on a local branch settled on it.
pub proof fn lemma_step_settled<C>(
    state: CheckoutStateView<C>,
    reply: EngineReplyView<C>,
    local: Seq<char>,
)
    requires
        settled_on(state, local),
    ensures
        settled_on(step(state, reply), local),
{
}

/// A run keeps a checkout that is settled on a local branch settled on it.
pub proof fn lemma_run_settled<C>(
    state: CheckoutStateView<C>,
    replies: Seq<EngineReplyView<C>>,
    local: Seq<char>,
)
    requires
        settled_on(state, local),
    ensures
        settled_on(run(state, replies), local),
    decreases replies.len(),
{
    if replies.len() > 0 {
        lemma_run_settled(state, replies.drop_last(), local);
        lemma_step_settled(run(state, replies.drop_last()), replies.last(), local);
    }
}

/// A run over `first` and then `rest` is a run over `rest` from where
/// `first` led.
pub proof fn lemma_run_concat<C>(
    state: CheckoutStateView<C>,
    first: Seq<EngineReplyView<C>>,
    rest: Seq<EngineReplyView<C>>,
)
    ensures
        run(state, first + rest) == run(run(state, first), rest),
    decreases rest.len(),
{
    if rest.len() == 0 {
        assert(first + rest =~= first);
    } else {
        assert((first + rest).drop_last() =~= first + rest.drop_last());
        assert((first + rest).last() == rest.last());
        lemma_run_concat(state, first, rest.drop_last());
    }
}

/// The state after the first `count + 1` replies follows, by the reply at
/// `count`, the state after the first `count`.
pub proof fn lemma_run_next<C>(
    state: CheckoutStateView<C>,
    replies: Seq<EngineReplyView<C>>,
    count: int,
)
    requires
        0 <= count < replies.len(),
    ensures
        run(state, replies.take(count + 1)) == step(
            run(state, replies.take(count)),
            replies[count],
        ),
{
    assert(replies.take(count + 1).drop_last() =~= replies.take(count));
}

/// A run never leaves more requests than there were, and a checkout that is
/// finished stays as it is.
pub proof fn lemma_run_progress<C>(state: CheckoutStateView<C>, replies: Seq<EngineReplyView<C>>)
    ensures
        requests_left(run(state, replies)) <= requests_left(state),
        state is Finished ==> run(state, replies) == state,
    decreases replies.len(),
{
    if replies.len() > 0 {
        lemma_run_progress(state, replies.drop_last());
        lemma_step_progress(run(state, replies.drop_last()), replies.last());
    }
}

/// The state after the first `later` replies is reached, from the state
/// after the first `earlier`, by the replies between them.
pub proof fn lemma_run_between<C>(
    state: CheckoutStateView<C>,
    replies: Seq<EngineReplyView<C>>,
    earlier: int,
    later: int,
)
    requires
        0 <= earlier <= later <= replies.len(),
    ensures
        run(state, replies.take(later)) == run(
            run(state, replies.take(earlier)),
            replies.subrange(earlier, later),
        ),
{
    assert(replies.take(later) =~= replies.take(earlier) + replies.subrange(earlier, later));
    lemma_run_concat(state, replies.take(earlier), replies.subrange(earlier, later));
}

/// Whatever the engine answers, the checkout of `requested` stays on course:
/// it ends in success only with `requested` itself or with the local name
/// behind it, and in failure only because no branch was found, because of a
/// conflict, or because an operation failed.
pub proof fn law_outcome<C>(requested: Seq<char>, replies: Seq<EngineReplyView<C>>)
    ensures
        on_course(run(initial::<C>(requested), replies), requested),
        run(initial::<C>(requested), replies) matches CheckoutStateView::Finished {
            outcome: Ok(name),
        } ==> name == requested || name == local_branch_name(requested),
        run(initial::<C>(requested), replies) matches CheckoutStateView::Finished {
            outcome: Err(error),
        } ==> error == not_found(requested) || error.kind == ErrorKind::CheckoutConflict
            || error.kind == ErrorKind::RefOperationFailed,
    decreases replies.len(),
{
    if replies.len() > 0 {
        law_outcome::<C>(requested, replies.drop_last());
    }
}

/// Local precedence: once the engine has answered that `requested` is a
/// local branch, that branch is the one checked out, whatever else the engine
/// answers. No branch is created, and success returns `requested` unchanged.
pub proof fn law_local_precedence<C>(requested: Seq<char>, replies: Seq<EngineReplyView<C>>)
    requires
        replies.len() > 0,
        replies[0] == EngineReplyView::<C>::Found(true),
    ensures
        pending_request(initial::<C>(requested)) == Some(
            EngineRequestView::<C>::FindBranch { name: requested, kind: BranchKind::Local },
        ),
        settled_on(run(initial::<C>(requested), replies), requested),
        !(pending_request(run(initial::<C>(requested), replies)) matches Some(
            EngineRequestView::CreateBranch { .. },
        )),
        run(initial::<C>(requested), replies) matches CheckoutStateView::Finished {
            outcome: Ok(name),
        } ==> name == requested,
{
    let first = seq![replies[0]];
    let rest = replies.skip(1);
    assert(replies =~= first + rest);
    lemma_run_concat(initial::<C>(requested), first, rest);
    assert(first.drop_last() =~= Seq::<EngineReplyView<C>>::empty());
    reveal_with_fuel(run, 2);
    assert(run(initial::<C>(requested), first) == step(initial::<C>(requested), replies[0]));
    lemma_run_settled(run(initial::<C>(requested), first), rest, requested);
}

/// Not found: when the engine answers that `requested` is neither a local
/// nor a remote-tracking branch, the checkout ends with `BranchNotFound` and a
/// message that names `requested`. The two questions are all that the engine
/// was asked, so nothing in the repository has changed.
pub proof fn law_not_found<C>(requested: Seq<char>)
    ensures
        pending_request(initial::<C>(requested)) == Some(
            EngineRequestView::<C>::FindBranch { name: requested, kind: BranchKind::Local },
        ),
        pending_request(step(initial::<C>(requested), EngineReplyView::Found(false))) == Some(
            EngineRequestView::<C>::FindBranch { name: requested, kind: BranchKind::Remote },
        ),
        run(
            initial::<C>(requested),
            seq![EngineReplyView::Found(false), EngineReplyView::Found(false)],
        ) == failed::<C>(not_found(requested)),
{
    let replies = seq![EngineReplyView::<C>::Found(false), EngineReplyView::<C>::Found(false)];
    assert(replies.drop_last() =~= seq![EngineReplyView::<C>::Found(false)]);
    assert(replies.drop_last().drop_last() =~= Seq::<EngineReplyView<C>>::empty());
    reveal_with_fuel(run, 3);
}

/// Not found, of every run: a checkout of `requested` that has ended with
/// `BranchNotFound` has asked the engine for nothing but whether a branch
/// exists. It has created no branch, checked no tree out and not moved
/// `HEAD`; its error is the one that names `requested`.
pub proof fn law_not_found_only_looks<C>(
    requested: Seq<char>,
    replies: Seq<EngineReplyView<C>>,
    count: int,
)
    requires
        run(initial::<C>(requested), replies) matches CheckoutStateView::Finished {
            outcome: Err(error),
        } && error.kind == ErrorKind::BranchNotFound,
        0 <= count <= replies.len(),
    ensures
        run(initial::<C>(requested), replies) == failed::<C>(not_found(requested)),
        match pending_request(run(initial::<C>(requested), replies.take(count))) {
            Some(request) => request is FindBranch,
            None => run(initial::<C>(requested), replies.take(count)) == failed::<C>(
                not_found(requested),
            ),
        },
    decreases replies.len() - count,
{
    let start = initial::<C>(requested);
    law_outcome::<C>(requested, replies);
    if count == replies.len() {
        assert(replies.take(count) =~= replies);
    } else {
        law_not_found_only_looks::<C>(requested, replies, count + 1);
        lemma_run_next(start, replies, count);
    }
}

/// Conflict safety: a tree checkout that fails ends the checkout at once,
/// with `CheckoutConflict` where the engine reported a conflict. `HEAD` is
/// pointed at a branch only in answer to a tree checkout that succeeded, so a
/// failed one leaves it where it was.
pub proof fn law_conflict_keeps_head<C>(
    state: CheckoutStateView<C>,
    reply: EngineReplyView<C>,
    failure: EngineFailureView,
)
    ensures
        pending_request(state) matches Some(EngineRequestView::CheckoutTree { .. }) ==> step(
            state,
            EngineReplyView::Completed(Err(failure)),
        ) == failed::<C>(checkout_error(failure)),
        failure.conflict ==> checkout_error(failure).kind == ErrorKind::CheckoutConflict,
        pending_request(step(state, reply)) matches Some(EngineRequestView::SetHead { refname })
            ==> {
            ||| pending_request(state) == pending_request(step(state, reply))
            ||| {
                &&& state matches CheckoutStateView::CheckingOut { local, target }
                &&& refname == local_ref(local)
                &&& reply matches EngineReplyView::Completed(Ok(_))
            }
        },
{
}

/// Conflict safety, of every run: in a checkout in which a tree checkout has
/// failed, the engine is never asked to move `HEAD`, neither before the
/// failure nor after it, and from the failure on the checkout is finished,
/// with `CheckoutConflict` where the engine reported a conflict.
pub proof fn law_failed_checkout_keeps_head<C>(
    start: CheckoutStateView<C>,
    replies: Seq<EngineReplyView<C>>,
    failed_at: int,
    failure: EngineFailureView,
    count: int,
)
    requires
        0 <= failed_at < replies.len(),
        pending_request(run(start, replies.take(failed_at))) matches Some(
            EngineRequestView::CheckoutTree { .. },
        ),
        replies[failed_at] == EngineReplyView::<C>::Completed(Err(failure)),
        0 <= count <= replies.len(),
    ensures
        !(pending_request(run(start, replies.take(count))) matches Some(
            EngineRequestView::SetHead { .. },
        )),
        count > failed_at ==> run(start, replies.take(count)) == failed::<C>(
            checkout_error(failure),
        ),
        failure.conflict ==> checkout_error(failure).kind == ErrorKind::CheckoutConflict,
{
    if count <= failed_at {
        lemma_run_between(start, replies, count, failed_at);
        lemma_run_progress(
            run(start, replies.take(count)),
            replies.subrange(count, failed_at),
        );
    } else {
        lemma_run_next(start, replies, failed_at);
        lemma_run_between(start, replies, failed_at + 1, count);
        lemma_run_progress(
            run(start, replies.take(failed_at + 1)),
            replies.subrange(failed_at + 1, count),
        );
    }
}

/// Success follows a moved `HEAD`: the checkout ends with the name `name`
/// only in answer to a `SetHead` on `refs/heads/<name>` that succeeded.
pub proof fn law_success_moves_head<C>(
    state: CheckoutStateView<C>,
    reply: EngineReplyView<C>,
    name: Seq<char>,
)
    requires
        !(state is Finished),
        step(state, reply) == succeeded::<C>(name),
    ensures
        pending_request(state) == Some(
            EngineRequestView::<C>::SetHead { refname: local_ref(name) },
        ),
        reply matches EngineReplyView::Completed(Ok(_)),
{
}

/// Remote materialization: when `requested` is only a remote-tracking
/// branch, and the local branch behind it does not exist yet, that branch is
/// created, without force, at the commit that `refs/remotes/<requested>`
/// resolved to. It is then checked out like any local branch: `HEAD` is
/// pointed at it and its name is returned.
pub proof fn law_remote_materialization<C>(
    requested: Seq<char>,
    remote_commit: C,
    local_commit: C,
)
    ensures
        ({
            let local = local_branch_name(requested);
            let found_remote = run(
                initial::<C>(requested),
                seq![
                    EngineReplyView::Found(false),
                    EngineReplyView::Found(true),
                    EngineReplyView::Found(false),
                ],
            );
            let creating = step(found_remote, EngineReplyView::Commit(Ok(remote_commit)));
            let created = step(creating, EngineReplyView::Completed(Ok(())));
            let checking_out = step(created, EngineReplyView::Commit(Ok(local_commit)));
            let moving_head = step(checking_out, EngineReplyView::Completed(Ok(())));
            &&& pending_request(found_remote) == Some(
                EngineRequestView::<C>::ResolveCommit { refname: remote_ref(requested) },
            )
            &&& pending_request(creating) == Some(
                EngineRequestView::CreateBranch {
                    name: local,
                    target: remote_commit,
                    force: false,
                },
            )
            &&& pending_request(created) == Some(
                EngineRequestView::<C>::ResolveCommit { refname: local_ref(local) },
            )
            &&& pending_request(checking_out) == Some(
                EngineRequestView::CheckoutTree { target: local_commit },
            )
            &&& pending_request(moving_head) == Some(
                EngineRequestView::<C>::SetHead { refname: local_ref(local) },
            )
            &&& step(moving_head, EngineReplyView::Completed(Ok(()))) == succeeded::<C>(local)
        }),
{
    let replies = seq![
        EngineReplyView::<C>::Found(false),
        EngineReplyView::<C>::Found(true),
        EngineReplyView::<C>::Found(false),
    ];
    assert(replies.drop_last() =~= seq![
        EngineReplyView::<C>::Found(false),
        EngineReplyView::<C>::Found(true),
    ]);
    assert(replies.drop_last().drop_last() =~= seq![EngineReplyView::<C>::Found(false)]);
    assert(replies.drop_last().drop_last().drop_last() =~= Seq::<EngineReplyView<C>>::empty());
    reveal_with_fuel(run, 4);
}

/// Reuse: when `requested` is only a remote-tracking branch and the local
/// branch behind it exists already, that branch is checked out as it is,
/// whatever else the engine answers. No branch is created, and success
/// returns the local name.
pub proof fn law_remote_reuse<C>(requested: Seq<char>, replies: Seq<EngineReplyView<C>>)
    requires
        replies.len() >= 3,
        replies[0] == EngineReplyView::<C>::Found(false),
        replies[1] == EngineReplyView::<C>::Found(true),
        replies[2] == EngineReplyView::<C>::Found(true),
    ensures
        pending_request(
            run(
                initial::<C>(requested),
                seq![EngineReplyView::Found(false), EngineReplyView::Found(true)],
            ),
        ) == Some(
            EngineRequestView::<C>::FindBranch {
                name: local_branch_name(requested),
                kind: BranchKind::Local,
            },
        ),
        settled_on(run(initial::<C>(requested), replies), local_branch_name(requested)),
        !(pending_request(run(initial::<C>(requested), replies)) matches Some(
            EngineRequestView::CreateBranch { .. },
        )),
        run(initial::<C>(requested), replies) matches CheckoutStateView::Finished {
            outcome: Ok(name),
        } ==> name == local_branch_name(requested),
{
    let first = replies.take(3);
    let rest = replies.skip(3);
    assert(replies =~= first + rest);
    lemma_run_concat(initial::<C>(requested), first, rest);
    assert(first.drop_last() =~= seq![
        EngineReplyView::<C>::Found(false),
        EngineReplyView::<C>::Found(true),
    ]);
    assert(first.drop_last().drop_last() =~= seq![EngineReplyView::<C>::Found(false)]);
    assert(first.drop_last().drop_last().drop_last() =~= Seq::<EngineReplyView<C>>::empty());
    reveal_with_fuel(run, 4);
    assert(run(initial::<C>(requested), first) == (CheckoutStateView::<C>::ResolvingLocal {
        local: local_branch_name(requested),
    }));
    lemma_run_settled(run(initial::<C>(requested), first), rest, local_branch_name(requested));
}

} // verus!
