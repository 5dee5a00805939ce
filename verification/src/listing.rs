//! Which names a branch listing shows, and in what order.
//!
//! The engine walks over the branches of one kind; `select_names` turns what
//! it told of each into the listing: the names that could be read, without the
//! remotes' `HEAD` pointers, in ascending order.

use vstd::prelude::*;
use vstd::seq_lib::*;
use vstd::std_specs::iter::IteratorSpec;
use vstd::string::*;
use crate::error::{
    engine_failure, operation_error, EngineFailure, EngineFailureView, ErrorKind, GitError,
    GitErrorView,
};
use crate::names::{is_remote_head, is_remote_head_name, BranchKind};

verus! {

/// The order of names: lexicographic by code point, a proper prefix first.
pub open spec fn name_le(a: Seq<char>, b: Seq<char>) -> bool
    decreases a.len(),
{
    if a.len() == 0 {
        true
    } else if b.len() == 0 {
        false
    } else if a[0] != b[0] {
        a[0] < b[0]
    } else {
        name_le(a.drop_first(), b.drop_first())
    }
}

/// Whether `names` stand in ascending order.
pub open spec fn ascending(names: Seq<Seq<char>>) -> bool {
    forall|i: int, j: int| 0 <= i < j < names.len() ==> name_le(names[i], names[j])
}

/// Every name stands before itself.
pub proof fn lemma_name_le_reflexive(a: Seq<char>)
    ensures
        name_le(a, a),
    decreases a.len(),
{
    if a.len() > 0 {
        lemma_name_le_reflexive(a.drop_first());
    }
}

/// Of two names, one stands before the other.
pub proof fn lemma_name_le_total(a: Seq<char>, b: Seq<char>)
    ensures
        name_le(a, b) || name_le(b, a),
    decreases a.len(),
{
    if a.len() > 0 && b.len() > 0 && a[0] == b[0] {
        lemma_name_le_total(a.drop_first(), b.drop_first());
    }
}

/// Two names that stand before each other are the same name.
pub proof fn lemma_name_le_antisymmetric(a: Seq<char>, b: Seq<char>)
    requires
        name_le(a, b),
        name_le(b, a),
    ensures
        a == b,
    decreases a.len(),
{
    if a.len() == 0 || b.len() == 0 {
        assert(a =~= b);
    } else {
        lemma_name_le_antisymmetric(a.drop_first(), b.drop_first());
        assert(a =~= seq![a[0]] + a.drop_first());
        assert(b =~= seq![b[0]] + b.drop_first());
    }
}

/// The order is transitive.
pub proof fn lemma_name_le_transitive(a: Seq<char>, b: Seq<char>, c: Seq<char>)
    requires
        name_le(a, b),
        name_le(b, c),
    ensures
        name_le(a, c),
    decreases a.len(),
{
    if a.len() > 0 && b.len() > 0 && c.len() > 0 && a[0] == b[0] && b[0] == c[0] {
        lemma_name_le_transitive(a.drop_first(), b.drop_first(), c.drop_first());
    }
}

/// Tells whether `a` stands before `b`, or is `b`.
pub fn name_precedes(a: &str, b: &str) -> (le: bool)
    ensures
        le == name_le(a@, b@),
{
    let mut left = a.chars();
    let mut right = b.chars();
    loop
        invariant
            left.obeys_prophetic_iter_laws(),
            right.obeys_prophetic_iter_laws(),
            left.decrease() is Some,
            name_le(a@, b@) == name_le(left.remaining(), right.remaining()),
        decreases left.decrease()->0,
    {
        let x = match left.next() {
            None => {
                return true;
            },
            Some(x) => x,
        };
        let y = match right.next() {
            None => {
                return false;
            },
            Some(y) => y,
        };
        if x != y {
            return x < y;
        }
    }
}

/// What the engine told of one branch while it enumerated.
#[derive(Debug)]
pub enum BranchEntry {
    /// The branch, by its short name.
    Named(String),
    /// A branch whose name is not valid text.
    Unnamed,
    /// A branch whose name could not be read.
    Unreadable(EngineFailure),
    /// The walk over the branches failed at this point.
    Failed(EngineFailure),
}

/// A `BranchEntry` as contracts see it.
pub ghost enum BranchEntryView {
    Named(Seq<char>),
    Unnamed,
    Unreadable(EngineFailureView),
    Failed(EngineFailureView),
}

impl DeepView for BranchEntry {
    type V = BranchEntryView;

    open spec fn deep_view(&self) -> BranchEntryView {
        match *self {
            BranchEntry::Named(name) => BranchEntryView::Named(name@),
            BranchEntry::Unnamed => BranchEntryView::Unnamed,
            BranchEntry::Unreadable(failure) => BranchEntryView::Unreadable(failure@),
            BranchEntry::Failed(failure) => BranchEntryView::Failed(failure@),
        }
    }
}

impl BranchEntry {
    /// The entry for a branch of which the engine told `name`: its short
    /// name, `None` where that is not valid text, or the failure to read it.
    pub fn read(name: Result<Option<String>, git2::Error>) -> (entry: BranchEntry)
        ensures
            match name {
                Ok(Some(text)) => entry.deep_view() == BranchEntryView::Named(text@),
                Ok(None) => entry.deep_view() == BranchEntryView::Unnamed,
                Err(error) => entry.deep_view() == BranchEntryView::Unreadable(
                    engine_failure(error),
                ),
            },
    {
        match name {
            Ok(Some(text)) => BranchEntry::Named(text),
            Ok(None) => BranchEntry::Unnamed,
            Err(failure) => BranchEntry::Unreadable(EngineFailure::of(&failure)),
        }
    }

    /// The entry for the point at which the walk failed with `error`.
    pub fn failed(error: git2::Error) -> (entry: BranchEntry)
        ensures
            entry.deep_view() == BranchEntryView::Failed(engine_failure(error)),
    {
        BranchEntry::Failed(EngineFailure::of(&error))
    }

    /// Tells whether the entry stands for a failure.
    pub fn is_failure(&self) -> (failure: bool)
        ensures
            failure == entry_error(self.deep_view()) is Some,
    {
        match self {
            BranchEntry::Unreadable(_) => true,
            BranchEntry::Failed(_) => true,
            _ => false,
        }
    }
}

/// Whether each of `entries` has a name.
pub open spec fn all_named(entries: Seq<BranchEntryView>) -> bool {
    forall|i: int| 0 <= i < entries.len() ==> entries[i] is Named
}

/// Whether a listing of `kind` shows `name`: a listing of remote-tracking
/// branches leaves the remotes' `HEAD` pointers out.
pub open spec fn is_listed(name: Seq<char>, kind: BranchKind) -> bool {
    kind == BranchKind::Local || !is_remote_head(name)
}

/// The error that `entry` stands for, if it stands for one.
pub open spec fn entry_error(entry: BranchEntryView) -> Option<GitErrorView> {
    match entry {
        BranchEntryView::Unreadable(failure) => Some(
            GitErrorView { kind: ErrorKind::InvalidBranchName, message: failure.message },
        ),
        BranchEntryView::Failed(failure) => Some(operation_error(failure)),
        _ => None,
    }
}

/// The error of the first entry that stands for one.
pub open spec fn first_error(entries: Seq<BranchEntryView>) -> Option<GitErrorView>
    decreases entries.len(),
{
    if entries.len() == 0 {
        None
    } else {
        match first_error(entries.drop_last()) {
            Some(error) => Some(error),
            None => entry_error(entries.last()),
        }
    }
}

/// The names that a listing of `kind` shows, in the order of `entries`.
pub open spec fn listed_names(entries: Seq<BranchEntryView>, kind: BranchKind) -> Seq<Seq<char>>
    decreases entries.len(),
{
    if entries.len() == 0 {
        Seq::empty()
    } else {
        let before = listed_names(entries.drop_last(), kind);
        match entries.last() {
            BranchEntryView::Named(name) => if is_listed(name, kind) {
                before.push(name)
            } else {
                before
            },
            _ => before,
        }
    }
}

/// The first `count` of `entries`, as contracts see them.
pub open spec fn entries_seen(entries: Seq<BranchEntry>, count: int) -> Seq<BranchEntryView> {
    Seq::new(count as nat, |i: int| entries[i].deep_view())
}

/// Puts `name` into `names`, which stand in ascending order, at its place.
fn insert_in_order(names: &mut Vec<String>, name: String)
    requires
        ascending(old(names).deep_view()),
    ensures
        ascending(final(names).deep_view()),
        final(names).deep_view().to_multiset() == old(names).deep_view().to_multiset().insert(
            name@,
        ),
{
    let mut at: usize = 0;
    while at < names.len() && name_precedes(names[at].as_str(), name.as_str())
        invariant
            at <= names.len(),
            *names == *old(names),
            forall|i: int| 0 <= i < at ==> name_le(#[trigger] names@[i]@, name@),
        decreases names.len() - at,
    {
        at = at + 1;
    }
    let ghost before = names.deep_view();
    names.insert(at, name);
    proof {
        let after = names.deep_view();
        assert(after =~= before.insert(at as int, name@));
        to_multiset_insert(before, at as int, name@);
        assert forall|i: int, j: int| 0 <= i < j < after.len() implies name_le(
            after[i],
            after[j],
        ) by {
            if j == at {
                assert(after[i] == before[i]);
            } else if i == at {
                assert(after[j] == before[j - 1]);
                assert(!name_le(before[at as int], name@));
                lemma_name_le_total(before[at as int], name@);
                if j - 1 > at {
                    lemma_name_le_transitive(name@, before[at as int], before[j - 1]);
                }
            } else {
                let i0 = if i < at { i } else { i - 1 };
                let j0 = if j < at { j } else { j - 1 };
                assert(after[i] == before[i0]);
                assert(after[j] == before[j0]);
            }
        }
    }
}

/// Makes the listing of `kind` out of what the engine told of each branch.
///
/// The first entry that stands for a failure fails the whole listing: with
/// `InvalidBranchName` where a name could not be read, with
/// `RefOperationFailed` where the walk failed. Without one, the listing holds
/// the name of every named entry, but for the remotes' `HEAD` pointers in a
/// listing of remote-tracking branches, in ascending order. An entry whose
/// name is not valid text is passed over.
pub fn select_names(entries: Vec<BranchEntry>, kind: BranchKind) -> (listing: Result<
    Vec<String>,
    GitError,
>)
    ensures
        match listing {
            Ok(names) => {
                &&& first_error(entries.deep_view()) is None
                &&& ascending(names.deep_view())
                &&& names.deep_view().to_multiset() == listed_names(
                    entries.deep_view(),
                    kind,
                ).to_multiset()
                &&& names.len() == listed_names(entries.deep_view(), kind).len()
                &&& forall|name: Seq<char>|
                    names.deep_view().contains(name) <==> listed_names(
                        entries.deep_view(),
                        kind,
                    ).contains(name)
                &&& listed_names(entries.deep_view(), kind).no_duplicates()
                    ==> names.deep_view().no_duplicates()
                &&& kind == BranchKind::Local && all_named(entries.deep_view()) ==> names.len()
                    == entries.len()
                &&& kind == BranchKind::Remote ==> forall|i: int|
                    0 <= i < names.len() ==> !is_remote_head(#[trigger] names.deep_view()[i])
            },
            Err(error) => first_error(entries.deep_view()) == Some(error@),
        },
{
    let ghost all = entries@;
    let mut names: Vec<String> = Vec::new();
    assert(names.deep_view() =~= listed_names(entries_seen(all, 0), kind));
    for entry in rest: entries
        invariant
            rest.seq() == all,
            first_error(entries_seen(all, rest.index() as int)) is None,
            ascending(names.deep_view()),
            names.deep_view().to_multiset() == listed_names(
                entries_seen(all, rest.index() as int),
                kind,
            ).to_multiset(),
    {
        let ghost at = rest.index() as int;
        let ghost done = entries_seen(all, at);
        let ghost next = entries_seen(all, at + 1);
        proof {
            assert(next.drop_last() =~= done);
            assert(next.last() == entry.deep_view());
        }
        match entry {
            BranchEntry::Named(name) => {
                if kind == BranchKind::Local || !is_remote_head_name(name.as_str()) {
                    insert_in_order(&mut names, name);
                    proof {
                        to_multiset_build(listed_names(done, kind), name@);
                    }
                }
            },
            BranchEntry::Unnamed => {},
            BranchEntry::Unreadable(failure) => {
                let error = GitError::invalid_branch_name(failure);
                proof {
                    let rest = entries_seen(all, all.len() as int).skip(at + 1);
                    lemma_first_error_prefix(next, rest);
                    assert(entries.deep_view() =~= next + rest);
                }
                return Err(error);
            },
            BranchEntry::Failed(failure) => {
                let error = GitError::from_operation(failure);
                proof {
                    let rest = entries_seen(all, all.len() as int).skip(at + 1);
                    lemma_first_error_prefix(next, rest);
                    assert(entries.deep_view() =~= next + rest);
                }
                return Err(error);
            },
        }
    }
    proof {
        let done = entries_seen(all, all.len() as int);
        assert(entries.deep_view() =~= done);
        listed_names(done, kind).to_multiset_ensures();
        names.deep_view().to_multiset_ensures();
        assert forall|name: Seq<char>|
            names.deep_view().contains(name) <==> listed_names(done, kind).contains(name) by {
            assert(names.deep_view().contains(name) <==> names.deep_view().to_multiset().count(
                name,
            ) > 0);
            assert(listed_names(done, kind).contains(name) <==> listed_names(
                done,
                kind,
            ).to_multiset().count(name) > 0);
        }
        if listed_names(done, kind).no_duplicates() {
            listed_names(done, kind).lemma_multiset_has_no_duplicates();
            names.deep_view().lemma_multiset_has_no_duplicates_conv();
        }
        if kind == BranchKind::Local && all_named(done) {
            lemma_local_listing_shows_all(done);
        }
        if kind == BranchKind::Remote {
            lemma_listed_names_are_listed(done, kind);
            assert forall|i: int| 0 <= i < names.len() implies !is_remote_head(
                #[trigger] names.deep_view()[i],
            ) by {
                let name = names.deep_view()[i];
                assert(names.deep_view().to_multiset().count(name) > 0);
                assert(listed_names(done, kind).contains(name));
            }
        }
    }
    Ok(names)
}

/// The first error of a listing says that a name could not be read, or
/// that an operation failed.
pub proof fn lemma_first_error_kind(entries: Seq<BranchEntryView>)
    ensures
        first_error(entries) matches Some(error) ==> error.kind == ErrorKind::InvalidBranchName
            || error.kind == ErrorKind::RefOperationFailed,
    decreases entries.len(),
{
    if entries.len() > 0 {
        lemma_first_error_kind(entries.drop_last());
    }
}

/// An error among the first entries is the first error of all of them.
pub proof fn lemma_first_error_prefix(first: Seq<BranchEntryView>, rest: Seq<BranchEntryView>)
    requires
        first_error(first) is Some,
    ensures
        first_error(first + rest) == first_error(first),
    decreases rest.len(),
{
    if rest.len() == 0 {
        assert(first + rest =~= first);
    } else {
        assert((first + rest).drop_last() =~= first + rest.drop_last());
        lemma_first_error_prefix(first, rest.drop_last());
    }
}

/// Every name of `listed_names` is the name of an entry, and one that a
/// listing of `kind` shows.
pub proof fn lemma_listed_names_are_listed(entries: Seq<BranchEntryView>, kind: BranchKind)
    ensures
        forall|name: Seq<char>| #[trigger]
            listed_names(entries, kind).contains(name) ==> is_listed(name, kind)
                && entries.contains(BranchEntryView::Named(name)),
    decreases entries.len(),
{
    if entries.len() > 0 {
        let before = entries.drop_last();
        lemma_listed_names_are_listed(before, kind);
        assert forall|name: Seq<char>| #[trigger]
            listed_names(entries, kind).contains(name) implies is_listed(name, kind)
            && entries.contains(BranchEntryView::Named(name)) by {
            let i = choose|i: int|
                0 <= i < listed_names(entries, kind).len() && listed_names(entries, kind)[i]
                    == name;
            if i < listed_names(before, kind).len() {
                assert(listed_names(before, kind)[i] == name);
                assert(listed_names(before, kind).contains(name));
                let k = choose|k: int|
                    0 <= k < before.len() && before[k] == BranchEntryView::Named(name);
                assert(entries[k] == BranchEntryView::Named(name));
            } else {
                assert(entries[entries.len() - 1] == BranchEntryView::Named(name));
            }
        }
    }
}

/// The names of `entries`, where each is named.
pub open spec fn entry_names(entries: Seq<BranchEntryView>) -> Seq<Seq<char>> {
    Seq::new(entries.len(), |i: int| entries[i]->Named_0)
}

/// A listing of local branches shows every named entry.
pub proof fn lemma_local_listing_shows_all(entries: Seq<BranchEntryView>)
    requires
        all_named(entries),
    ensures
        listed_names(entries, BranchKind::Local) == entry_names(entries),
        listed_names(entries, BranchKind::Local).len() == entries.len(),
    decreases entries.len(),
{
    if entries.len() == 0 {
        assert(listed_names(entries, BranchKind::Local) =~= entry_names(entries));
    } else {
        lemma_local_listing_shows_all(entries.drop_last());
        assert(entry_names(entries.drop_last()).push(entries.last()->Named_0) =~= entry_names(
            entries,
        ));
    }
}

/// Completeness of a local listing: of a repository whose local branches are
/// `entries`, each with a name and no two with the same, the listing `names`
/// holds as many names as there are branches, in ascending order, and none of
/// them twice.
pub proof fn law_local_listing_complete(entries: Seq<BranchEntryView>, names: Seq<Seq<char>>)
    requires
        all_named(entries),
        forall|i: int, j: int| 0 <= i < j < entries.len() ==> entries[i] != entries[j],
        ascending(names),
        names.to_multiset() == listed_names(entries, BranchKind::Local).to_multiset(),
    ensures
        names.len() == entries.len(),
        names.no_duplicates(),
        forall|i: int, j: int|
            0 <= i < j < names.len() ==> name_le(names[i], names[j]) && names[i] != names[j],
{
    let all = entry_names(entries);
    lemma_local_listing_shows_all(entries);
    all.to_multiset_ensures();
    names.to_multiset_ensures();
    assert(all.no_duplicates());
    all.lemma_multiset_has_no_duplicates();
    names.lemma_multiset_has_no_duplicates_conv();
}

/// The listing is determined: two sequences in ascending order that hold the
/// same names, each as often as the other, are the same sequence.
pub proof fn law_listing_unique(a: Seq<Seq<char>>, b: Seq<Seq<char>>)
    requires
        ascending(a),
        ascending(b),
        a.to_multiset() == b.to_multiset(),
    ensures
        a == b,
{
    let le = |x: Seq<char>, y: Seq<char>| name_le(x, y);
    assert(vstd::relations::total_ordering(le)) by {
        assert forall|x: Seq<char>| #[trigger] le(x, x) by {
            lemma_name_le_reflexive(x);
        }
        assert forall|x: Seq<char>, y: Seq<char>| #[trigger]
            le(x, y) && #[trigger] le(y, x) implies x == y by {
            lemma_name_le_antisymmetric(x, y);
        }
        assert forall|x: Seq<char>, y: Seq<char>, z: Seq<char>| #[trigger]
            le(x, y) && #[trigger] le(y, z) implies le(x, z) by {
            lemma_name_le_transitive(x, y, z);
        }
        assert forall|x: Seq<char>, y: Seq<char>| #[trigger] le(x, y) || #[trigger] le(y, x) by {
            lemma_name_le_total(x, y);
        }
    }
    assert(vstd::relations::sorted_by(a, le));
    assert(vstd::relations::sorted_by(b, le));
    lemma_sorted_unique(a, b, le);
}

} // verus!
