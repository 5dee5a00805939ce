//! Branch names as text: the synthetic remote `HEAD` pointer, the local name
//! that stands behind a remote-tracking name, and fully qualified ref names.
//!
//! Every contract here speaks of a name through its view, a `Seq<char>`.

use vstd::prelude::*;
use vstd::std_specs::iter::IteratorSpec;
use vstd::string::*;

verus! {

/// The two kinds of branch that a repository holds.
#[derive(Clone, Copy, Debug, PartialEq, Eq, Structural)]
pub enum BranchKind {
    /// A branch of the repository itself, under `refs/heads/`.
    Local,
    /// A remote-tracking branch, under `refs/remotes/`.
    Remote,
}

/// The separator between a remote's alias and the branch name behind it.
pub open spec fn separator() -> char {
    '/'
}

/// The text `/HEAD`, which ends the name of a remote's default-branch pointer.
pub open spec fn remote_head_suffix() -> Seq<char> {
    seq!['/', 'H', 'E', 'A', 'D']
}

/// Whether `text` begins with `prefix`.
pub open spec fn starts_with(text: Seq<char>, prefix: Seq<char>) -> bool {
    prefix.len() <= text.len() && text.take(prefix.len() as int) == prefix
}

/// Whether `text` ends with `suffix`.
pub open spec fn ends_with(text: Seq<char>, suffix: Seq<char>) -> bool {
    suffix.len() <= text.len() && text.skip(text.len() - suffix.len()) == suffix
}

/// Whether `name` names a remote's `HEAD` pointer, such as `origin/HEAD`.
pub open spec fn is_remote_head(name: Seq<char>) -> bool {
    ends_with(name, remote_head_suffix())
}

/// How many characters stand before the first separator of `name`; the
/// length of `name` if it holds none.
pub open spec fn separator_index(name: Seq<char>) -> int
    decreases name.len(),
{
    if name.len() == 0 || name[0] == separator() {
        0
    } else {
        1 + separator_index(name.drop_first())
    }
}

/// The local branch name behind `name`: what follows the first separator,
/// or all of `name` where there is no separator or nothing follows it.
pub open spec fn local_branch_name(name: Seq<char>) -> Seq<char> {
    let at = separator_index(name);
    if at + 1 < name.len() {
        name.skip(at + 1)
    } else {
        name
    }
}

/// `refs/heads/<name>`: the ref of the local branch `name`.
pub open spec fn local_ref(name: Seq<char>) -> Seq<char> {
    "refs/heads/"@ + name
}

/// `refs/remotes/<name>`: the ref of the remote-tracking branch `name`.
pub open spec fn remote_ref(name: Seq<char>) -> Seq<char> {
    "refs/remotes/"@ + name
}

/// `separator_index` is the position of the first separator: it lies within
/// `name` or at its end, no separator stands before it, and one stands at it
/// unless it is the end.
pub proof fn lemma_separator_index(name: Seq<char>)
    ensures
        0 <= separator_index(name) <= name.len(),
        forall|i: int| 0 <= i < separator_index(name) ==> name[i] != separator(),
        separator_index(name) < name.len() ==> name[separator_index(name)] == separator(),
    decreases name.len(),
{
    if name.len() == 0 || name[0] == separator() {
    } else {
        let rest = name.drop_first();
        lemma_separator_index(rest);
        assert forall|i: int| 0 <= i < separator_index(name) implies name[i] != separator() by {
            if i > 0 {
                assert(name[i] == rest[i - 1]);
            }
        }
        if separator_index(name) < name.len() {
            assert(name[separator_index(name)] == rest[separator_index(rest)]);
        }
    }
}

/// A position that holds a separator, with none before it, is the
/// `separator_index`.
pub proof fn lemma_separator_index_is(name: Seq<char>, at: int)
    requires
        0 <= at <= name.len(),
        forall|i: int| 0 <= i < at ==> name[i] != separator(),
        at < name.len() ==> name[at] == separator(),
    ensures
        separator_index(name) == at,
    decreases name.len(),
{
    if name.len() == 0 || name[0] == separator() {
    } else {
        let rest = name.drop_first();
        assert forall|i: int| 0 <= i < at - 1 implies rest[i] != separator() by {
            assert(rest[i] == name[i + 1]);
        }
        lemma_separator_index_is(rest, at - 1);
    }
}

/// The local name behind a name that is not empty is not empty, and it is a
/// suffix of that name.
pub proof fn lemma_local_branch_name_nonempty(name: Seq<char>)
    ensures
        name.len() > 0 ==> local_branch_name(name).len() > 0,
        local_branch_name(name).len() <= name.len(),
        local_branch_name(name) == name.skip(name.len() - local_branch_name(name).len()),
{
    lemma_separator_index(name);
    assert(name.skip(0) =~= name);
}

/// Tells whether `name` ends in `/HEAD`.
pub fn is_remote_head_name(name: &str) -> (head: bool)
    ensures
        head == is_remote_head(name@),
{
    let length = name.unicode_len();
    if length < 5 {
        return false;
    }
    let start = length - 5;
    let head = name.get_char(start) == '/' && name.get_char(start + 1) == 'H' && name.get_char(
        start + 2,
    ) == 'E' && name.get_char(start + 3) == 'A' && name.get_char(start + 4) == 'D';
    proof {
        let tail = name@.skip(start as int);
        if head {
            assert(tail =~= remote_head_suffix());
        } else {
            assert(tail[0] == name@[start as int]);
            assert(tail[1] == name@[start + 1]);
            assert(tail[2] == name@[start + 2]);
            assert(tail[3] == name@[start + 3]);
            assert(tail[4] == name@[start + 4]);
        }
    }
    head
}

/// Counts the characters of `name` that stand before its first separator.
fn find_separator(name: &str) -> (at: usize)
    ensures
        at == separator_index(name@),
{
    let length = name.unicode_len();
    let mut chars = name.chars();
    let mut at: usize = 0;
    loop
        invariant
            at <= length == name@.len(),
            chars.obeys_prophetic_iter_laws(),
            chars.remaining() == name@.skip(at as int),
            forall|i: int| 0 <= i < at ==> name@[i] != separator(),
        decreases length - at,
    {
        match chars.next() {
            None => {
                proof {
                    lemma_separator_index_is(name@, at as int);
                }
                return at;
            },
            Some(c) => {
                assert(c == name@[at as int]);
                if c == '/' {
                    proof {
                        lemma_separator_index_is(name@, at as int);
                    }
                    return at;
                }
                assert(name@.skip(at as int).drop_first() =~= name@.skip(at + 1));
                at = at + 1;
            },
        }
    }
}

/// The name of the local branch that stands behind `branch_name`.
///
/// For a remote-tracking name such as `origin/feature` this is `feature`: the
/// text behind the first `/`. A name without `/`, or with nothing behind it,
/// is returned whole, so the result is empty only for an empty name.
pub fn local_name_of(branch_name: &str) -> (local: String)
    ensures
        local@ == local_branch_name(branch_name@),
        branch_name@.len() > 0 ==> local@.len() > 0,
{
    proof {
        lemma_local_branch_name_nonempty(branch_name@);
    }
    let length = branch_name.unicode_len();
    let at = find_separator(branch_name);
    if at < length && at + 1 < length {
        let rest = branch_name.substring_char(at + 1, length);
        assert(rest@ =~= branch_name@.skip(at + 1));
        rest.to_owned()
    } else {
        branch_name.to_owned()
    }
}

/// Builds `refs/heads/<name>`.
pub fn local_ref_name(name: &str) -> (refname: String)
    ensures
        refname@ == local_ref(name@),
{
    "refs/heads/".to_owned().concat(name)
}

/// Builds `refs/remotes/<name>`.
pub fn remote_ref_name(name: &str) -> (refname: String)
    ensures
        refname@ == remote_ref(name@),
{
    "refs/remotes/".to_owned().concat(name)
}

} // verus!
