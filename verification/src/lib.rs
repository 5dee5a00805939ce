//! Opening Git repositories, listing their branches and checking a branch out.
//!
//! The operations are `open_repo`, `get_repo`, `git_local_branches`,
//! `git_remote_branches` and `git_checkout_branch`. What they decide is in
//! `names`, `listing` and `checkout`, on plain values and with exact
//! contracts; what holds of every checkout is proved in `checkout_laws`; what
//! they ask of `git2` is in `engine`.

pub mod branch;
pub mod checkout;
pub mod checkout_laws;
pub mod engine;
pub mod error;
pub mod listing;
pub mod names;
pub mod repository;

pub use branch::{
    checkout_local_branch, git_checkout_branch, git_local_branches, git_remote_branches,
};
pub use error::{ErrorKind, GitError};
pub use names::BranchKind;
pub use repository::{get_repo, open_repo, RepoInfo};
