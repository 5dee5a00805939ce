use std::io::Write;
use std::path::Path;

use git2::build::CheckoutBuilder;
use git2::{BranchType, ObjectType, Oid, Repository, RepositoryInitOptions, Signature, Time};
use git_branches::branch::{
    checkout_local_branch, git_checkout_branch, git_local_branches, git_remote_branches,
};
use git_branches::error::ErrorKind;
use git_branches::repository::{get_repo, open_repo};
use tempfile::TempDir;

fn text(path: &Path) -> &str {
    path.to_str().expect("the temporary path is valid text")
}

fn init(dir: &TempDir) -> Repository {
    let mut options = RepositoryInitOptions::new();
    options.initial_head("main");
    Repository::init_opts(dir.path(), &options).unwrap()
}

fn init_bare(dir: &TempDir) -> Repository {
    let mut options = RepositoryInitOptions::new();
    options.initial_head("main").bare(true);
    Repository::init_opts(dir.path(), &options).unwrap()
}

/// Commits a tree that holds `file.txt` with `content`, and points `refname` at it.
fn commit(repo: &Repository, refname: &str, content: &str, parents: &[Oid]) -> Oid {
    let blob = repo.blob(content.as_bytes()).unwrap();
    let mut builder = repo.treebuilder(None).unwrap();
    builder.insert("file.txt", blob, 0o100644).unwrap();
    let tree = repo.find_tree(builder.write().unwrap()).unwrap();
    let who = Signature::new("Tester", "tester@example.com", &Time::new(1_700_000_000, 0)).unwrap();
    let parents: Vec<git2::Commit> =
        parents.iter().map(|id| repo.find_commit(*id).unwrap()).collect();
    let parents: Vec<&git2::Commit> = parents.iter().collect();
    repo.commit(Some(refname), &who, &who, "a commit", &tree, &parents).unwrap()
}

/// A repository on `main` with one commit, checked out.
fn with_main(dir: &TempDir) -> (Repository, Oid) {
    let repo = init(dir);
    let first = commit(&repo, "HEAD", "one\n", &[]);
    repo.checkout_head(Some(CheckoutBuilder::new().force())).unwrap();
    (repo, first)
}

fn write_file(dir: &Path, name: &str, content: &str) {
    let mut file = tempfile::NamedTempFile::new_in(dir).unwrap();
    file.write_all(content.as_bytes()).unwrap();
    file.persist(dir.join(name)).unwrap();
}

/// Whether `file.txt` in the working tree holds `content`.
fn working_file_is(dir: &TempDir, content: &str) -> bool {
    let on_disk = Oid::hash_file(ObjectType::Blob, dir.path().join("file.txt")).unwrap();
    on_disk == Oid::hash_object(ObjectType::Blob, content.as_bytes()).unwrap()
}

fn head_name(repo: &Repository) -> String {
    repo.find_reference("HEAD").unwrap().symbolic_target().unwrap().to_string()
}

fn local_branch_count(repo: &Repository) -> usize {
    repo.branches(Some(BranchType::Local)).unwrap().count()
}

fn is_clean(repo: &Repository) -> bool {
    repo.statuses(None).unwrap().is_empty()
}

#[test]
fn open_describes_a_repository() {
    let dir = TempDir::new().unwrap();
    let _ = with_main(&dir);
    let info = open_repo(text(dir.path())).unwrap();
    assert_eq!(Path::new(&info.path), dir.path().canonicalize().unwrap());
    assert_eq!(info.current_branch.as_deref(), Some("main"));
    assert!(!info.is_bare);
}

#[test]
fn open_resolves_relative_segments() {
    let dir = TempDir::new().unwrap();
    let (repo, first) = with_main(&dir);
    repo.branch("develop", &repo.find_commit(first).unwrap(), false).unwrap();
    repo.set_head("refs/heads/develop").unwrap();
    let roundabout = dir.path().join(".git").join("..");
    let info = open_repo(text(&roundabout)).unwrap();
    assert_eq!(Path::new(&info.path), dir.path().canonicalize().unwrap());
    assert_eq!(info.current_branch.as_deref(), Some("develop"));
}

#[test]
fn open_on_a_branch_without_commits_has_no_current_branch() {
    let dir = TempDir::new().unwrap();
    let _ = init(&dir);
    let info = open_repo(text(dir.path())).unwrap();
    assert_eq!(info.current_branch, None);
    assert!(!info.is_bare);
}

#[test]
fn open_on_a_detached_head_has_no_current_branch() {
    let dir = TempDir::new().unwrap();
    let (repo, first) = with_main(&dir);
    repo.set_head_detached(first).unwrap();
    let info = open_repo(text(dir.path())).unwrap();
    assert_eq!(info.current_branch, None);
}

#[test]
fn open_on_a_bare_repository() {
    let dir = TempDir::new().unwrap();
    let repo = init_bare(&dir);
    let info = open_repo(text(dir.path())).unwrap();
    assert!(info.is_bare);
    assert_eq!(info.current_branch, None);
    commit(&repo, "refs/heads/main", "one\n", &[]);
    let info = open_repo(text(dir.path())).unwrap();
    assert!(info.is_bare);
    assert_eq!(info.current_branch.as_deref(), Some("main"));
}

#[test]
fn open_of_a_missing_path_is_an_invalid_path() {
    let dir = TempDir::new().unwrap();
    let missing = dir.path().join("no-such-directory");
    let error = open_repo(text(&missing)).unwrap_err();
    assert_eq!(error.kind, ErrorKind::InvalidPath);
    assert!(error.message.starts_with("路径无效: "));
    assert!(error.message.len() > "路径无效: ".len());
}

#[test]
fn open_of_a_directory_without_repository_is_not_a_repository() {
    let dir = TempDir::new().unwrap();
    let error = open_repo(text(dir.path())).unwrap_err();
    assert_eq!(error.kind, ErrorKind::NotARepository);
    assert!(error.message.starts_with("不是有效的 Git 仓库: "));
    assert!(error.message.len() > "不是有效的 Git 仓库: ".len());
}

#[test]
fn get_repo_hands_out_the_repository() {
    let dir = TempDir::new().unwrap();
    let (_, first) = with_main(&dir);
    let repo = get_repo(text(dir.path())).unwrap();
    assert!(!repo.is_bare());
    assert_eq!(repo.head().unwrap().target(), Some(first));
}

#[test]
fn get_repo_fails_as_open_does() {
    let dir = TempDir::new().unwrap();
    let missing = dir.path().join("nothing");
    for path in [dir.path(), missing.as_path()] {
        let opened = open_repo(text(path)).unwrap_err();
        let got = get_repo(text(path)).err().unwrap();
        assert_eq!(got.kind, opened.kind);
        assert_eq!(got.message, opened.message);
    }
}

#[test]
fn local_branches_are_listed_in_ascending_order() {
    let dir = TempDir::new().unwrap();
    let (repo, first) = with_main(&dir);
    let tip = repo.find_commit(first).unwrap();
    for name in ["develop", "feature/b", "feature/a", "Zed", "hotfix"] {
        repo.branch(name, &tip, false).unwrap();
    }
    let listing = git_local_branches(text(dir.path())).unwrap();
    assert_eq!(listing, ["Zed", "develop", "feature/a", "feature/b", "hotfix", "main"]);
    assert_eq!(listing.len(), local_branch_count(&repo));
    for pair in listing.windows(2) {
        assert!(pair[0] < pair[1]);
    }
}

#[test]
fn local_branches_of_a_repository_without_commits_are_none() {
    let dir = TempDir::new().unwrap();
    let _ = init(&dir);
    assert!(git_local_branches(text(dir.path())).unwrap().is_empty());
    assert!(git_remote_branches(text(dir.path())).unwrap().is_empty());
}

#[test]
fn local_listing_leaves_remote_branches_out() {
    let dir = TempDir::new().unwrap();
    let (repo, first) = with_main(&dir);
    repo.reference("refs/remotes/origin/main", first, false, "fetch").unwrap();
    assert_eq!(git_local_branches(text(dir.path())).unwrap(), ["main"]);
}

#[test]
fn remote_branches_are_listed_without_remote_heads() {
    let dir = TempDir::new().unwrap();
    let (repo, first) = with_main(&dir);
    for name in ["origin/main", "origin/develop", "upstream/main", "origin/feature/x"] {
        repo.reference(&format!("refs/remotes/{}", name), first, false, "fetch").unwrap();
    }
    repo.reference_symbolic("refs/remotes/origin/HEAD", "refs/remotes/origin/main", false, "fetch")
        .unwrap();
    repo.reference_symbolic(
        "refs/remotes/upstream/HEAD",
        "refs/remotes/upstream/main",
        false,
        "fetch",
    )
    .unwrap();
    let listing = git_remote_branches(text(dir.path())).unwrap();
    assert_eq!(listing, ["origin/develop", "origin/feature/x", "origin/main", "upstream/main"]);
    assert!(listing.iter().all(|name| !name.ends_with("/HEAD")));
}

#[test]
fn branches_of_a_bare_repository_are_listed() {
    let dir = TempDir::new().unwrap();
    let repo = init_bare(&dir);
    let first = commit(&repo, "refs/heads/main", "one\n", &[]);
    repo.branch("archive", &repo.find_commit(first).unwrap(), false).unwrap();
    repo.reference("refs/remotes/origin/main", first, false, "fetch").unwrap();
    assert_eq!(git_local_branches(text(dir.path())).unwrap(), ["archive", "main"]);
    assert_eq!(git_remote_branches(text(dir.path())).unwrap(), ["origin/main"]);
}

#[test]
fn listing_fails_where_opening_fails() {
    let dir = TempDir::new().unwrap();
    let missing = dir.path().join("nothing");
    assert_eq!(git_local_branches(text(&missing)).unwrap_err().kind, ErrorKind::InvalidPath);
    assert_eq!(git_remote_branches(text(&missing)).unwrap_err().kind, ErrorKind::InvalidPath);
    assert_eq!(git_local_branches(text(dir.path())).unwrap_err().kind, ErrorKind::NotARepository);
    assert_eq!(git_remote_branches(text(dir.path())).unwrap_err().kind, ErrorKind::NotARepository);
}

#[test]
fn checkout_switches_to_a_local_branch() {
    let dir = TempDir::new().unwrap();
    let (repo, first) = with_main(&dir);
    let second = commit(&repo, "refs/heads/develop", "two\n", &[first]);
    assert!(working_file_is(&dir, "one\n"));
    assert_eq!(git_checkout_branch(text(dir.path()), "develop").unwrap(), "develop");
    assert_eq!(head_name(&repo), "refs/heads/develop");
    assert_eq!(repo.head().unwrap().target(), Some(second));
    assert!(working_file_is(&dir, "two\n"));
    assert!(is_clean(&repo));
    assert_eq!(open_repo(text(dir.path())).unwrap().current_branch.as_deref(), Some("develop"));
}

#[test]
fn checkout_twice_is_as_good_as_once() {
    let dir = TempDir::new().unwrap();
    let (repo, first) = with_main(&dir);
    commit(&repo, "refs/heads/develop", "two\n", &[first]);
    repo.set_head("refs/heads/develop").unwrap();
    repo.checkout_head(Some(CheckoutBuilder::new().force())).unwrap();

    assert_eq!(git_checkout_branch(text(dir.path()), "main").unwrap(), "main");
    assert_eq!(head_name(&repo), "refs/heads/main");
    assert!(working_file_is(&dir, "one\n"));
    assert!(is_clean(&repo));
    let branches = local_branch_count(&repo);

    assert_eq!(git_checkout_branch(text(dir.path()), "main").unwrap(), "main");
    assert_eq!(head_name(&repo), "refs/heads/main");
    assert_eq!(repo.head().unwrap().target(), Some(first));
    assert!(working_file_is(&dir, "one\n"));
    assert!(is_clean(&repo));
    assert_eq!(local_branch_count(&repo), branches);
}

#[test]
fn checkout_prefers_the_local_branch_of_that_name() {
    let dir = TempDir::new().unwrap();
    let (repo, first) = with_main(&dir);
    let local = commit(&repo, "refs/heads/origin/x", "local\n", &[first]);
    let remote = commit(&repo, "refs/remotes/origin/x", "remote\n", &[first]);
    assert_ne!(local, remote);
    let branches = local_branch_count(&repo);

    assert_eq!(git_checkout_branch(text(dir.path()), "origin/x").unwrap(), "origin/x");
    assert_eq!(head_name(&repo), "refs/heads/origin/x");
    assert_eq!(repo.head().unwrap().target(), Some(local));
    assert!(working_file_is(&dir, "local\n"));
    assert_eq!(local_branch_count(&repo), branches);
    assert!(repo.find_branch("x", BranchType::Local).is_err());
}

#[test]
fn checkout_of_a_remote_branch_creates_the_local_one() {
    let dir = TempDir::new().unwrap();
    let (repo, first) = with_main(&dir);
    let remote = commit(&repo, "refs/remotes/origin/feature", "feature\n", &[first]);
    assert!(repo.find_branch("feature", BranchType::Local).is_err());

    assert_eq!(git_checkout_branch(text(dir.path()), "origin/feature").unwrap(), "feature");
    let created = repo.find_branch("feature", BranchType::Local).unwrap();
    assert_eq!(created.get().target(), Some(remote));
    assert_eq!(head_name(&repo), "refs/heads/feature");
    assert!(working_file_is(&dir, "feature\n"));
    assert!(is_clean(&repo));
    assert_eq!(git_local_branches(text(dir.path())).unwrap(), ["feature", "main"]);

    assert_eq!(git_checkout_branch(text(dir.path()), "origin/feature").unwrap(), "feature");
    assert_eq!(git_local_branches(text(dir.path())).unwrap(), ["feature", "main"]);
    assert_eq!(head_name(&repo), "refs/heads/feature");
    assert_eq!(repo.head().unwrap().target(), Some(remote));
}

#[test]
fn checkout_of_a_remote_branch_reuses_the_local_one_as_it_is() {
    let dir = TempDir::new().unwrap();
    let (repo, first) = with_main(&dir);
    let local = commit(&repo, "refs/heads/feature", "older\n", &[first]);
    let remote = commit(&repo, "refs/remotes/origin/feature", "newer\n", &[local]);

    assert_eq!(git_checkout_branch(text(dir.path()), "origin/feature").unwrap(), "feature");
    assert_eq!(head_name(&repo), "refs/heads/feature");
    assert_eq!(repo.head().unwrap().target(), Some(local));
    assert!(working_file_is(&dir, "older\n"));
    assert_eq!(repo.find_reference("refs/remotes/origin/feature").unwrap().target(), Some(remote));
}

#[test]
fn checkout_of_a_nested_remote_name_keeps_all_behind_the_first_slash() {
    let dir = TempDir::new().unwrap();
    let (repo, first) = with_main(&dir);
    let remote = commit(&repo, "refs/remotes/origin/feature/login", "login\n", &[first]);
    assert_eq!(
        git_checkout_branch(text(dir.path()), "origin/feature/login").unwrap(),
        "feature/login"
    );
    assert_eq!(head_name(&repo), "refs/heads/feature/login");
    assert_eq!(repo.head().unwrap().target(), Some(remote));
}

#[test]
fn checkout_of_an_unknown_branch_changes_nothing() {
    let dir = TempDir::new().unwrap();
    let (repo, first) = with_main(&dir);
    write_file(dir.path(), "file.txt", "edited\n");
    let branches = local_branch_count(&repo);

    let error = git_checkout_branch(text(dir.path()), "does-not-exist").unwrap_err();
    assert_eq!(error.kind, ErrorKind::BranchNotFound);
    assert_eq!(error.message, "分支不存在: does-not-exist");
    assert_eq!(head_name(&repo), "refs/heads/main");
    assert_eq!(repo.head().unwrap().target(), Some(first));
    assert!(working_file_is(&dir, "edited\n"));
    assert_eq!(local_branch_count(&repo), branches);
}

#[test]
fn checkout_refuses_to_overwrite_a_local_modification() {
    let dir = TempDir::new().unwrap();
    let (repo, first) = with_main(&dir);
    commit(&repo, "refs/heads/develop", "two\n", &[first]);
    write_file(dir.path(), "file.txt", "edited\n");

    let error = git_checkout_branch(text(dir.path()), "develop").unwrap_err();
    assert_eq!(error.kind, ErrorKind::CheckoutConflict);
    assert!(!error.message.is_empty());
    assert_eq!(head_name(&repo), "refs/heads/main");
    assert_eq!(repo.head().unwrap().target(), Some(first));
    assert!(working_file_is(&dir, "edited\n"));
}

#[test]
fn checkout_keeps_a_local_modification_that_does_not_conflict() {
    let dir = TempDir::new().unwrap();
    let (repo, first) = with_main(&dir);
    repo.branch("same", &repo.find_commit(first).unwrap(), false).unwrap();
    write_file(dir.path(), "file.txt", "edited\n");

    assert_eq!(git_checkout_branch(text(dir.path()), "same").unwrap(), "same");
    assert_eq!(head_name(&repo), "refs/heads/same");
    assert!(working_file_is(&dir, "edited\n"));
}

#[test]
fn checkout_fails_where_the_local_branch_cannot_be_created() {
    let dir = TempDir::new().unwrap();
    let (repo, first) = with_main(&dir);
    repo.branch("topic/sub", &repo.find_commit(first).unwrap(), false).unwrap();
    commit(&repo, "refs/remotes/origin/topic", "topic\n", &[first]);

    let error = git_checkout_branch(text(dir.path()), "origin/topic").unwrap_err();
    assert_eq!(error.kind, ErrorKind::RefOperationFailed);
    assert!(!error.message.is_empty());
    assert_eq!(head_name(&repo), "refs/heads/main");
    assert!(working_file_is(&dir, "one\n"));
    assert!(repo.find_branch("topic", BranchType::Local).is_err());
}

#[test]
fn checkout_in_a_bare_repository_fails_and_keeps_head() {
    let dir = TempDir::new().unwrap();
    let repo = init_bare(&dir);
    let first = commit(&repo, "refs/heads/main", "one\n", &[]);
    repo.branch("develop", &repo.find_commit(first).unwrap(), false).unwrap();

    let error = git_checkout_branch(text(dir.path()), "develop").unwrap_err();
    assert_eq!(error.kind, ErrorKind::RefOperationFailed);
    assert_eq!(head_name(&repo), "refs/heads/main");
}

#[test]
fn checkout_fails_where_opening_fails() {
    let dir = TempDir::new().unwrap();
    let missing = dir.path().join("nothing");
    let error = git_checkout_branch(text(&missing), "main").unwrap_err();
    assert_eq!(error.kind, ErrorKind::InvalidPath);
    let error = git_checkout_branch(text(dir.path()), "main").unwrap_err();
    assert_eq!(error.kind, ErrorKind::NotARepository);
}

#[test]
fn checkout_of_a_local_branch_on_an_open_repository() {
    let dir = TempDir::new().unwrap();
    let (repo, first) = with_main(&dir);
    let second = commit(&repo, "refs/heads/develop", "two\n", &[first]);
    let handle = get_repo(text(dir.path())).unwrap();

    checkout_local_branch(&handle, "develop").unwrap();
    assert_eq!(head_name(&repo), "refs/heads/develop");
    assert_eq!(repo.head().unwrap().target(), Some(second));
    assert!(working_file_is(&dir, "two\n"));

    let error = checkout_local_branch(&handle, "missing").unwrap_err();
    assert_eq!(error.kind, ErrorKind::RefOperationFailed);
    assert_eq!(head_name(&repo), "refs/heads/develop");
}

#[test]
fn checkout_of_a_local_branch_reports_a_conflict() {
    let dir = TempDir::new().unwrap();
    let (repo, first) = with_main(&dir);
    commit(&repo, "refs/heads/develop", "two\n", &[first]);
    write_file(dir.path(), "file.txt", "edited\n");
    let handle = get_repo(text(dir.path())).unwrap();

    let error = checkout_local_branch(&handle, "develop").unwrap_err();
    assert_eq!(error.kind, ErrorKind::CheckoutConflict);
    assert_eq!(head_name(&repo), "refs/heads/main");
    assert!(working_file_is(&dir, "edited\n"));
}
