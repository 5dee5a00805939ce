use git_branches::repository::{HeadInfo, RepoInfo};

fn head(is_branch: bool, shorthand: Option<&str>) -> Option<HeadInfo> {
    Some(HeadInfo { is_branch, shorthand: shorthand.map(String::from) })
}

#[test]
fn description_keeps_path_and_bareness() {
    let info = RepoInfo::describe("/srv/repo".to_string(), None, true);
    assert_eq!(info.path, "/srv/repo");
    assert!(info.is_bare);
    let info = RepoInfo::describe("/home/me/work".to_string(), head(true, Some("main")), false);
    assert_eq!(info.path, "/home/me/work");
    assert!(!info.is_bare);
}

#[test]
fn current_branch_is_the_short_name_of_the_branch_under_head() {
    let info = RepoInfo::describe("/r".to_string(), head(true, Some("main")), false);
    assert_eq!(info.current_branch.as_deref(), Some("main"));
    let info = RepoInfo::describe("/r".to_string(), head(true, Some("feature/login")), false);
    assert_eq!(info.current_branch.as_deref(), Some("feature/login"));
}

#[test]
fn detached_head_has_no_current_branch() {
    let info = RepoInfo::describe("/r".to_string(), head(false, Some("HEAD")), false);
    assert_eq!(info.current_branch, None);
    let info = RepoInfo::describe("/r".to_string(), head(false, Some("origin/main")), false);
    assert_eq!(info.current_branch, None);
}

#[test]
fn unresolved_head_has_no_current_branch() {
    let info = RepoInfo::describe("/r".to_string(), None, false);
    assert_eq!(info.current_branch, None);
}

#[test]
fn branch_whose_name_is_not_text_gives_no_current_branch() {
    let info = RepoInfo::describe("/r".to_string(), head(true, None), false);
    assert_eq!(info.current_branch, None);
}
