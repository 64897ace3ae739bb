use git_check::inspect::{classify_error, has_remote, inspect};
use git_check::repo::{render_entry, Repo};
use git_check::repo_state::RepoState;
use git_check::status::Status;

const CLEAN: &str = "nothing to commit, working tree clean";
const NOT_A_REPO: &str = "fatal: not a git repository (or any of the parent directories): .git\n";

#[test]
fn clean_status_with_remote_is_clean() {
    assert_eq!(inspect(CLEAN, "", "origin\n"), Status::Clean);
    assert_eq!(inspect("On branch main\nnothing to commit, working tree clean\n", "", "o"), Status::Clean);
}

#[test]
fn empty_remote_overrides_status_text() {
    assert_eq!(inspect(CLEAN, "", ""), Status::NoRemote);
    assert_eq!(inspect("HEAD detached at 1a2b3c4", "", ""), Status::NoRemote);
    assert_eq!(inspect("", "", ""), Status::NoRemote);
}

#[test]
fn not_a_repository_whatever_the_remote_says() {
    assert_eq!(inspect("", NOT_A_REPO, ""), Status::NoRepo);
    assert_eq!(inspect("", NOT_A_REPO, "origin\n"), Status::NoRepo);
    assert_eq!(inspect(CLEAN, NOT_A_REPO, "origin\n"), Status::NoRepo);
    assert_eq!(inspect(CLEAN, "not a git repository", ""), Status::NoRepo);
}

#[test]
fn other_errors_carry_their_text() {
    let error = "fatal: detected dubious ownership in repository at '/srv/x'\n";
    assert_eq!(inspect(CLEAN, error, "origin\n"), Status::QueryError(error.to_string()));
    assert_eq!(inspect(CLEAN, error, ""), Status::QueryError(error.to_string()));
    assert_eq!(inspect("", " ", "origin"), Status::QueryError(" ".to_string()));
}

#[test]
fn status_text_decides_when_nothing_else_does() {
    assert_eq!(inspect("HEAD detached at 1a2b3c4", "", "origin"), Status::DetachedHead);
    assert_eq!(inspect("Untracked files:", "", "origin"), Status::UntrackedFiles);
    assert_eq!(inspect("gibberish", "", "origin"), Status::Unrecognized("gibberish".to_string()));
}

#[test]
fn classify_error_of_each_kind() {
    assert_eq!(classify_error(""), None);
    assert_eq!(classify_error(NOT_A_REPO), Some(Status::NoRepo));
    assert_eq!(classify_error("boom"), Some(Status::QueryError("boom".to_string())));
    assert_eq!(classify_error("Not A Git Repository"), Some(Status::QueryError("Not A Git Repository".to_string())));
}

#[test]
fn has_remote_when_output_is_not_empty() {
    assert!(!has_remote(""));
    assert!(has_remote("origin\n"));
    assert!(has_remote("origin\nupstream\n"));
    assert!(has_remote("\n"));
}

#[test]
fn repo_new_keeps_path_and_name() {
    let repo = Repo::new("/home/u/src/tool", "tool", CLEAN, "", "origin\n");
    assert_eq!(repo.path, "/home/u/src/tool");
    assert_eq!(repo.name, "tool");
    assert_eq!(repo.status, Status::Clean);
    let broken = Repo::new("/tmp/x", "x", "", NOT_A_REPO, "");
    assert_eq!(broken.status, Status::NoRepo);
    let lonely = Repo::new("/tmp/y", "y", CLEAN, "", "");
    assert_eq!(lonely.status, Status::NoRemote);
}

#[test]
fn repo_state_new_keeps_name() {
    let state = RepoState::new("tool", "Untracked files:\n", "", "origin\n");
    assert_eq!(state.name, "tool");
    assert_eq!(state.status, Status::UntrackedFiles);
    let failed = RepoState::new("tool", "", "boom", "origin\n");
    assert_eq!(failed.status, Status::QueryError("boom".to_string()));
}

#[test]
fn name_and_content_is_the_name_without_text() {
    let repo = Repo::new("/p/tool", "tool", CLEAN, "", "origin\n");
    assert_eq!(repo.name_and_content(), "tool");
    let state = RepoState::new("tool", CLEAN, "", "");
    assert_eq!(state.name_and_content(), "tool");
}

#[test]
fn name_and_content_adds_the_carried_text() {
    let failed = Repo::new("/p/tool", "tool", "", "fatal: boom\n", "");
    assert_eq!(failed.name_and_content(), "tool:\nfatal: boom\n");
    let odd = RepoState::new("tool", "odd output", "", "origin");
    assert_eq!(odd.name_and_content(), "tool:\nodd output");
    let empty = RepoState::new("tool", "", "", "origin");
    assert_eq!(empty.status, Status::Unrecognized(String::new()));
    assert_eq!(empty.name_and_content(), "tool:\n");
}

#[test]
fn render_entry_of_each_shape() {
    assert_eq!(render_entry("a", &Status::NoRepo), "a");
    assert_eq!(render_entry("a", &Status::QueryError("e".to_string())), "a:\ne");
    assert_eq!(render_entry("a", &Status::Unrecognized("u".to_string())), "a:\nu");
}

#[test]
fn clones_are_equal_in_every_field() {
    let repo = Repo::new("/p/tool", "tool", "", "boom", "");
    let copy = repo.clone();
    assert_eq!(copy.path, repo.path);
    assert_eq!(copy.name, repo.name);
    assert_eq!(copy.status, repo.status);
    let state = RepoState::new("tool", "", "boom", "");
    let copy = state.clone();
    assert_eq!(copy.name, state.name);
    assert_eq!(copy.status, state.status);
}
