//! From the output of `git status` and `git remote` to a [`Status`]: a failed
//! query comes first, then a missing remote, then what the status text says.

use vstd::prelude::*;
use crate::status::{
    classify_status_text, Status, StatusView, AHEAD_MARKER, CLEAN_MARKER, DETACHED_HEAD_MARKER,
    DIVERGED_MARKER, STAGED_MARKER, UNSTAGED_MARKER, UNTRACKED_MARKER,
};
use crate::text::{contains, is_substring, occurs_at};

verus! {

/// Printed on standard error when the directory is not inside a repository.
pub const NOT_A_REPO_MARKER: &'static str = "not a git repository";

/// What the standard error of `git status` says: nothing when it is empty,
/// `NoRepo` when it holds the marker, and otherwise an error that carries
/// the whole text.
pub open spec fn error_status(error: Seq<char>) -> Option<StatusView> {
    if error.len() == 0 {
        None
    } else if is_substring(NOT_A_REPO_MARKER@, error) {
        Some(StatusView::NoRepo)
    } else {
        Some(StatusView::QueryError(error))
    }
}

/// Whether the output of `git remote` names a remote: it does when it is not
/// empty.
pub open spec fn remote_present(remote: Seq<char>) -> bool {
    remote.len() > 0
}

/// The status of a repository, given what `git status` printed on standard
/// output (`status`) and on standard error (`error`) and what `git remote`
/// printed on standard output (`remote`).
pub open spec fn inspect_outputs(
    status: Seq<char>,
    error: Seq<char>,
    remote: Seq<char>,
) -> StatusView {
    match error_status(error) {
        Some(failure) => failure,
        None => if remote_present(remote) {
            classify_status_text(status)
        } else {
            StatusView::NoRemote
        },
    }
}

/// Classifies the standard error of `git status`. `None` means that the
/// query succeeded.
pub fn classify_error(error: &str) -> (failure: Option<Status>)
    ensures
        failure is Some == error_status(error@) is Some,
        failure matches Some(status) ==> error_status(error@) == Some(status@),
{
    if error.is_empty() {
        None
    } else if contains(error, NOT_A_REPO_MARKER) {
        Some(Status::NoRepo)
    } else {
        Some(Status::QueryError(error.to_owned()))
    }
}

/// Whether the output of `git remote` names a remote.
pub fn has_remote(remote: &str) -> (present: bool)
    ensures
        present == remote_present(remote@),
{
    !remote.is_empty()
}

/// Decides the status of one repository from the output of the two queries.
pub fn inspect(status: &str, error: &str, remote: &str) -> (found: Status)
    ensures
        found@ == inspect_outputs(status@, error@, remote@),
{
    match classify_error(error) {
        Some(failure) => failure,
        None => {
            if has_remote(remote) {
                Status::from_str(status).unwrap()
            } else {
                Status::NoRemote
            }
        },
    }
}

/// Without an error and with a remote, a status text that holds the clean
/// marker and none of the markers that are tried before it gives `Clean`.
pub proof fn lemma_clean_text_is_clean(status: Seq<char>, error: Seq<char>, remote: Seq<char>)
    requires
        error.len() == 0,
        remote.len() > 0,
        is_substring(CLEAN_MARKER@, status),
        !is_substring(DETACHED_HEAD_MARKER@, status),
        !is_substring(UNSTAGED_MARKER@, status),
        !is_substring(STAGED_MARKER@, status),
        !is_substring(DIVERGED_MARKER@, status),
        !is_substring(AHEAD_MARKER@, status),
        !is_substring(UNTRACKED_MARKER@, status),
    ensures
        inspect_outputs(status, error, remote) == StatusView::Clean,
{
}

/// A repository without a remote is `NoRemote`, whatever its status text
/// says.
pub proof fn lemma_missing_remote_overrides_status(status: Seq<char>)
    ensures
        inspect_outputs(status, Seq::empty(), Seq::empty()) == StatusView::NoRemote,
{
}

/// An error text that holds the marker gives `NoRepo`, whatever the two
/// queries printed on standard output.
pub proof fn lemma_not_a_repo_overrides_outputs(
    status: Seq<char>,
    error: Seq<char>,
    remote: Seq<char>,
)
    requires
        is_substring(NOT_A_REPO_MARKER@, error),
    ensures
        inspect_outputs(status, error, remote) == StatusView::NoRepo,
{
    reveal_strlit("not a git repository");
    let at = choose|at: int| occurs_at(NOT_A_REPO_MARKER@, error, at);
    assert(occurs_at(NOT_A_REPO_MARKER@, error, at));
}

} // verus!
