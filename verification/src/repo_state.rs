//! The name and status of a repository, without its location.

use vstd::prelude::*;
use crate::inspect::{inspect, inspect_outputs};
use crate::repo::{entry_text, render_entry};
use crate::status::{Status, StatusView};

verus! {

/// A repository's name with the status that was found for it.
#[derive(Debug)]
pub struct RepoState {
    /// The name of the directory.
    pub name: String,
    /// The status of the repository in it.
    pub status: Status,
}

/// What a [`RepoState`] stands for in contracts.
pub ghost struct RepoStateView {
    pub name: Seq<char>,
    pub status: StatusView,
}

impl View for RepoState {
    type V = RepoStateView;

    open spec fn view(&self) -> RepoStateView {
        RepoStateView { name: self.name@, status: self.status@ }
    }
}

impl RepoState {
    /// The state of the repository called `name`, from what the two queries
    /// printed: `status` and `error` are the standard output and standard
    /// error of `git status`, `remote` is the standard output of
    /// `git remote`.
    pub fn new(name: &str, status: &str, error: &str, remote: &str) -> (state: RepoState)
        ensures
            state@ == (RepoStateView {
                name: name@,
                status: inspect_outputs(status@, error@, remote@),
            }),
    {
        RepoState { name: name.to_owned(), status: inspect(status, error, remote) }
    }

    /// The name of the repository, followed by the text that its status
    /// carries, if any.
    pub fn name_and_content(&self) -> (entry: String)
        ensures
            entry@ == entry_text(self@.name, self@.status),
    {
        render_entry(self.name.as_str(), &self.status)
    }
}

impl Clone for RepoState {
    fn clone(&self) -> (copy: RepoState)
        ensures
            copy == *self,
    {
        RepoState { name: self.name.clone(), status: self.status.clone() }
    }
}

} // verus!
