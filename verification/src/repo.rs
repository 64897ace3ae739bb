//! One inspected directory: where it is, what it is called and what state
//! it is in.

use vstd::prelude::*;
use crate::inspect::{inspect, inspect_outputs};
use crate::listing::parse_sizes;
use crate::sizes::{classify_sizes, format_sizes, listing_summary};
use crate::status::{Status, StatusView};

verus! {

/// A directory with the status that was found for it.
#[derive(Debug)]
pub struct Repo {
    /// The path of the directory.
    pub path: String,
    /// The name of the directory.
    pub name: String,
    /// The status of the repository in it.
    pub status: Status,
}

/// What a [`Repo`] stands for in contracts.
pub ghost struct RepoView {
    pub path: Seq<char>,
    pub name: Seq<char>,
    pub status: StatusView,
}

impl View for Repo {
    type V = RepoView;

    open spec fn view(&self) -> RepoView {
        RepoView { path: self.path@, name: self.name@, status: self.status@ }
    }
}

/// How a repository of the given name and status reads as a member of its
/// group: the name alone, or, where the status carries text, the name, a
/// colon, a line break and that text.
pub open spec fn entry_text(name: Seq<char>, status: StatusView) -> Seq<char> {
    match status {
        StatusView::QueryError(content) => name + ":\n"@ + content,
        StatusView::Unrecognized(content) => name + ":\n"@ + content,
        _ => name,
    }
}

/// Writes the entry of a repository of the given name and status.
pub fn render_entry(name: &str, status: &Status) -> (entry: String)
    ensures
        entry@ == entry_text(name@, status@),
{
    let mut entry = name.to_owned();
    match status {
        Status::QueryError(content) | Status::Unrecognized(content) => {
            entry.append(":\n");
            entry.append(content.as_str());
        },
        _ => {},
    }
    entry
}

impl Repo {
    /// The record for the directory at `path`, called `name`, from what the
    /// two queries printed there: `status` and `error` are the standard
    /// output and standard error of `git status`, `remote` is the standard
    /// output of `git remote`.
    pub fn new(path: &str, name: &str, status: &str, error: &str, remote: &str) -> (repo: Repo)
        ensures
            repo@ == (RepoView {
                path: path@,
                name: name@,
                status: inspect_outputs(status@, error@, remote@),
            }),
    {
        Repo { path: path.to_owned(), name: name.to_owned(), status: inspect(status, error, remote) }
    }

    /// The name of the repository, followed by the text that its status
    /// carries, if any. The label of the status is not part of it.
    pub fn name_and_content(&self) -> (entry: String)
        ensures
            entry@ == entry_text(self@.name, self@.status),
    {
        render_entry(self.name.as_str(), &self.status)
    }

    /// The shell command that lists the files under this repository's path
    /// with their sizes in bytes, one per line.
    pub fn file_sizes_command(&self) -> (command: String)
        ensures
            command@ == "find "@ + self@.path + " -type f -exec du -ab {} +"@,
    {
        let mut command = "find ".to_owned();
        command.append(self.path.as_str());
        command.append(" -type f -exec du -ab {} +");
        command
    }

    /// How many of this repository's files are code-sized, larger, or too
    /// large for hosting, read off the `listing` that the command of
    /// [`Repo::file_sizes_command`] printed. `None` where the listing names
    /// no file or cannot be read.
    pub fn file_sizes(&self, listing: &str) -> (summary: Option<String>)
        ensures
            match listing_summary(listing@) {
                Some(text) => summary matches Some(written) && written@ == text,
                None => summary is None,
            },
    {
        match parse_sizes(listing) {
            Some(sizes) => {
                if sizes.len() == 0 {
                    None
                } else {
                    let classes = classify_sizes(&sizes);
                    Some(
                        format_sizes(
                            classes.small.as_slice(),
                            classes.large.as_slice(),
                            classes.very_large.as_slice(),
                        ),
                    )
                }
            },
            None => None,
        }
    }
}

impl Clone for Repo {
    fn clone(&self) -> (copy: Repo)
        ensures
            copy == *self,
    {
        Repo { path: self.path.clone(), name: self.name.clone(), status: self.status.clone() }
    }
}

} // verus!
