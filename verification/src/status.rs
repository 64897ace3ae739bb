//! The states a working copy can be in, and the rules that read a state off
//! the text that `git status` prints.

use vstd::prelude::*;
use crate::text::{chars_of, is_substring, occurs_in};

verus! {

/// Printed when `HEAD` points at a commit instead of a branch.
pub const DETACHED_HEAD_MARKER: &'static str = "HEAD detached";

/// Printed above the list of modified files that are not staged.
pub const UNSTAGED_MARKER: &'static str = "not staged for commit";

/// Printed above the list of staged files.
pub const STAGED_MARKER: &'static str = "Changes to be committed";

/// Printed when the branch and its upstream each have commits of their own.
pub const DIVERGED_MARKER: &'static str = "have diverged";

/// Printed when the branch has commits that its upstream lacks.
pub const AHEAD_MARKER: &'static str = "is ahead of";

/// Printed above the list of untracked files.
pub const UNTRACKED_MARKER: &'static str = "Untracked files";

/// Printed when there is nothing to commit.
pub const CLEAN_MARKER: &'static str = "nothing to commit, working tree clean";

/// Which variant a [`Status`] is, without the text it may carry. Reports
/// group repositories by this value.
#[derive(Clone, Copy, Debug, PartialEq, Eq, Hash, Structural)]
pub enum StatusKind {
    /// Not a git repository.
    NoRepo,
    /// The status query failed.
    QueryError,
    /// No remote.
    NoRemote,
    /// Detached head.
    DetachedHead,
    /// Staged or unstaged modifications.
    UncommittedChanges,
    /// Branch and upstream have diverged.
    DivergedFromRemote,
    /// The branch is ahead of its upstream.
    UnpushedChanges,
    /// Untracked files.
    UntrackedFiles,
    /// Nothing to commit and nothing to push.
    Clean,
    /// A status text that no rule matches.
    Unrecognized,
}

/// The state of one working copy.
#[derive(Debug)]
pub enum Status {
    /// The directory is not a git repository.
    NoRepo,
    /// `git status` failed; carries what it printed on standard error.
    QueryError(String),
    /// The repository has no remote.
    NoRemote,
    /// `HEAD` is detached.
    DetachedHead,
    /// There are staged or unstaged modifications.
    UncommittedChanges,
    /// Branch and upstream have diverged.
    DivergedFromRemote,
    /// The branch is ahead of its upstream.
    UnpushedChanges,
    /// There are untracked files.
    UntrackedFiles,
    /// Nothing to commit and nothing to push.
    Clean,
    /// `git status` printed something that no rule matches; carries that
    /// text unchanged.
    Unrecognized(String),
}

/// What a [`Status`] stands for in contracts: the same variants, with the
/// carried text as a sequence of characters.
pub ghost enum StatusView {
    NoRepo,
    QueryError(Seq<char>),
    NoRemote,
    DetachedHead,
    UncommittedChanges,
    DivergedFromRemote,
    UnpushedChanges,
    UntrackedFiles,
    Clean,
    Unrecognized(Seq<char>),
}

impl StatusView {
    /// The variant, without the carried text.
    pub open spec fn kind(self) -> StatusKind {
        match self {
            StatusView::NoRepo => StatusKind::NoRepo,
            StatusView::QueryError(_) => StatusKind::QueryError,
            StatusView::NoRemote => StatusKind::NoRemote,
            StatusView::DetachedHead => StatusKind::DetachedHead,
            StatusView::UncommittedChanges => StatusKind::UncommittedChanges,
            StatusView::DivergedFromRemote => StatusKind::DivergedFromRemote,
            StatusView::UnpushedChanges => StatusKind::UnpushedChanges,
            StatusView::UntrackedFiles => StatusKind::UntrackedFiles,
            StatusView::Clean => StatusKind::Clean,
            StatusView::Unrecognized(_) => StatusKind::Unrecognized,
        }
    }

    /// The carried text; empty for the variants that carry none.
    pub open spec fn content(self) -> Seq<char> {
        match self {
            StatusView::QueryError(text) => text,
            StatusView::Unrecognized(text) => text,
            _ => Seq::empty(),
        }
    }
}

impl View for Status {
    type V = StatusView;

    open spec fn view(&self) -> StatusView {
        match self {
            Status::NoRepo => StatusView::NoRepo,
            Status::QueryError(text) => StatusView::QueryError(text@),
            Status::NoRemote => StatusView::NoRemote,
            Status::DetachedHead => StatusView::DetachedHead,
            Status::UncommittedChanges => StatusView::UncommittedChanges,
            Status::DivergedFromRemote => StatusView::DivergedFromRemote,
            Status::UnpushedChanges => StatusView::UnpushedChanges,
            Status::UntrackedFiles => StatusView::UntrackedFiles,
            Status::Clean => StatusView::Clean,
            Status::Unrecognized(text) => StatusView::Unrecognized(text@),
        }
    }
}

/// The state that the text of a successful `git status` stands for. The rules
/// are tried in this order and the first that matches decides; a text that
/// none matches is kept whole.
pub open spec fn classify_status_text(text: Seq<char>) -> StatusView {
    if is_substring(DETACHED_HEAD_MARKER@, text) {
        StatusView::DetachedHead
    } else if is_substring(UNSTAGED_MARKER@, text) || is_substring(STAGED_MARKER@, text) {
        StatusView::UncommittedChanges
    } else if is_substring(DIVERGED_MARKER@, text) {
        StatusView::DivergedFromRemote
    } else if is_substring(AHEAD_MARKER@, text) {
        StatusView::UnpushedChanges
    } else if is_substring(UNTRACKED_MARKER@, text) {
        StatusView::UntrackedFiles
    } else if is_substring(CLEAN_MARKER@, text) {
        StatusView::Clean
    } else {
        StatusView::Unrecognized(text)
    }
}

impl Status {
    /// Reads the state off the text of a successful `git status`. Never
    /// fails: a text that no rule matches comes back as `Unrecognized`.
    pub fn from_str(text: &str) -> (parsed: Result<Status, ()>)
        ensures
            parsed matches Ok(status) && status@ == classify_status_text(text@),
    {
        let chars = chars_of(text);
        let status = if occurs_in(&chars, &chars_of(DETACHED_HEAD_MARKER)) {
            Status::DetachedHead
        } else if occurs_in(&chars, &chars_of(UNSTAGED_MARKER)) || occurs_in(
            &chars,
            &chars_of(STAGED_MARKER),
        ) {
            Status::UncommittedChanges
        } else if occurs_in(&chars, &chars_of(DIVERGED_MARKER)) {
            Status::DivergedFromRemote
        } else if occurs_in(&chars, &chars_of(AHEAD_MARKER)) {
            Status::UnpushedChanges
        } else if occurs_in(&chars, &chars_of(UNTRACKED_MARKER)) {
            Status::UntrackedFiles
        } else if occurs_in(&chars, &chars_of(CLEAN_MARKER)) {
            Status::Clean
        } else {
            Status::Unrecognized(text.to_owned())
        };
        Ok(status)
    }

    /// The variant of this status, without the carried text.
    pub fn kind(&self) -> (kind: StatusKind)
        ensures
            kind == self@.kind(),
    {
        match self {
            Status::NoRepo => StatusKind::NoRepo,
            Status::QueryError(_) => StatusKind::QueryError,
            Status::NoRemote => StatusKind::NoRemote,
            Status::DetachedHead => StatusKind::DetachedHead,
            Status::UncommittedChanges => StatusKind::UncommittedChanges,
            Status::DivergedFromRemote => StatusKind::DivergedFromRemote,
            Status::UnpushedChanges => StatusKind::UnpushedChanges,
            Status::UntrackedFiles => StatusKind::UntrackedFiles,
            Status::Clean => StatusKind::Clean,
            Status::Unrecognized(_) => StatusKind::Unrecognized,
        }
    }

    /// Whether two statuses are the same variant, whatever text they carry.
    pub fn is_same_variant(&self, other: &Status) -> (same: bool)
        ensures
            same == (self@.kind() == other@.kind()),
    {
        self.kind() == other.kind()
    }
}

impl Clone for Status {
    fn clone(&self) -> (copy: Status)
        ensures
            copy == *self,
    {
        match self {
            Status::NoRepo => Status::NoRepo,
            Status::QueryError(text) => Status::QueryError(text.clone()),
            Status::NoRemote => Status::NoRemote,
            Status::DetachedHead => Status::DetachedHead,
            Status::UncommittedChanges => Status::UncommittedChanges,
            Status::DivergedFromRemote => Status::DivergedFromRemote,
            Status::UnpushedChanges => Status::UnpushedChanges,
            Status::UntrackedFiles => Status::UntrackedFiles,
            Status::Clean => Status::Clean,
            Status::Unrecognized(text) => Status::Unrecognized(text.clone()),
        }
    }
}

impl PartialEq for Status {
    fn eq(&self, other: &Status) -> (equal: bool) {
        match (self, other) {
            (Status::QueryError(a), Status::QueryError(b)) => *a == *b,
            (Status::Unrecognized(a), Status::Unrecognized(b)) => *a == *b,
            (a, b) => a.kind() == b.kind(),
        }
    }
}

impl Eq for Status {}

impl vstd::std_specs::cmp::PartialEqSpecImpl for Status {
    open spec fn obeys_eq_spec() -> bool {
        true
    }

    open spec fn eq_spec(&self, other: &Status) -> bool {
        self@ == other@
    }
}

/// The header under which a report lists the repositories of one kind.
pub open spec fn label_of(kind: StatusKind) -> Seq<char> {
    match kind {
        StatusKind::NoRepo => "Not a git repository"@,
        StatusKind::QueryError => "Error"@,
        StatusKind::NoRemote => "No remote"@,
        StatusKind::DetachedHead => "In detached head mode"@,
        StatusKind::UncommittedChanges => "Uncommitted changes"@,
        StatusKind::DivergedFromRemote => "Diverged from remote"@,
        StatusKind::UnpushedChanges => "Unpushed changes"@,
        StatusKind::UntrackedFiles => "Untracked files"@,
        StatusKind::Clean => "Clean"@,
        StatusKind::Unrecognized => "Unknown status"@,
    }
}

/// The order in which a report lists the kinds.
pub open spec fn display_order() -> Seq<StatusKind> {
    seq![
        StatusKind::NoRepo,
        StatusKind::QueryError,
        StatusKind::NoRemote,
        StatusKind::DetachedHead,
        StatusKind::UncommittedChanges,
        StatusKind::DivergedFromRemote,
        StatusKind::UnpushedChanges,
        StatusKind::UntrackedFiles,
        StatusKind::Clean,
        StatusKind::Unrecognized,
    ]
}

/// The place of a kind in the display order, counted from zero.
pub open spec fn rank_of(kind: StatusKind) -> int {
    match kind {
        StatusKind::NoRepo => 0,
        StatusKind::QueryError => 1,
        StatusKind::NoRemote => 2,
        StatusKind::DetachedHead => 3,
        StatusKind::UncommittedChanges => 4,
        StatusKind::DivergedFromRemote => 5,
        StatusKind::UnpushedChanges => 6,
        StatusKind::UntrackedFiles => 7,
        StatusKind::Clean => 8,
        StatusKind::Unrecognized => 9,
    }
}

/// How a status reads on its own: its label, followed by the carried text in
/// parentheses where there is any.
pub open spec fn describe(status: StatusView) -> Seq<char> {
    if status.content().len() == 0 {
        label_of(status.kind())
    } else {
        label_of(status.kind()) + " ("@ + status.content() + ")"@
    }
}

impl StatusKind {
    /// The header for this kind in a report.
    pub fn label(self) -> (label: &'static str)
        ensures
            label@ == label_of(self),
    {
        match self {
            StatusKind::NoRepo => "Not a git repository",
            StatusKind::QueryError => "Error",
            StatusKind::NoRemote => "No remote",
            StatusKind::DetachedHead => "In detached head mode",
            StatusKind::UncommittedChanges => "Uncommitted changes",
            StatusKind::DivergedFromRemote => "Diverged from remote",
            StatusKind::UnpushedChanges => "Unpushed changes",
            StatusKind::UntrackedFiles => "Untracked files",
            StatusKind::Clean => "Clean",
            StatusKind::Unrecognized => "Unknown status",
        }
    }

    /// Every kind, in the order in which a report lists them.
    pub fn display_order() -> (kinds: Vec<StatusKind>)
        ensures
            kinds@ == display_order(),
    {
        let kinds = vec![
            StatusKind::NoRepo,
            StatusKind::QueryError,
            StatusKind::NoRemote,
            StatusKind::DetachedHead,
            StatusKind::UncommittedChanges,
            StatusKind::DivergedFromRemote,
            StatusKind::UnpushedChanges,
            StatusKind::UntrackedFiles,
            StatusKind::Clean,
            StatusKind::Unrecognized,
        ];
        assert(kinds@ =~= display_order());
        kinds
    }
}

impl Status {
    /// The label of this status, followed by the carried text in parentheses
    /// where there is any.
    pub fn to_string(&self) -> (text: String)
        ensures
            text@ == describe(self@),
    {
        let mut text = self.kind().label().to_owned();
        match self {
            Status::QueryError(content) | Status::Unrecognized(content) => {
                if !content.as_str().is_empty() {
                    text.append(" (");
                    text.append(content.as_str());
                    text.append(")");
                }
            },
            _ => {},
        }
        text
    }
}

/// The display order lists every kind exactly once: each kind stands at its
/// rank, and each position holds the kind of that rank.
pub proof fn lemma_display_order_is_total(kind: StatusKind, position: int)
    ensures
        display_order().len() == 10,
        0 <= rank_of(kind) < 10,
        display_order()[rank_of(kind)] == kind,
        0 <= position < 10 ==> rank_of(display_order()[position]) == position,
{
}

/// A detached head wins over untracked files: a text that reports both is
/// classified as a detached head.
pub proof fn lemma_detached_head_precedes_untracked(text: Seq<char>)
    requires
        is_substring(DETACHED_HEAD_MARKER@, text),
        is_substring(UNTRACKED_MARKER@, text),
    ensures
        classify_status_text(text) == StatusView::DetachedHead,
{
}

/// A text that holds none of the markers is kept whole: it is classified as
/// `Unrecognized` and the carried text is the input, character for
/// character.
pub proof fn lemma_unmatched_text_is_kept(text: Seq<char>)
    requires
        !is_substring(DETACHED_HEAD_MARKER@, text),
        !is_substring(UNSTAGED_MARKER@, text),
        !is_substring(STAGED_MARKER@, text),
        !is_substring(DIVERGED_MARKER@, text),
        !is_substring(AHEAD_MARKER@, text),
        !is_substring(UNTRACKED_MARKER@, text),
        !is_substring(CLEAN_MARKER@, text),
    ensures
        classify_status_text(text) == StatusView::Unrecognized(text),
        classify_status_text(text).content() == text,
{
}

/// Two statuses are the same variant exactly when they are of the same kind,
/// so the text that an error or an unrecognized status carries plays no
/// part: any two errors are the same variant, any two unrecognized statuses
/// are, and an error and an unrecognized status never are.
pub proof fn lemma_variant_ignores_text(first: Seq<char>, second: Seq<char>)
    ensures
        StatusView::QueryError(first).kind() == StatusView::QueryError(second).kind(),
        StatusView::Unrecognized(first).kind() == StatusView::Unrecognized(second).kind(),
        StatusView::QueryError(first).kind() != StatusView::Unrecognized(second).kind(),
{
}

} // verus!
