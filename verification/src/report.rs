//! Groups repositories by the kind of their status and writes the report.

use vstd::prelude::*;
use crate::repo::{entry_text, Repo, RepoView};
use crate::status::{display_order, label_of, rank_of, StatusKind};
use crate::text::{decimal, decimal_string};

verus! {

/// The views of a list of repositories.
pub open spec fn views_of(repos: Seq<Repo>) -> Seq<RepoView> {
    repos.map_values(|repo: Repo| repo@)
}

/// The test that a repository's status is of the given kind, whatever text
/// the status carries.
pub open spec fn has_kind(kind: StatusKind) -> spec_fn(RepoView) -> bool {
    |repo: RepoView| repo.status.kind() == kind
}

/// The repositories whose status is of the given kind, in the order in which
/// they were given.
pub open spec fn members_of(repos: Seq<RepoView>, kind: StatusKind) -> Seq<RepoView> {
    repos.filter(has_kind(kind))
}

/// The repositories of one kind, as a report lists them.
pub struct Group<'a> {
    /// The kind that the members share.
    pub kind: StatusKind,
    /// The members, in the order in which they were given.
    pub members: Vec<&'a Repo>,
}

/// What a [`Group`] stands for in contracts.
pub ghost struct GroupView {
    pub kind: StatusKind,
    pub members: Seq<RepoView>,
}

impl<'a> View for Group<'a> {
    type V = GroupView;

    open spec fn view(&self) -> GroupView {
        GroupView { kind: self.kind, members: self.members@.map_values(|repo: &Repo| repo@) }
    }
}

/// Picks the repositories whose status is of the given kind.
pub fn select<'a>(repos: &'a Vec<Repo>, kind: StatusKind) -> (members: Vec<&'a Repo>)
    ensures
        members@.map_values(|repo: &Repo| repo@) == members_of(views_of(repos@), kind),
{
    let mut members: Vec<&'a Repo> = Vec::new();
    let mut i: usize = 0;
    proof {
        reveal(Seq::filter);
        assert(views_of(repos@.take(0)) =~= Seq::<RepoView>::empty());
        assert(members@.map_values(|repo: &Repo| repo@) =~= Seq::<RepoView>::empty());
    }
    while i < repos.len()
        invariant
            i <= repos.len(),
            members@.map_values(|repo: &Repo| repo@) == members_of(
                views_of(repos@.take(i as int)),
                kind,
            ),
        decreases repos.len() - i,
    {
        let repo = &repos[i];
        let ghost before = members@.map_values(|repo: &Repo| repo@);
        proof {
            let seen = views_of(repos@.take(i as int));
            assert(views_of(repos@.take(i + 1)) =~= seen.push(repo@));
            seen.lemma_filter_push(repo@, has_kind(kind));
        }
        if repo.status.kind() == kind {
            members.push(repo);
            assert(members@.map_values(|repo: &Repo| repo@) =~= before.push(repo@));
        }
        i += 1;
    }
    assert(repos@.take(repos.len() as int) =~= repos@);
    members
}

/// The views of a list of groups.
pub open spec fn group_views(groups: Seq<Group>) -> Seq<GroupView> {
    groups.map_values(|group: Group| group@)
}

/// The test that at least one of the repositories is of a kind.
pub open spec fn is_populated(repos: Seq<RepoView>) -> spec_fn(StatusKind) -> bool {
    |kind: StatusKind| members_of(repos, kind).len() > 0
}

/// The group that the repositories form for a kind.
pub open spec fn group_for(repos: Seq<RepoView>) -> spec_fn(StatusKind) -> GroupView {
    |kind: StatusKind| GroupView { kind, members: members_of(repos, kind) }
}

/// The groups that the repositories form for the given kinds: one for each
/// kind that has a member, in the order of `kinds`.
pub open spec fn groups_among(kinds: Seq<StatusKind>, repos: Seq<RepoView>) -> Seq<GroupView> {
    kinds.filter(is_populated(repos)).map_values(group_for(repos))
}

/// The groups of a report: one for each kind that has a member, in display
/// order. Input order decides only the order of the members in a group.
pub open spec fn groups_of(repos: Seq<RepoView>) -> Seq<GroupView> {
    groups_among(display_order(), repos)
}

/// The line that lists one member of a group.
pub open spec fn member_line(repo: RepoView) -> Seq<char> {
    " - "@ + entry_text(repo.name, repo.status) + "\n"@
}

/// The lines that list the members of a group, one after the other.
pub open spec fn listing_text(members: Seq<RepoView>) -> Seq<char> {
    members.map_values(|repo: RepoView| member_line(repo)).flatten()
}

/// The text of one group. It starts with an empty line. With `count_only`
/// it is one line that gives the label and the number of members; otherwise
/// it is the label on a line of its own, followed by one entry per member.
pub open spec fn group_text(group: GroupView, count_only: bool) -> Seq<char> {
    if count_only {
        "\n"@ + label_of(group.kind) + ": "@ + decimal(group.members.len()) + " repos\n"@
    } else {
        "\n"@ + label_of(group.kind) + ":\n"@ + listing_text(group.members)
    }
}

/// Whether a report gives only a count for the groups of a kind: it does so
/// for the clean repositories, unless their names were asked for.
pub open spec fn counts_only(kind: StatusKind, show_clean: bool) -> bool {
    kind == StatusKind::Clean && !show_clean
}

/// The text of the given groups, one after the other.
pub open spec fn groups_text(groups: Seq<GroupView>, show_clean: bool) -> Seq<char> {
    groups.map_values(|group: GroupView| group_text(group, counts_only(group.kind, show_clean)))
        .flatten()
}

/// The whole report on the given repositories.
pub open spec fn report_text(repos: Seq<RepoView>, show_clean: bool) -> Seq<char> {
    groups_text(groups_of(repos), show_clean)
}

/// Groups the repositories by the kind of their status. Kinds without a
/// member get no group.
pub fn group_by_status<'a>(repos: &'a Vec<Repo>) -> (groups: Vec<Group<'a>>)
    ensures
        group_views(groups@) == groups_of(views_of(repos@)),
{
    let order = StatusKind::display_order();
    let ghost all = views_of(repos@);
    let mut groups: Vec<Group<'a>> = Vec::new();
    let mut i: usize = 0;
    proof {
        reveal(Seq::filter);
        assert(order@.take(0) =~= Seq::<StatusKind>::empty());
        assert(group_views(groups@) =~= groups_among(order@.take(0), all));
    }
    while i < order.len()
        invariant
            i <= order.len(),
            all == views_of(repos@),
            group_views(groups@) == groups_among(order@.take(i as int), all),
        decreases order.len() - i,
    {
        let kind = order[i];
        let members = select(repos, kind);
        let ghost before = groups@;
        proof {
            let tried = order@.take(i as int);
            assert(order@.take(i + 1) =~= tried.push(kind));
            tried.lemma_filter_push(kind, is_populated(all));
        }
        if members.len() > 0 {
            let group = Group { kind, members };
            groups.push(group);
            proof {
                let chosen = order@.take(i as int).filter(is_populated(all));
                assert(group_views(groups@) =~= group_views(before).push(group@));
                assert(chosen.push(kind).map_values(group_for(all)) =~= chosen.map_values(
                    group_for(all),
                ).push(group@));
            }
        }
        i += 1;
    }
    assert(order@.take(order.len() as int) =~= order@);
    groups
}

/// Writes the lines that list the members of a group.
fn render_listing(members: &Vec<&Repo>) -> (text: String)
    ensures
        text@ == listing_text(members@.map_values(|repo: &Repo| repo@)),
{
    let ghost all = members@.map_values(|repo: &Repo| repo@);
    let mut text = String::new();
    let mut i: usize = 0;
    assert(all.take(0).map_values(|repo: RepoView| member_line(repo)) =~= Seq::<
        Seq<char>,
    >::empty());
    while i < members.len()
        invariant
            i <= members.len(),
            all == members@.map_values(|repo: &Repo| repo@),
            text@ == listing_text(all.take(i as int)),
        decreases members.len() - i,
    {
        let entry = members[i].name_and_content();
        proof {
            let listed = all.take(i as int).map_values(|repo: RepoView| member_line(repo));
            assert(all.take(i + 1).map_values(|repo: RepoView| member_line(repo))
                =~= listed.push(member_line(all[i as int])));
            listed.lemma_flatten_push(member_line(all[i as int]));
        }
        text.append(" - ");
        text.append(entry.as_str());
        text.append("\n");
        i += 1;
    }
    assert(all.take(members.len() as int) =~= all);
    text
}

/// Writes one group of a report: a count of its members, or their entries.
pub fn render_group(group: &Group, count_only: bool) -> (text: String)
    ensures
        text@ == group_text(group@, count_only),
{
    let mut text = String::new();
    text.append("\n");
    text.append(group.kind.label());
    if count_only {
        let count = decimal_string(group.members.len() as u64);
        text.append(": ");
        text.append(count.as_str());
        text.append(" repos\n");
    } else {
        let listing = render_listing(&group.members);
        text.append(":\n");
        text.append(listing.as_str());
    }
    text
}

/// Writes the report on the given repositories: the groups in display
/// order, the clean repositories as a count unless `show_clean` asks for
/// their names.
pub fn render_report(repos: &Vec<Repo>, show_clean: bool) -> (text: String)
    ensures
        text@ == report_text(views_of(repos@), show_clean),
{
    let groups = group_by_status(repos);
    let ghost all = group_views(groups@);
    let ghost section = |group: GroupView| group_text(group, counts_only(group.kind, show_clean));
    let mut text = String::new();
    let mut i: usize = 0;
    assert(all.take(0).map_values(section) =~= Seq::<Seq<char>>::empty());
    while i < groups.len()
        invariant
            i <= groups.len(),
            all == group_views(groups@),
            section == |group: GroupView| group_text(group, counts_only(group.kind, show_clean)),
            text@ == groups_text(all.take(i as int), show_clean),
        decreases groups.len() - i,
    {
        let group = &groups[i];
        let count_only = group.kind == StatusKind::Clean && !show_clean;
        let part = render_group(group, count_only);
        proof {
            let written = all.take(i as int).map_values(section);
            assert(all.take(i + 1).map_values(section) =~= written.push(section(all[i as int])));
            written.lemma_flatten_push(section(all[i as int]));
        }
        text.append(part.as_str());
        i += 1;
    }
    assert(all.take(groups.len() as int) =~= all);
    text
}

/// A repository is listed in the group of a kind exactly when its status is
/// of that kind.
pub proof fn lemma_member_of_own_group(repos: Seq<RepoView>, at: int, kind: StatusKind)
    requires
        0 <= at < repos.len(),
    ensures
        members_of(repos, kind).contains(repos[at]) <==> repos[at].status.kind() == kind,
{
    let group = members_of(repos, kind);
    if repos[at].status.kind() == kind {
        repos.lemma_filter_contains(has_kind(kind), at);
    }
    if group.contains(repos[at]) {
        let found = choose|found: int| 0 <= found < group.len() && group[found] == repos[at];
        repos.lemma_filter_pred(has_kind(kind), found);
    }
}

/// Repositories whose queries failed share one group, whatever the error
/// texts are, and a repository with an unrecognized status is not in it.
pub proof fn lemma_errors_share_a_group(
    repos: Seq<RepoView>,
    first: int,
    second: int,
    other: int,
)
    requires
        0 <= first < repos.len(),
        0 <= second < repos.len(),
        0 <= other < repos.len(),
        repos[first].status is QueryError,
        repos[second].status is QueryError,
        repos[other].status is Unrecognized,
    ensures
        members_of(repos, StatusKind::QueryError).contains(repos[first]),
        members_of(repos, StatusKind::QueryError).contains(repos[second]),
        !members_of(repos, StatusKind::QueryError).contains(repos[other]),
{
    lemma_member_of_own_group(repos, first, StatusKind::QueryError);
    lemma_member_of_own_group(repos, second, StatusKind::QueryError);
    lemma_member_of_own_group(repos, other, StatusKind::QueryError);
}

/// Whether the kinds stand in display order: each has a smaller rank than
/// those that follow it.
pub open spec fn in_display_order(kinds: Seq<StatusKind>) -> bool {
    forall|i: int, j: int|
        0 <= i < j < kinds.len() ==> rank_of(#[trigger] kinds[i]) < rank_of(#[trigger] kinds[j])
}

/// Picking kinds out of a list in display order leaves a list in display
/// order, which holds exactly the kinds of the list that pass the test.
proof fn lemma_filter_keeps_order(kinds: Seq<StatusKind>, keep: spec_fn(StatusKind) -> bool)
    requires
        in_display_order(kinds),
    ensures
        in_display_order(kinds.filter(keep)),
        forall|kind: StatusKind|
            #[trigger] kinds.filter(keep).contains(kind) <==> kinds.contains(kind) && keep(kind),
    decreases kinds.len(),
{
    reveal(Seq::filter);
    let kept = kinds.filter(keep);
    if kinds.len() > 0 {
        let front = kinds.drop_last();
        let last = kinds.last();
        lemma_filter_keeps_order(front, keep);
        let kept_front = front.filter(keep);
        assert forall|kind: StatusKind| #[trigger]
            kept.contains(kind) <==> kinds.contains(kind) && keep(kind) by {
            if kept.contains(kind) {
                let at = choose|at: int| 0 <= at < kept.len() && kept[at] == kind;
                if at < kept_front.len() {
                    assert(kept_front[at] == kind);
                    assert(kept_front.contains(kind));
                    let from = choose|from: int| 0 <= from < front.len() && front[from] == kind;
                    assert(kinds[from] == kind);
                } else {
                    assert(kind == last);
                    assert(kinds[kinds.len() - 1] == kind);
                }
            }
            if kinds.contains(kind) && keep(kind) {
                let from = choose|from: int| 0 <= from < kinds.len() && kinds[from] == kind;
                if from < front.len() {
                    assert(front[from] == kind);
                    assert(front.contains(kind));
                    let at = choose|at: int| 0 <= at < kept_front.len() && kept_front[at] == kind;
                    assert(kept[at] == kind);
                } else {
                    assert(kept[kept.len() - 1] == kind);
                }
            }
        }
        assert forall|i: int, j: int| 0 <= i < j < kept.len() implies rank_of(#[trigger] kept[i])
            < rank_of(#[trigger] kept[j]) by {
            if j < kept_front.len() {
                assert(kept_front[i] == kept[i] && kept_front[j] == kept[j]);
            } else {
                assert(kept[j] == last);
                assert(kept_front[i] == kept[i]);
                assert(kept_front.contains(kept[i]));
                let from = choose|from: int| 0 <= from < front.len() && front[from] == kept[i];
                assert(kinds[from] == kept[i]);
                assert(kinds[kinds.len() - 1] == last);
            }
        }
    }
}

/// The groups of a report stand in display order, whatever the order of the
/// repositories; none is empty, and each holds the repositories of its kind.
pub proof fn lemma_groups_follow_display_order(repos: Seq<RepoView>)
    ensures
        forall|i: int, j: int|
            0 <= i < j < groups_of(repos).len() ==> rank_of(#[trigger] groups_of(repos)[i].kind)
                < rank_of(#[trigger] groups_of(repos)[j].kind),
        forall|i: int|
            0 <= i < groups_of(repos).len() ==> {
                let group = #[trigger] groups_of(repos)[i];
                group.members.len() > 0 && group.members == members_of(repos, group.kind)
            },
{
    let order = display_order();
    assert(in_display_order(order));
    lemma_filter_keeps_order(order, is_populated(repos));
    let kinds = order.filter(is_populated(repos));
    assert forall|i: int| 0 <= i < groups_of(repos).len() implies {
        let group = #[trigger] groups_of(repos)[i];
        group.members.len() > 0 && group.members == members_of(repos, group.kind)
    } by {
        assert(kinds.contains(kinds[i]));
    }
    assert forall|i: int, j: int| 0 <= i < j < groups_of(repos).len() implies rank_of(
        #[trigger] groups_of(repos)[i].kind,
    ) < rank_of(#[trigger] groups_of(repos)[j].kind) by {
        assert(groups_of(repos)[i].kind == kinds[i]);
        assert(groups_of(repos)[j].kind == kinds[j]);
    }
}

/// Every repository is listed: the report has a group of its kind, and that
/// group holds it.
pub proof fn lemma_every_repo_is_listed(repos: Seq<RepoView>, at: int)
    requires
        0 <= at < repos.len(),
    ensures
        exists|i: int|
            0 <= i < groups_of(repos).len() && (#[trigger] groups_of(repos)[i]).kind
                == repos[at].status.kind() && groups_of(repos)[i].members.contains(repos[at]),
{
    let kind = repos[at].status.kind();
    let order = display_order();
    lemma_member_of_own_group(repos, at, kind);
    assert(order[rank_of(kind)] == kind);
    assert(order.contains(kind));
    assert(in_display_order(order));
    lemma_filter_keeps_order(order, is_populated(repos));
    let kinds = order.filter(is_populated(repos));
    assert(is_populated(repos)(kind));
    assert(kinds.contains(kind));
    let i = choose|i: int| 0 <= i < kinds.len() && kinds[i] == kind;
    assert(groups_of(repos)[i].kind == kind);
}

} // verus!
