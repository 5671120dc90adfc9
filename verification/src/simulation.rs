//! A sweep run against a membership held in memory instead of a platform.
//!
//! The simulated platform answers every request truthfully: it reports the
//! count it is told to report, hands out the members in ascending order of
//! identifier, page by page, and removes roles from everyone but the members
//! it is told to refuse.

use vstd::prelude::*;
use crate::classifier::{classification, holds_role, ClassificationResult, MemberSnapshot, MemberView};
use crate::sweep::{
    lemma_next_offender_bounds, member_views, next_offender, SweepAction, SweepActionView,
    SweepEvent, SweepFailure, SweepRun, SweepStage,
};

verus! {

/// Every member has a larger identifier than the one before it.
pub open spec fn strictly_ascending(members: Seq<MemberView>) -> bool {
    forall|i: int, j: int| 0 <= i < j < members.len() ==> members[i].user_id < members[j].user_id
}

/// The first position at or after `from` whose member has an identifier
/// above `after`, or the length of the list if there is none.
pub open spec fn first_above(members: Seq<MemberView>, after: Option<u64>, from: nat) -> nat
    decreases members.len() - from,
{
    if from >= members.len() {
        members.len()
    } else if after matches Some(bound) && members[from as int].user_id <= bound {
        first_above(members, after, from + 1)
    } else {
        from
    }
}

/// What the simulated platform returns for a list request: the members with
/// an identifier above `after`, in order, cut off after `limit` of them.
pub open spec fn page_of(members: Seq<MemberView>, limit: Option<u64>, after: Option<u64>) -> Seq<
    MemberView,
> {
    let start = first_above(members, after, 0);
    let rest = members.len() - start;
    let count = match limit {
        Some(most) if most < rest => most as int,
        _ => rest,
    };
    members.subrange(start as int, start + count)
}

/// How many of the first `upto` members the sweep strips: those who must
/// lose their roles and whose removal the platform does not refuse.
pub open spec fn revocations(
    members: Seq<MemberView>,
    primary_role: Option<u64>,
    refusing: Seq<u64>,
    upto: nat,
) -> nat
    decreases upto,
{
    if upto == 0 || upto > members.len() {
        0
    } else {
        let rest = revocations(members, primary_role, refusing, (upto - 1) as nat);
        let last = members[upto - 1];
        if classification(last, primary_role) == ClassificationResult::MustRevokeAll
            && !refusing.contains(last.user_id) {
            rest + 1
        } else {
            rest
        }
    }
}

/// How many of the first `upto` members must lose their roles.
pub open spec fn offenders(members: Seq<MemberView>, primary_role: Option<u64>, upto: nat) -> nat
    decreases upto,
{
    if upto == 0 || upto > members.len() {
        0
    } else if classification(members[upto - 1], primary_role)
        == ClassificationResult::MustRevokeAll {
        offenders(members, primary_role, (upto - 1) as nat) + 1
    } else {
        offenders(members, primary_role, (upto - 1) as nat)
    }
}

/// With ascending identifiers, the members above the identifier of the
/// member at position `k - 1` are exactly those from position `k` on.
pub proof fn lemma_first_above_cursor(members: Seq<MemberView>, k: nat, from: nat)
    requires
        strictly_ascending(members),
        0 < k <= members.len(),
        from <= k,
    ensures
        first_above(members, Some(members[k - 1].user_id), from) == k,
    decreases k - from,
{
    if from < k {
        lemma_first_above_cursor(members, k, from + 1);
    }
}

/// Members that need no action add nothing to the count of revocations.
pub proof fn lemma_revocations_skip(
    members: Seq<MemberView>,
    primary_role: Option<u64>,
    refusing: Seq<u64>,
    from: nat,
)
    requires
        from <= members.len(),
    ensures
        revocations(members, primary_role, refusing, next_offender(members, primary_role, from))
            == revocations(members, primary_role, refusing, from),
    decreases members.len() - from,
{
    lemma_next_offender_bounds(members, primary_role, from);
    if from < members.len() && classification(members[from as int], primary_role)
        != ClassificationResult::MustRevokeAll {
        lemma_revocations_skip(members, primary_role, refusing, from + 1);
    }
}

/// No member is counted twice and none is counted that must not be: the
/// count of revocations never exceeds the number of members looked at.
pub proof fn lemma_revocations_bound(
    members: Seq<MemberView>,
    primary_role: Option<u64>,
    refusing: Seq<u64>,
    upto: nat,
)
    ensures
        revocations(members, primary_role, refusing, upto) <= upto,
    decreases upto,
{
    if upto > 0 && upto <= members.len() {
        lemma_revocations_bound(members, primary_role, refusing, (upto - 1) as nat);
    }
}

fn at_or_below(user_id: u64, bound: Option<u64>) -> (below: bool)
    ensures
        below == (bound matches Some(b) && user_id <= b),
{
    match bound {
        Some(b) => user_id <= b,
        None => false,
    }
}

fn within_limit(taken: usize, limit: Option<u64>) -> (within: bool)
    ensures
        within == (limit matches Some(most) ==> taken < most),
{
    match limit {
        Some(most) => (taken as u64) < most,
        None => true,
    }
}

/// The simulated platform's answer to a list request.
pub fn simulated_page(members: &Vec<MemberSnapshot>, limit: Option<u64>, after: Option<u64>) -> (page:
    Vec<MemberSnapshot>)
    ensures
        member_views(page@) == page_of(member_views(members@), limit, after),
{
    let ghost all = member_views(members@);
    let mut start: usize = 0;
    while start < members.len() && at_or_below(members[start].user_id, after)
        invariant
            start <= members.len(),
            all == member_views(members@),
            first_above(all, after, 0) == first_above(all, after, start as nat),
        decreases members.len() - start,
    {
        start += 1;
    }
    let mut page: Vec<MemberSnapshot> = Vec::new();
    let mut taken: usize = 0;
    assert(member_views(page@) =~= all.subrange(start as int, start as int));
    while start + taken < members.len() && within_limit(taken, limit)
        invariant
            start + taken <= members.len(),
            all == member_views(members@),
            member_views(page@) == all.subrange(start as int, start + taken),
            limit matches Some(most) ==> taken <= most,
        decreases members.len() - start - taken,
    {
        let ghost before = page@;
        page.push(members[start + taken].duplicate());
        assert(member_views(page@) =~= member_views(before).push(all[start + taken]));
        assert(all.subrange(start as int, start + taken).push(all[start + taken]) =~= all.subrange(
            start as int,
            start + taken + 1,
        ));
        taken += 1;
    }
    page
}

/// One list request as the simulated platform saw it.
#[derive(Clone, Copy, Debug, PartialEq, Eq)]
pub struct PageRequest {
    pub limit: Option<u64>,
    pub after: Option<u64>,
    /// How many members the platform returned.
    pub returned: u64,
}

/// One role removal as the simulated platform was asked for it.
#[derive(Clone, Debug, PartialEq, Eq)]
pub struct RoleRemoval {
    pub user_id: u64,
    pub role_ids: Vec<u64>,
}

/// What a `RoleRemoval` stands for in contracts.
pub struct RoleRemovalView {
    pub user_id: u64,
    pub role_ids: Seq<u64>,
}

impl View for RoleRemoval {
    type V = RoleRemovalView;

    open spec fn view(&self) -> RoleRemovalView {
        RoleRemovalView { user_id: self.user_id, role_ids: self.role_ids@ }
    }
}

/// The views of a list of removals, in the same order.
pub open spec fn removal_views(removals: Seq<RoleRemoval>) -> Seq<RoleRemovalView> {
    removals.map_values(|r: RoleRemoval| r@)
}

/// The list request number `index` of a paged sweep over `members`,
/// counted from zero: it asks for a full page after the last member of the
/// page before, and gets a full page or what is left.
pub open spec fn expected_page(members: Seq<MemberView>, page_size: u64, index: nat) -> PageRequest {
    let start = index * page_size;
    PageRequest {
        limit: Some(page_size),
        after: if index == 0 {
            None
        } else {
            Some(members[start - 1].user_id)
        },
        returned: if members.len() - start < page_size {
            (members.len() - start) as u64
        } else {
            page_size
        },
    }
}

/// The removals that a sweep asks for among the first `upto` members: one
/// for each member who must lose their roles, with all of that member's
/// roles, in the order of the list, and none for anyone else.
pub open spec fn expected_removals(members: Seq<MemberView>, primary_role: Option<u64>, upto: nat)
    -> Seq<RoleRemovalView>
    decreases upto,
{
    if upto == 0 || upto > members.len() {
        Seq::empty()
    } else {
        let rest = expected_removals(members, primary_role, (upto - 1) as nat);
        let last = members[upto - 1];
        if classification(last, primary_role) == ClassificationResult::MustRevokeAll {
            rest.push(RoleRemovalView { user_id: last.user_id, role_ids: last.role_ids })
        } else {
            rest
        }
    }
}

/// Members that need no action add nothing to the removals asked for.
pub proof fn lemma_removals_skip(members: Seq<MemberView>, primary_role: Option<u64>, from: nat)
    requires
        from <= members.len(),
    ensures
        expected_removals(members, primary_role, next_offender(members, primary_role, from))
            == expected_removals(members, primary_role, from),
    decreases members.len() - from,
{
    lemma_next_offender_bounds(members, primary_role, from);
    if from < members.len() && classification(members[from as int], primary_role)
        != ClassificationResult::MustRevokeAll {
        lemma_removals_skip(members, primary_role, from + 1);
    }
}

/// How a simulated sweep went and ended.
#[derive(Clone, Debug, PartialEq, Eq)]
pub struct SweepReport {
    /// `Completed`, or `Failed` with the reason.
    pub stage: SweepStage,
    pub total_members_seen: u64,
    pub members_revoked: u64,
    /// The list requests the sweep made, first to last.
    pub pages: Vec<PageRequest>,
    /// The role removals the sweep asked for, refused or not, first to last.
    pub removals: Vec<RoleRemoval>,
}

/// A sweep that failed before it asked for any member: nobody seen,
/// nobody stripped, nothing asked of the platform but the count.
pub open spec fn failed_report(report: SweepReport, failure: SweepFailure) -> bool {
    &&& report.stage == SweepStage::Failed(failure)
    &&& report.total_members_seen == 0
    &&& report.members_revoked == 0
    &&& report.pages@.len() == 0
    &&& report.removals@.len() == 0
}

/// The list requests of a completed sweep over `members`: one request
/// without limit where the reported count is below the page size; else
/// one request more than there are full pages, each for a full page after
/// the last member of the page before, the last of them returning the
/// members left over, none if the page size divides their number.
pub open spec fn expected_pages(
    pages: Seq<PageRequest>,
    members: Seq<MemberView>,
    page_size: u64,
    reported_count: u64,
) -> bool {
    if reported_count < page_size {
        pages == seq![
            PageRequest { limit: None, after: None, returned: members.len() as u64 },
        ]
    } else {
        &&& pages.len() == members.len() / (page_size as nat) + 1
        &&& forall|i: int|
            0 <= i < pages.len() ==> #[trigger] pages[i] == expected_page(
                members,
                page_size,
                i as nat,
            )
    }
}

/// Runs a whole sweep against the simulated platform and reports how it
/// went.
///
/// The platform reports `reported_count` as the server's member count
/// (`None`: the request fails), holds `members` and refuses to change the
/// roles of the users in `refusing`.
///
/// A sweep that gets a count, finds a primary role and is told of at least
/// one member runs to completion. It then has seen every member exactly
/// once, whatever the page size. It has asked for exactly one removal for
/// each member who had to lose their roles, with all of that member's
/// roles, in the order of the list, and for no other; and it has counted
/// exactly those that were not refused. A refused removal never stops it.
/// When it paginates it asks for one page more than there are full pages,
/// so a member count that is a multiple of the page size ends on an empty
/// page.
pub fn simulate_sweep(
    server_id: u64,
    invoking_user_id: u64,
    primary_role: Option<u64>,
    page_size: u64,
    reported_count: Option<u64>,
    members: &Vec<MemberSnapshot>,
    refusing: &Vec<u64>,
) -> (report: SweepReport)
    requires
        page_size >= 1,
        strictly_ascending(member_views(members@)),
    ensures
        reported_count is None ==> failed_report(report, SweepFailure::MemberCount),
        reported_count is Some && primary_role is None ==> failed_report(
            report,
            SweepFailure::NoPrimaryRole,
        ),
        reported_count == Some(0u64) && primary_role is Some ==> failed_report(
            report,
            SweepFailure::NoMembers,
        ),
        reported_count is Some && reported_count->0 > 0 && primary_role is Some ==> {
            &&& report.stage == SweepStage::Completed
            &&& report.total_members_seen == members@.len()
            &&& report.members_revoked == revocations(
                member_views(members@),
                primary_role,
                refusing@,
                members@.len(),
            )
            &&& removal_views(report.removals@) == expected_removals(
                member_views(members@),
                primary_role,
                members@.len(),
            )
            &&& expected_pages(
                report.pages@,
                member_views(members@),
                page_size,
                reported_count->0,
            )
        },
{
    let ghost all = member_views(members@);
    let mut run = SweepRun::new(server_id, invoking_user_id, primary_role, page_size);
    let _ = run.step(SweepEvent::Start);
    let mut action = run.step(SweepEvent::MemberCount(reported_count));
    let mut pages: Vec<PageRequest> = Vec::new();
    let mut removals: Vec<RoleRemoval> = Vec::new();
    if let SweepAction::Fail { .. } = action {
        return SweepReport {
            stage: run.stage(),
            total_members_seen: run.total_members_seen(),
            members_revoked: run.members_revoked(),
            pages,
            removals,
        };
    }
    let ghost count = reported_count->0;
    assert(run@.members =~= all.take(0));
    loop
        invariant
            run@.wf(),
            run@.server_id == server_id,
            run@.invoking_user_id == invoking_user_id,
            run@.primary_role_id == primary_role,
            run@.page_size == page_size,
            primary_role is Some,
            reported_count == Some(count),
            count > 0,
            page_size >= 1,
            all == member_views(members@),
            strictly_ascending(all),
            run@.members.len() <= all.len(),
            run@.members == all.take(run@.members.len() as int),
            match run@.stage {
                SweepStage::FetchingAll => {
                    &&& count < page_size
                    &&& pages@.len() == 0
                    &&& run@.members.len() == 0
                    &&& action@ == (SweepActionView::FetchMembers {
                        server_id,
                        limit: None,
                        after: None,
                    })
                },
                SweepStage::FetchingPage => {
                    &&& count >= page_size
                    &&& pages@.len() * page_size == run@.members.len()
                    &&& forall|i: int|
                        0 <= i < pages@.len() ==> #[trigger] pages@[i] == expected_page(
                            all,
                            page_size,
                            i as nat,
                        )
                    &&& run@.cursor == if run@.members.len() == 0 {
                        None
                    } else {
                        Some(all[run@.members.len() - 1].user_id)
                    }
                    &&& action@ == (SweepActionView::FetchMembers {
                        server_id,
                        limit: Some(page_size),
                        after: run@.cursor,
                    })
                },
                SweepStage::Acknowledging => {
                    &&& run@.members.len() == all.len()
                    &&& action@ is Acknowledge
                    &&& expected_pages(pages@, all, page_size, count)
                },
                _ => false,
            },
        ensures
            run@.stage == SweepStage::Acknowledging,
        decreases
            if run@.stage == SweepStage::Acknowledging {
                0
            } else {
                all.len() - run@.members.len() + 1
            },
    {
        match action {
            SweepAction::FetchMembers { server_id: _, limit, after } => {
                let ghost fetched = run@.members.len();
                let ghost asked = pages@;
                proof {
                    if fetched > 0 {
                        lemma_first_above_cursor(all, fetched, 0);
                    }
                }
                let page = simulated_page(members, limit, after);
                assert(all.take(fetched as int) + member_views(page@) =~= all.take(
                    (fetched + page@.len()) as int,
                ));
                pages.push(PageRequest { limit, after, returned: page.len() as u64 });
                proof {
                    if limit is Some {
                        let index = asked.len();
                        assert(index * page_size == fetched);
                        if index > 0 {
                            assert(fetched > 0) by (nonlinear_arith)
                                requires
                                    index * page_size == fetched,
                                    index > 0,
                                    page_size >= 1,
                            ;
                        } else {
                            assert(fetched == 0) by (nonlinear_arith)
                                requires
                                    index * page_size == fetched,
                                    index == 0,
                            ;
                        }
                        assert(first_above(all, after, 0) == fetched);
                        assert(member_views(page@).len() == page@.len());
                        assert(pages@[index as int] == expected_page(all, page_size, index));
                        assert forall|i: int| 0 <= i < pages@.len() implies #[trigger] pages@[i]
                            == expected_page(all, page_size, i as nat) by {
                            if i < index {
                                assert(pages@[i] == asked[i]);
                            }
                        }
                        if page@.len() < page_size {
                            let full = index as int;
                            let size = page_size as int;
                            let total = all.len() as int;
                            assert(total / size == full) by (nonlinear_arith)
                                requires
                                    size >= 1,
                                    full * size <= total,
                                    total < full * size + size,
                            ;
                        } else {
                            assert((index + 1) * page_size == fetched + page@.len())
                                by (nonlinear_arith)
                                requires
                                    index * page_size == fetched,
                                    page@.len() == page_size,
                            ;
                        }
                    } else {
                        assert(pages@ =~= seq![
                            PageRequest { limit: None, after: None, returned: all.len() as u64 },
                        ]);
                    }
                }
                action = run.step(SweepEvent::Members(Some(page)));
                if let SweepAction::Wait { .. } = action {
                    action = run.step(SweepEvent::Done);
                }
            },
            _ => {
                break ;
            },
        }
    }
    assert(all.take(all.len() as int) =~= all);
    action = run.step(SweepEvent::Done);
    proof {
        lemma_revocations_skip(all, primary_role, refusing@, 0);
        lemma_removals_skip(all, primary_role, 0);
        lemma_next_offender_bounds(all, primary_role, 0);
        assert(removal_views(removals@) =~= expected_removals(all, primary_role, 0));
    }
    loop
        invariant
            run@.wf(),
            run@.server_id == server_id,
            run@.invoking_user_id == invoking_user_id,
            run@.primary_role_id == primary_role,
            run@.page_size == page_size,
            all == member_views(members@),
            run@.members == all,
            run@.members_revoked == revocations(all, primary_role, refusing@, run@.position),
            removal_views(removals@) == expected_removals(all, primary_role, run@.position),
            match run@.stage {
                SweepStage::Removing => {
                    &&& classification(all[run@.position as int], primary_role)
                        == ClassificationResult::MustRevokeAll
                    &&& action@ == (SweepActionView::RemoveRoles {
                        server_id,
                        user_id: all[run@.position as int].user_id,
                        role_ids: all[run@.position as int].role_ids,
                    })
                },
                SweepStage::Summarising => action@ is SendSummary,
                _ => false,
            },
        ensures
            run@.stage == SweepStage::Summarising,
        decreases
            if run@.stage == SweepStage::Summarising {
                0
            } else {
                all.len() - run@.position + 1
            },
    {
        match action {
            SweepAction::RemoveRoles { server_id: _, user_id, role_ids } => {
                let ghost at = run@.position;
                let ghost asked = removals@;
                let removed = !holds_role(refusing, user_id);
                removals.push(RoleRemoval { user_id, role_ids });
                assert(removal_views(removals@) =~= removal_views(asked).push(
                    RoleRemovalView {
                        user_id: all[at as int].user_id,
                        role_ids: all[at as int].role_ids,
                    },
                ));
                assert(removal_views(removals@) == expected_removals(all, primary_role, at + 1));
                let _ = run.step(SweepEvent::RolesRemoved(removed));
                proof {
                    lemma_revocations_skip(all, primary_role, refusing@, at + 1);
                    lemma_removals_skip(all, primary_role, at + 1);
                    lemma_next_offender_bounds(all, primary_role, at + 1);
                }
                action = run.step(SweepEvent::Done);
            },
            _ => {
                break ;
            },
        }
    }
    let _ = run.step(SweepEvent::Done);
    SweepReport {
        stage: run.stage(),
        total_members_seen: run.total_members_seen(),
        members_revoked: run.members_revoked(),
        pages,
        removals,
    }
}

/// When nothing is refused, the sweep strips exactly the members who must
/// lose their roles: as many as there are, no more and no fewer.
pub proof fn lemma_revocations_without_refusals(
    members: Seq<MemberView>,
    primary_role: Option<u64>,
    upto: nat,
)
    ensures
        revocations(members, primary_role, Seq::empty(), upto) == offenders(
            members,
            primary_role,
            upto,
        ),
    decreases upto,
{
    if upto > 0 && upto <= members.len() {
        lemma_revocations_without_refusals(members, primary_role, (upto - 1) as nat);
    }
}

/// There are as many removals asked for as there are members who must
/// lose their roles.
pub proof fn lemma_one_removal_per_offender(
    members: Seq<MemberView>,
    primary_role: Option<u64>,
    upto: nat,
)
    ensures
        expected_removals(members, primary_role, upto).len() == offenders(
            members,
            primary_role,
            upto,
        ),
    decreases upto,
{
    if upto > 0 && upto <= members.len() {
        lemma_one_removal_per_offender(members, primary_role, (upto - 1) as nat);
    }
}

} // verus!
