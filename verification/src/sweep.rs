//! The bulk sweep: one pass over a server's whole membership that strips
//! the roles of every member who lacks the primary role.
//!
//! The sweep is a state machine. `SweepRun::step` takes what the platform
//! answered and says what to do next; whoever drives it performs that and
//! comes back with the answer.

use vstd::prelude::*;
use vstd::string::*;
use crate::classifier::{classification, classify, ClassificationResult, MemberSnapshot, MemberView};
use crate::text::{decimal, render_u64};
use crate::throttle::{MUTATION_DELAY_MS, PAGINATION_DELAY_MS};

verus! {

/// The largest number of members the platform returns in one page.
pub const DISCORD_BATCH_SIZE: u64 = 1000;

/// Where a sweep stands, as seen from outside.
#[derive(Clone, Copy, Debug, PartialEq, Eq, Structural)]
pub enum SweepPhase {
    NotStarted,
    FetchingCount,
    Paginating,
    Completed,
    Failed,
}

/// Why a sweep ended without scanning anyone.
#[derive(Clone, Copy, Debug, PartialEq, Eq, Structural)]
pub enum SweepFailure {
    /// The member count could not be fetched.
    MemberCount,
    /// No primary role is configured for the server.
    NoPrimaryRole,
    /// The server reports no members.
    NoMembers,
    /// The member list could not be fetched.
    MemberList,
}

/// Where a sweep stands, step by step.
#[derive(Clone, Copy, Debug, PartialEq, Eq, Structural)]
pub enum SweepStage {
    /// Nothing has been asked yet.
    NotStarted,
    /// The member count has been asked for.
    FetchingCount,
    /// The whole member list has been asked for in one call.
    FetchingAll,
    /// One page of the member list has been asked for.
    FetchingPage,
    /// Pausing before the next page.
    PageDelay,
    /// The acknowledgment is on its way to the invoking user.
    Acknowledging,
    /// A role removal for the member at the current position is under way.
    Removing,
    /// Pausing after a role removal.
    MutationDelay,
    /// The summary is on its way to the invoking user.
    Summarising,
    /// The sweep is over and its summary went out.
    Completed,
    /// The sweep gave up before scanning anyone.
    Failed(SweepFailure),
}

/// The phase a stage belongs to.
pub open spec fn phase_of(stage: SweepStage) -> SweepPhase {
    match stage {
        SweepStage::NotStarted => SweepPhase::NotStarted,
        SweepStage::FetchingCount => SweepPhase::FetchingCount,
        SweepStage::Completed => SweepPhase::Completed,
        SweepStage::Failed(_) => SweepPhase::Failed,
        _ => SweepPhase::Paginating,
    }
}

/// The arrows of the phase diagram; staying in a phase is always allowed.
pub open spec fn phase_may_follow(before: SweepPhase, after: SweepPhase) -> bool {
    ||| before == after
    ||| (before == SweepPhase::NotStarted && after == SweepPhase::FetchingCount)
    ||| (before == SweepPhase::FetchingCount && after == SweepPhase::Paginating)
    ||| (before == SweepPhase::FetchingCount && after == SweepPhase::Failed)
    ||| (before == SweepPhase::Paginating && after == SweepPhase::Failed)
    ||| (before == SweepPhase::Paginating && after == SweepPhase::Completed)
}

/// What the outside world reports back to a sweep.
#[derive(Debug)]
pub enum SweepEvent {
    /// Begin.
    Start,
    /// The server's approximate member count, or `None` if fetching it failed.
    MemberCount(Option<u64>),
    /// The members that a list request returned, in ascending order of
    /// identifier, or `None` if the request failed.
    Members(Option<Vec<MemberSnapshot>>),
    /// Whether the requested role removal succeeded.
    RolesRemoved(bool),
    /// The pause is over, or the message was handed to the platform
    /// (delivered or not).
    Done,
}

/// What a `SweepEvent` stands for in contracts.
pub enum SweepEventView {
    Start,
    MemberCount(Option<u64>),
    Members(Option<Seq<MemberView>>),
    RolesRemoved(bool),
    Done,
}

/// The views of a list of members, in the same order.
pub open spec fn member_views(members: Seq<MemberSnapshot>) -> Seq<MemberView> {
    members.map_values(|m: MemberSnapshot| m@)
}

impl View for SweepEvent {
    type V = SweepEventView;

    open spec fn view(&self) -> SweepEventView {
        match self {
            SweepEvent::Start => SweepEventView::Start,
            SweepEvent::MemberCount(count) => SweepEventView::MemberCount(*count),
            SweepEvent::Members(None) => SweepEventView::Members(None),
            SweepEvent::Members(Some(list)) => SweepEventView::Members(Some(member_views(list@))),
            SweepEvent::RolesRemoved(ok) => SweepEventView::RolesRemoved(*ok),
            SweepEvent::Done => SweepEventView::Done,
        }
    }
}

/// What a sweep asks the outside world to do next.
#[derive(Debug, PartialEq, Eq)]
pub enum SweepAction {
    /// Fetch the server's approximate member count; answer with `MemberCount`.
    FetchMemberCount { server_id: u64 },
    /// Fetch members with identifier above `after`, at most `limit` of them
    /// (`None`: the whole list); answer with `Members`.
    FetchMembers { server_id: u64, limit: Option<u64>, after: Option<u64> },
    /// Pause; answer with `Done`.
    Wait { millis: u64 },
    /// Tell the invoking user that the sweep is under way; answer with `Done`.
    Acknowledge { text: String },
    /// Remove these roles from this member; answer with `RolesRemoved`.
    RemoveRoles { server_id: u64, user_id: u64, role_ids: Vec<u64> },
    /// Send the invoking user the closing summary in private; answer with `Done`.
    SendSummary { user_id: u64, text: String },
    /// Tell the invoking user that the sweep failed. Nothing follows.
    Fail { text: String },
    /// The sweep is over. Nothing follows.
    Finish,
    /// The event did not answer what the sweep had asked; it was left aside.
    Ignored,
}

/// What a `SweepAction` stands for in contracts.
pub enum SweepActionView {
    FetchMemberCount { server_id: u64 },
    FetchMembers { server_id: u64, limit: Option<u64>, after: Option<u64> },
    Wait { millis: u64 },
    Acknowledge { text: Seq<char> },
    RemoveRoles { server_id: u64, user_id: u64, role_ids: Seq<u64> },
    SendSummary { user_id: u64, text: Seq<char> },
    Fail { text: Seq<char> },
    Finish,
    Ignored,
}

impl View for SweepAction {
    type V = SweepActionView;

    open spec fn view(&self) -> SweepActionView {
        match self {
            SweepAction::FetchMemberCount { server_id } => SweepActionView::FetchMemberCount {
                server_id: *server_id,
            },
            SweepAction::FetchMembers { server_id, limit, after } => SweepActionView::FetchMembers {
                server_id: *server_id,
                limit: *limit,
                after: *after,
            },
            SweepAction::Wait { millis } => SweepActionView::Wait { millis: *millis },
            SweepAction::Acknowledge { text } => SweepActionView::Acknowledge { text: text@ },
            SweepAction::RemoveRoles { server_id, user_id, role_ids } => SweepActionView::RemoveRoles {
                server_id: *server_id,
                user_id: *user_id,
                role_ids: role_ids@,
            },
            SweepAction::SendSummary { user_id, text } => SweepActionView::SendSummary {
                user_id: *user_id,
                text: text@,
            },
            SweepAction::Fail { text } => SweepActionView::Fail { text: text@ },
            SweepAction::Finish => SweepActionView::Finish,
            SweepAction::Ignored => SweepActionView::Ignored,
        }
    }
}

/// The message shown to the invoking user when a sweep fails.
pub open spec fn failure_text(failure: SweepFailure) -> Seq<char> {
    match failure {
        SweepFailure::MemberCount => "Failed to get the member count for this server"@,
        SweepFailure::NoPrimaryRole => "Failed to determine the primary role for this server"@,
        SweepFailure::NoMembers => "No members found in this server"@,
        SweepFailure::MemberList => "Failed to retrieve the list of members from the server"@,
    }
}

/// The acknowledgment that a sweep over `count` members is under way.
pub open spec fn acknowledgment_text(count: nat) -> Seq<char> {
    "Sweeping through "@ + decimal(count) + " members"@
}

/// The closing summary: `seen` members scanned, `revoked` of them stripped.
pub open spec fn summary_text(seen: nat, revoked: nat) -> Seq<char> {
    "Completed sweeping through "@ + decimal(seen) + " members, removed roles from "@ + decimal(
        revoked,
    ) + " members"@
}

impl SweepFailure {
    /// The message shown to the invoking user.
    pub fn message(&self) -> (text: String)
        ensures
            text@ == failure_text(*self),
    {
        match self {
            SweepFailure::MemberCount => String::from_str(
                "Failed to get the member count for this server",
            ),
            SweepFailure::NoPrimaryRole => String::from_str(
                "Failed to determine the primary role for this server",
            ),
            SweepFailure::NoMembers => String::from_str("No members found in this server"),
            SweepFailure::MemberList => String::from_str(
                "Failed to retrieve the list of members from the server",
            ),
        }
    }
}

/// Writes the acknowledgment for a sweep over `count` members.
pub fn acknowledgment(count: u64) -> (text: String)
    ensures
        text@ == acknowledgment_text(count as nat),
{
    let mut text = String::from_str("Sweeping through ");
    let number = render_u64(count);
    text.append(number.as_str());
    text.append(" members");
    text
}

/// Writes the closing summary.
pub fn summary(seen: u64, revoked: u64) -> (text: String)
    ensures
        text@ == summary_text(seen as nat, revoked as nat),
{
    let mut text = String::from_str("Completed sweeping through ");
    let first = render_u64(seen);
    text.append(first.as_str());
    text.append(" members, removed roles from ");
    let second = render_u64(revoked);
    text.append(second.as_str());
    text.append(" members");
    text
}

/// What a `SweepRun` stands for in contracts.
pub struct SweepView {
    pub server_id: u64,
    pub invoking_user_id: u64,
    /// The primary role as it was when the sweep was created.
    pub primary_role_id: Option<u64>,
    pub page_size: u64,
    pub stage: SweepStage,
    /// The last member identifier seen, the lower bound of the next page.
    pub cursor: Option<u64>,
    /// The members fetched so far, in the order in which they came.
    pub members: Seq<MemberView>,
    /// How many of `members` the scan has dealt with.
    pub position: nat,
    pub total_members_seen: nat,
    pub members_revoked: nat,
}

impl SweepView {
    /// What holds of every sweep between two steps.
    pub open spec fn wf(self) -> bool {
        &&& self.members.len() <= usize::MAX
        &&& self.total_members_seen == self.members.len()
        &&& self.position <= self.members.len()
        &&& match self.stage {
            SweepStage::Removing => self.position < self.members.len() && self.members_revoked
                <= self.position,
            SweepStage::MutationDelay => self.position < self.members.len() && self.members_revoked
                <= self.position + 1,
            SweepStage::Summarising | SweepStage::Completed => self.position == self.members.len()
                && self.members_revoked <= self.position,
            _ => self.position == 0 && self.members_revoked == 0,
        }
    }

    /// The sweep as it is before its first step.
    pub open spec fn initial(
        server_id: u64,
        invoking_user_id: u64,
        primary_role_id: Option<u64>,
        page_size: u64,
    ) -> SweepView {
        SweepView {
            server_id,
            invoking_user_id,
            primary_role_id,
            page_size,
            stage: SweepStage::NotStarted,
            cursor: None,
            members: Seq::empty(),
            position: 0,
            total_members_seen: 0,
            members_revoked: 0,
        }
    }

    /// The sweep gives up.
    pub open spec fn fail(self, failure: SweepFailure) -> (SweepView, SweepActionView) {
        (
            SweepView { stage: SweepStage::Failed(failure), ..self },
            SweepActionView::Fail { text: failure_text(failure) },
        )
    }

    /// A batch of members joins those already fetched; the cursor moves to
    /// the last of them.
    pub open spec fn with_batch(self, batch: Seq<MemberView>) -> SweepView {
        SweepView {
            members: self.members + batch,
            total_members_seen: self.total_members_seen + batch.len(),
            cursor: if batch.len() > 0 {
                Some(batch.last().user_id)
            } else {
                self.cursor
            },
            ..self
        }
    }

    /// The member list is complete: the invoking user is told how many
    /// members the sweep will go through.
    pub open spec fn acknowledge(self) -> (SweepView, SweepActionView) {
        (
            SweepView { stage: SweepStage::Acknowledging, ..self },
            SweepActionView::Acknowledge { text: acknowledgment_text(self.total_members_seen) },
        )
    }

    /// The scan goes on from position `from`: members that need no action
    /// are passed over; the first one that does gets its roles removed; past
    /// the last member the summary goes out.
    pub open spec fn scan_from(self, from: nat) -> (SweepView, SweepActionView) {
        let at = next_offender(self.members, self.primary_role_id, from);
        if at < self.members.len() {
            (
                SweepView { stage: SweepStage::Removing, position: at, ..self },
                SweepActionView::RemoveRoles {
                    server_id: self.server_id,
                    user_id: self.members[at as int].user_id,
                    role_ids: self.members[at as int].role_ids,
                },
            )
        } else {
            (
                SweepView { stage: SweepStage::Summarising, position: self.members.len(), ..self },
                SweepActionView::SendSummary {
                    user_id: self.invoking_user_id,
                    text: summary_text(self.total_members_seen, self.members_revoked),
                },
            )
        }
    }

    /// One step of the sweep: the state after `event`, and what to do next.
    pub open spec fn step(self, event: SweepEventView) -> (SweepView, SweepActionView) {
        match (self.stage, event) {
            (SweepStage::NotStarted, SweepEventView::Start) => (
                SweepView { stage: SweepStage::FetchingCount, ..self },
                SweepActionView::FetchMemberCount { server_id: self.server_id },
            ),
            (SweepStage::FetchingCount, SweepEventView::MemberCount(None)) => self.fail(
                SweepFailure::MemberCount,
            ),
            (SweepStage::FetchingCount, SweepEventView::MemberCount(Some(count))) => {
                if self.primary_role_id is None {
                    self.fail(SweepFailure::NoPrimaryRole)
                } else if count == 0 {
                    self.fail(SweepFailure::NoMembers)
                } else if count < self.page_size {
                    (
                        SweepView { stage: SweepStage::FetchingAll, ..self },
                        SweepActionView::FetchMembers {
                            server_id: self.server_id,
                            limit: None,
                            after: None,
                        },
                    )
                } else {
                    (
                        SweepView { stage: SweepStage::FetchingPage, ..self },
                        SweepActionView::FetchMembers {
                            server_id: self.server_id,
                            limit: Some(self.page_size),
                            after: None,
                        },
                    )
                }
            },
            (SweepStage::FetchingAll, SweepEventView::Members(None)) => self.fail(
                SweepFailure::MemberList,
            ),
            (SweepStage::FetchingAll, SweepEventView::Members(Some(list))) => self.with_batch(
                list,
            ).acknowledge(),
            (SweepStage::FetchingPage, SweepEventView::Members(None)) => self.fail(
                SweepFailure::MemberList,
            ),
            (SweepStage::FetchingPage, SweepEventView::Members(Some(page))) => {
                if page.len() == 0 || page.len() < self.page_size {
                    self.with_batch(page).acknowledge()
                } else {
                    (
                        SweepView { stage: SweepStage::PageDelay, ..self.with_batch(page) },
                        SweepActionView::Wait { millis: PAGINATION_DELAY_MS },
                    )
                }
            },
            (SweepStage::PageDelay, SweepEventView::Done) => (
                SweepView { stage: SweepStage::FetchingPage, ..self },
                SweepActionView::FetchMembers {
                    server_id: self.server_id,
                    limit: Some(self.page_size),
                    after: self.cursor,
                },
            ),
            (SweepStage::Acknowledging, SweepEventView::Done) => self.scan_from(0),
            (SweepStage::Removing, SweepEventView::RolesRemoved(removed)) => (
                SweepView {
                    stage: SweepStage::MutationDelay,
                    members_revoked: if removed {
                        self.members_revoked + 1
                    } else {
                        self.members_revoked
                    },
                    ..self
                },
                SweepActionView::Wait { millis: MUTATION_DELAY_MS },
            ),
            (SweepStage::MutationDelay, SweepEventView::Done) => self.scan_from(self.position + 1),
            (SweepStage::Summarising, SweepEventView::Done) => (
                SweepView { stage: SweepStage::Completed, ..self },
                SweepActionView::Finish,
            ),
            _ => (self, SweepActionView::Ignored),
        }
    }
}

/// The first position at or after `from` whose member must lose its roles,
/// or the length of the list if there is none.
pub open spec fn next_offender(members: Seq<MemberView>, primary_role: Option<u64>, from: nat) -> nat
    decreases members.len() - from,
{
    if from >= members.len() {
        members.len()
    } else if classification(members[from as int], primary_role)
        == ClassificationResult::MustRevokeAll {
        from
    } else {
        next_offender(members, primary_role, from + 1)
    }
}

/// A step keeps a well-formed sweep well-formed and moves it along the
/// phase diagram only: from not started to fetching the count, from there
/// to paginating or to failure, from paginating to completion or to
/// failure. Completed and failed sweeps stay as they are.
pub proof fn lemma_step_keeps_order(run: SweepView, event: SweepEventView)
    requires
        run.wf(),
        event matches SweepEventView::Members(Some(list)) ==> run.members.len() + list.len()
            <= usize::MAX,
    ensures
        run.step(event).0.wf(),
        phase_may_follow(phase_of(run.stage), phase_of(run.step(event).0.stage)),
        phase_of(run.stage) == SweepPhase::Completed || phase_of(run.stage) == SweepPhase::Failed
            ==> run.step(event) == (run, SweepActionView::Ignored),
        run.step(event).0.server_id == run.server_id,
        run.step(event).0.invoking_user_id == run.invoking_user_id,
        run.step(event).0.primary_role_id == run.primary_role_id,
        run.step(event).0.page_size == run.page_size,
{
    lemma_next_offender_bounds(run.members, run.primary_role_id, 0);
    lemma_next_offender_bounds(run.members, run.primary_role_id, run.position + 1);
}

/// `next_offender` never goes backwards nor past the end, and what it
/// lands on is an offender.
pub proof fn lemma_next_offender_bounds(members: Seq<MemberView>, primary_role: Option<u64>, from: nat)
    ensures
        from <= members.len() ==> from <= next_offender(members, primary_role, from),
        next_offender(members, primary_role, from) <= members.len(),
        next_offender(members, primary_role, from) < members.len() ==> classification(
            members[next_offender(members, primary_role, from) as int],
            primary_role,
        ) == ClassificationResult::MustRevokeAll,
    decreases members.len() - from,
{
    if from < members.len() && classification(members[from as int], primary_role)
        != ClassificationResult::MustRevokeAll {
        lemma_next_offender_bounds(members, primary_role, from + 1);
    }
}

/// One sweep over one server, from the command that starts it to the
/// summary that ends it.
pub struct SweepRun {
    server_id: u64,
    invoking_user_id: u64,
    primary_role_id: Option<u64>,
    page_size: u64,
    stage: SweepStage,
    cursor: Option<u64>,
    members: Vec<MemberSnapshot>,
    position: usize,
    total_members_seen: u64,
    members_revoked: u64,
}

impl View for SweepRun {
    type V = SweepView;

    closed spec fn view(&self) -> SweepView {
        SweepView {
            server_id: self.server_id,
            invoking_user_id: self.invoking_user_id,
            primary_role_id: self.primary_role_id,
            page_size: self.page_size,
            stage: self.stage,
            cursor: self.cursor,
            members: member_views(self.members@),
            position: self.position as nat,
            total_members_seen: self.total_members_seen as nat,
            members_revoked: self.members_revoked as nat,
        }
    }
}

/// A copy of a list of identifiers.
fn copy_ids(ids: &Vec<u64>) -> (copy: Vec<u64>)
    ensures
        copy@ == ids@,
{
    let mut copy: Vec<u64> = Vec::new();
    let mut i: usize = 0;
    while i < ids.len()
        invariant
            i <= ids.len(),
            copy@ == ids@.take(i as int),
        decreases ids.len() - i,
    {
        copy.push(ids[i]);
        assert(ids@.take(i as int).push(ids@[i as int]) =~= ids@.take(i + 1));
        i += 1;
    }
    assert(ids@.take(ids.len() as int) =~= ids@);
    copy
}

impl SweepRun {
    /// A sweep of `server_id` on behalf of `invoking_user_id`, not yet
    /// started. The primary role is fixed here for the whole run: a change
    /// of configuration while the sweep is under way does not reach it.
    pub fn new(
        server_id: u64,
        invoking_user_id: u64,
        primary_role_id: Option<u64>,
        page_size: u64,
    ) -> (run: SweepRun)
        ensures
            run@ == SweepView::initial(server_id, invoking_user_id, primary_role_id, page_size),
            run@.wf(),
    {
        let run = SweepRun {
            server_id,
            invoking_user_id,
            primary_role_id,
            page_size,
            stage: SweepStage::NotStarted,
            cursor: None,
            members: Vec::new(),
            position: 0,
            total_members_seen: 0,
            members_revoked: 0,
        };
        assert(member_views(run.members@) =~= Seq::empty());
        run
    }

    fn fail(&mut self, failure: SweepFailure) -> (action: SweepAction)
        ensures
            (final(self)@, action@) == old(self)@.fail(failure),
    {
        self.stage = SweepStage::Failed(failure);
        SweepAction::Fail { text: failure.message() }
    }

    fn take_batch(&mut self, batch: Vec<MemberSnapshot>)
        requires
            old(self)@.wf(),
        ensures
            final(self)@ == old(self)@.with_batch(member_views(batch@)),
            final(self)@.members.len() <= usize::MAX,
    {
        let mut batch = batch;
        let count = batch.len();
        if count > 0 {
            self.cursor = Some(batch[count - 1].user_id);
        }
        let ghost before = self.members@;
        let ghost added = batch@;
        self.members.append(&mut batch);
        self.total_members_seen = self.members.len() as u64;
        assert(member_views(before + added) =~= member_views(before) + member_views(added));
    }

    fn acknowledge(&mut self) -> (action: SweepAction)
        ensures
            (final(self)@, action@) == old(self)@.acknowledge(),
    {
        self.stage = SweepStage::Acknowledging;
        SweepAction::Acknowledge { text: acknowledgment(self.total_members_seen) }
    }

    fn scan_from(&mut self, from: usize) -> (action: SweepAction)
        requires
            from <= old(self)@.members.len(),
        ensures
            (final(self)@, action@) == old(self)@.scan_from(from as nat),
    {
        let ghost members = self@.members;
        let ghost role = self.primary_role_id;
        let mut at: usize = from;
        while at < self.members.len() && classify(&self.members[at], self.primary_role_id)
            != ClassificationResult::MustRevokeAll
            invariant
                from <= at <= self.members.len(),
                members == member_views(self.members@),
                role == self.primary_role_id,
                next_offender(members, role, from as nat) == next_offender(members, role, at as nat),
            decreases self.members.len() - at,
        {
            at += 1;
        }
        if at < self.members.len() {
            self.stage = SweepStage::Removing;
            self.position = at;
            SweepAction::RemoveRoles {
                server_id: self.server_id,
                user_id: self.members[at].user_id,
                role_ids: copy_ids(&self.members[at].role_ids),
            }
        } else {
            self.stage = SweepStage::Summarising;
            self.position = self.members.len();
            SweepAction::SendSummary {
                user_id: self.invoking_user_id,
                text: summary(self.total_members_seen, self.members_revoked),
            }
        }
    }

    /// Takes what the outside world answered and says what to do next.
    ///
    /// An event that does not answer what the sweep last asked for changes
    /// nothing and yields `SweepAction::Ignored`.
    pub fn step(&mut self, event: SweepEvent) -> (action: SweepAction)
        requires
            old(self)@.wf(),
        ensures
            (final(self)@, action@) == old(self)@.step(event@),
            final(self)@.wf(),
    {
        proof {
            lemma_next_offender_bounds(self@.members, self@.primary_role_id, 0);
            lemma_next_offender_bounds(self@.members, self@.primary_role_id, self@.position + 1);
        }
        match (self.stage, event) {
            (SweepStage::NotStarted, SweepEvent::Start) => {
                self.stage = SweepStage::FetchingCount;
                SweepAction::FetchMemberCount { server_id: self.server_id }
            },
            (SweepStage::FetchingCount, SweepEvent::MemberCount(None)) => self.fail(
                SweepFailure::MemberCount,
            ),
            (SweepStage::FetchingCount, SweepEvent::MemberCount(Some(count))) => {
                if self.primary_role_id.is_none() {
                    self.fail(SweepFailure::NoPrimaryRole)
                } else if count == 0 {
                    self.fail(SweepFailure::NoMembers)
                } else if count < self.page_size {
                    self.stage = SweepStage::FetchingAll;
                    SweepAction::FetchMembers { server_id: self.server_id, limit: None, after: None }
                } else {
                    self.stage = SweepStage::FetchingPage;
                    SweepAction::FetchMembers {
                        server_id: self.server_id,
                        limit: Some(self.page_size),
                        after: None,
                    }
                }
            },
            (SweepStage::FetchingAll, SweepEvent::Members(None)) => self.fail(
                SweepFailure::MemberList,
            ),
            (SweepStage::FetchingAll, SweepEvent::Members(Some(list))) => {
                self.take_batch(list);
                self.acknowledge()
            },
            (SweepStage::FetchingPage, SweepEvent::Members(None)) => self.fail(
                SweepFailure::MemberList,
            ),
            (SweepStage::FetchingPage, SweepEvent::Members(Some(page))) => {
                let count = page.len();
                self.take_batch(page);
                if count == 0 || (count as u64) < self.page_size {
                    self.acknowledge()
                } else {
                    self.stage = SweepStage::PageDelay;
                    SweepAction::Wait { millis: PAGINATION_DELAY_MS }
                }
            },
            (SweepStage::PageDelay, SweepEvent::Done) => {
                self.stage = SweepStage::FetchingPage;
                SweepAction::FetchMembers {
                    server_id: self.server_id,
                    limit: Some(self.page_size),
                    after: self.cursor,
                }
            },
            (SweepStage::Acknowledging, SweepEvent::Done) => self.scan_from(0),
            (SweepStage::Removing, SweepEvent::RolesRemoved(removed)) => {
                self.stage = SweepStage::MutationDelay;
                if removed {
                    self.members_revoked = self.members_revoked + 1;
                }
                SweepAction::Wait { millis: MUTATION_DELAY_MS }
            },
            (SweepStage::MutationDelay, SweepEvent::Done) => {
                let from = self.position + 1;
                self.scan_from(from)
            },
            (SweepStage::Summarising, SweepEvent::Done) => {
                self.stage = SweepStage::Completed;
                SweepAction::Finish
            },
            _ => SweepAction::Ignored,
        }
    }

    /// The phase the sweep is in.
    pub fn phase(&self) -> (phase: SweepPhase)
        ensures
            phase == phase_of(self@.stage),
    {
        match self.stage {
            SweepStage::NotStarted => SweepPhase::NotStarted,
            SweepStage::FetchingCount => SweepPhase::FetchingCount,
            SweepStage::Completed => SweepPhase::Completed,
            SweepStage::Failed(_) => SweepPhase::Failed,
            _ => SweepPhase::Paginating,
        }
    }

    /// The stage the sweep is in.
    pub fn stage(&self) -> (stage: SweepStage)
        ensures
            stage == self@.stage,
    {
        self.stage
    }

    /// The server being swept.
    pub fn server_id(&self) -> (id: u64)
        ensures
            id == self@.server_id,
    {
        self.server_id
    }

    /// The primary role that the sweep enforces, as it was at its creation.
    pub fn primary_role_id(&self) -> (role: Option<u64>)
        ensures
            role == self@.primary_role_id,
    {
        self.primary_role_id
    }

    /// The last member identifier seen while paginating.
    pub fn cursor(&self) -> (cursor: Option<u64>)
        ensures
            cursor == self@.cursor,
    {
        self.cursor
    }

    /// How many members have been fetched.
    pub fn total_members_seen(&self) -> (count: u64)
        ensures
            count == self@.total_members_seen,
    {
        self.total_members_seen
    }

    /// How many members have had their roles removed.
    pub fn members_revoked(&self) -> (count: u64)
        ensures
            count == self@.members_revoked,
    {
        self.members_revoked
    }
}

} // verus!
