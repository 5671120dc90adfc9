//! Reactive enforcement: what to do when the platform reports that one
//! member's roles have changed.
//!
//! The reported roles only decide whether to look closer. What is removed
//! is what the member holds when asked again, because the report may be
//! stale by then.

use vstd::prelude::*;
use crate::classifier::{classification, classify, ClassificationResult, MemberSnapshot, MemberView};
use crate::data::AppData;
use crate::throttle::MUTATION_DELAY_MS;

verus! {

/// How the handling of one membership change ended.
#[derive(Clone, Copy, Debug, PartialEq, Eq, Structural)]
pub enum EnforcementOutcome {
    /// Enforcement is off for the server.
    AutoScanDisabled,
    /// The server has no primary role.
    NoPrimaryRole,
    /// The reported roles call for no action: the member complies, is a
    /// bot, or holds no roles.
    NotRequired(ClassificationResult),
    /// The member's current record could not be fetched.
    MemberUnavailable,
    /// The member's roles were removed.
    Revoked,
    /// The removal failed. It is not tried again; the next change reported
    /// for the member brings a new evaluation.
    RemovalFailed,
}

/// Where the handling of one membership change stands.
#[derive(Clone, Copy, Debug, PartialEq, Eq, Structural)]
pub enum EnforcementStage {
    /// The member's current record has been asked for.
    FetchingMember,
    /// The removal of the member's roles is under way.
    Removing,
    /// Pausing after the removal, which succeeded or not as recorded.
    Pausing { removed: bool },
    /// Over.
    Finished(EnforcementOutcome),
}

/// What the outside world reports back.
#[derive(Debug)]
pub enum EnforcementEvent {
    /// The member's current record, or `None` if it could not be fetched.
    MemberFetched(Option<MemberSnapshot>),
    /// Whether the requested role removal succeeded.
    RolesRemoved(bool),
    /// The pause is over.
    Done,
}

/// What an `EnforcementEvent` stands for in contracts.
pub enum EnforcementEventView {
    MemberFetched(Option<MemberView>),
    RolesRemoved(bool),
    Done,
}

impl View for EnforcementEvent {
    type V = EnforcementEventView;

    open spec fn view(&self) -> EnforcementEventView {
        match self {
            EnforcementEvent::MemberFetched(None) => EnforcementEventView::MemberFetched(None),
            EnforcementEvent::MemberFetched(Some(member)) => EnforcementEventView::MemberFetched(
                Some(member@),
            ),
            EnforcementEvent::RolesRemoved(ok) => EnforcementEventView::RolesRemoved(*ok),
            EnforcementEvent::Done => EnforcementEventView::Done,
        }
    }
}

/// What to do next.
#[derive(Debug, PartialEq, Eq)]
pub enum EnforcementAction {
    /// Fetch the member's current record; answer with `MemberFetched`.
    FetchMember { server_id: u64, user_id: u64 },
    /// Remove these roles from the member; answer with `RolesRemoved`.
    RemoveRoles { server_id: u64, user_id: u64, role_ids: Vec<u64> },
    /// Pause; answer with `Done`.
    Wait { millis: u64 },
    /// Nothing more to do.
    Finish,
    /// The event did not answer what had been asked; it was left aside.
    Ignored,
}

/// What an `EnforcementAction` stands for in contracts.
pub enum EnforcementActionView {
    FetchMember { server_id: u64, user_id: u64 },
    RemoveRoles { server_id: u64, user_id: u64, role_ids: Seq<u64> },
    Wait { millis: u64 },
    Finish,
    Ignored,
}

impl View for EnforcementAction {
    type V = EnforcementActionView;

    open spec fn view(&self) -> EnforcementActionView {
        match self {
            EnforcementAction::FetchMember { server_id, user_id } => EnforcementActionView::FetchMember {
                server_id: *server_id,
                user_id: *user_id,
            },
            EnforcementAction::RemoveRoles { server_id, user_id, role_ids } => EnforcementActionView::RemoveRoles {
                server_id: *server_id,
                user_id: *user_id,
                role_ids: role_ids@,
            },
            EnforcementAction::Wait { millis } => EnforcementActionView::Wait { millis: *millis },
            EnforcementAction::Finish => EnforcementActionView::Finish,
            EnforcementAction::Ignored => EnforcementActionView::Ignored,
        }
    }
}

/// The handling of one membership change.
#[derive(Clone, Copy, Debug, PartialEq, Eq, Structural)]
pub struct ReactiveEnforcer {
    pub server_id: u64,
    pub user_id: u64,
    pub stage: EnforcementStage,
}

impl ReactiveEnforcer {
    /// The handling ends at once.
    pub open spec fn finished(server_id: u64, user_id: u64, outcome: EnforcementOutcome) -> (
        ReactiveEnforcer,
        EnforcementActionView,
    ) {
        (
            ReactiveEnforcer { server_id, user_id, stage: EnforcementStage::Finished(outcome) },
            EnforcementActionView::Finish,
        )
    }

    /// What a reported change leads to, given what the store says of the
    /// server: nothing where enforcement is off, where no primary role is
    /// set, or where the reported roles call for no action; a look at the
    /// member's current record otherwise. The primary role plays no part
    /// where enforcement is off.
    pub open spec fn begin(
        auto_scan: bool,
        primary_role: Option<u64>,
        server_id: u64,
        member: MemberView,
    ) -> (ReactiveEnforcer, EnforcementActionView) {
        if !auto_scan {
            Self::finished(server_id, member.user_id, EnforcementOutcome::AutoScanDisabled)
        } else if primary_role is None {
            Self::finished(server_id, member.user_id, EnforcementOutcome::NoPrimaryRole)
        } else if classification(member, primary_role) != ClassificationResult::MustRevokeAll {
            Self::finished(
                server_id,
                member.user_id,
                EnforcementOutcome::NotRequired(classification(member, primary_role)),
            )
        } else {
            (
                ReactiveEnforcer {
                    server_id,
                    user_id: member.user_id,
                    stage: EnforcementStage::FetchingMember,
                },
                EnforcementActionView::FetchMember { server_id, user_id: member.user_id },
            )
        }
    }

    /// One step: the state after `event`, and what to do next.
    pub open spec fn next(self, event: EnforcementEventView) -> (
        ReactiveEnforcer,
        EnforcementActionView,
    ) {
        match (self.stage, event) {
            (
                EnforcementStage::FetchingMember,
                EnforcementEventView::MemberFetched(None),
            ) => Self::finished(self.server_id, self.user_id, EnforcementOutcome::MemberUnavailable),
            (EnforcementStage::FetchingMember, EnforcementEventView::MemberFetched(Some(live))) => (
                ReactiveEnforcer { stage: EnforcementStage::Removing, ..self },
                EnforcementActionView::RemoveRoles {
                    server_id: self.server_id,
                    user_id: self.user_id,
                    role_ids: live.role_ids,
                },
            ),
            (EnforcementStage::Removing, EnforcementEventView::RolesRemoved(removed)) => (
                ReactiveEnforcer { stage: EnforcementStage::Pausing { removed }, ..self },
                EnforcementActionView::Wait { millis: MUTATION_DELAY_MS },
            ),
            (EnforcementStage::Pausing { removed }, EnforcementEventView::Done) => Self::finished(
                self.server_id,
                self.user_id,
                if removed {
                    EnforcementOutcome::Revoked
                } else {
                    EnforcementOutcome::RemovalFailed
                },
            ),
            _ => (self, EnforcementActionView::Ignored),
        }
    }

    /// Takes up a reported membership change, given what the store says
    /// of the server: `member` is the member as the report shows it.
    pub fn begin_with(
        auto_scan: bool,
        primary_role: Option<u64>,
        server_id: u64,
        member: &MemberSnapshot,
    ) -> (started: (ReactiveEnforcer, EnforcementAction))
        ensures
            (started.0, started.1@) == Self::begin(auto_scan, primary_role, server_id, member@),
    {
        let user_id = member.user_id;
        if !auto_scan {
            return (
                ReactiveEnforcer {
                    server_id,
                    user_id,
                    stage: EnforcementStage::Finished(EnforcementOutcome::AutoScanDisabled),
                },
                EnforcementAction::Finish,
            );
        }
        if primary_role.is_none() {
            return (
                ReactiveEnforcer {
                    server_id,
                    user_id,
                    stage: EnforcementStage::Finished(EnforcementOutcome::NoPrimaryRole),
                },
                EnforcementAction::Finish,
            );
        }
        let verdict = classify(member, primary_role);
        if verdict != ClassificationResult::MustRevokeAll {
            return (
                ReactiveEnforcer {
                    server_id,
                    user_id,
                    stage: EnforcementStage::Finished(EnforcementOutcome::NotRequired(verdict)),
                },
                EnforcementAction::Finish,
            );
        }
        (
            ReactiveEnforcer { server_id, user_id, stage: EnforcementStage::FetchingMember },
            EnforcementAction::FetchMember { server_id, user_id },
        )
    }

    /// Takes up a reported membership change: `member` is the member as the
    /// report shows it. Asks the store whether enforcement is on for the
    /// server and, only if it is, for the server's primary role; what
    /// follows is `begin` of what the store said.
    pub fn on_member_update(app_data: &AppData, server_id: u64, member: &MemberSnapshot) -> (started: (
        ReactiveEnforcer,
        EnforcementAction,
    ))
        ensures
            exists|auto_scan: bool, primary_role: Option<u64>|
                (started.0, started.1@) == #[trigger] Self::begin(
                    auto_scan,
                    primary_role,
                    server_id,
                    member@,
                ),
    {
        if !app_data.is_auto_scan_enabled(server_id) {
            let started = Self::begin_with(false, None, server_id, member);
            assert((started.0, started.1@) == Self::begin(false, None, server_id, member@));
            return started;
        }
        let primary_role = app_data.get_primary_role(server_id);
        let started = Self::begin_with(true, primary_role, server_id, member);
        assert((started.0, started.1@) == Self::begin(true, primary_role, server_id, member@));
        started
    }

    /// Takes what the outside world answered and says what to do next.
    ///
    /// An event that does not answer what was last asked for changes
    /// nothing and yields `EnforcementAction::Ignored`.
    pub fn step(&mut self, event: EnforcementEvent) -> (action: EnforcementAction)
        ensures
            (*final(self), action@) == old(self).next(event@),
    {
        match (self.stage, event) {
            (EnforcementStage::FetchingMember, EnforcementEvent::MemberFetched(None)) => {
                self.stage = EnforcementStage::Finished(EnforcementOutcome::MemberUnavailable);
                EnforcementAction::Finish
            },
            (EnforcementStage::FetchingMember, EnforcementEvent::MemberFetched(Some(live))) => {
                self.stage = EnforcementStage::Removing;
                EnforcementAction::RemoveRoles {
                    server_id: self.server_id,
                    user_id: self.user_id,
                    role_ids: live.role_ids,
                }
            },
            (EnforcementStage::Removing, EnforcementEvent::RolesRemoved(removed)) => {
                self.stage = EnforcementStage::Pausing { removed };
                EnforcementAction::Wait { millis: MUTATION_DELAY_MS }
            },
            (EnforcementStage::Pausing { removed }, EnforcementEvent::Done) => {
                self.stage = EnforcementStage::Finished(
                    if removed {
                        EnforcementOutcome::Revoked
                    } else {
                        EnforcementOutcome::RemovalFailed
                    },
                );
                EnforcementAction::Finish
            },
            _ => EnforcementAction::Ignored,
        }
    }
}

/// A reported change leads to at most one removal, and to one only where
/// enforcement is on, a primary role is set, and the reported roles show a
/// human member who lacks that role and holds others.
pub proof fn lemma_removal_needs_cause(
    auto_scan: bool,
    primary_role: Option<u64>,
    server_id: u64,
    member: MemberView,
)
    ensures
        ReactiveEnforcer::begin(auto_scan, primary_role, server_id, member).0.stage
            == EnforcementStage::FetchingMember <==> (auto_scan && primary_role is Some
            && classification(member, primary_role) == ClassificationResult::MustRevokeAll),
        ReactiveEnforcer::begin(auto_scan, primary_role, server_id, member).0.stage
            != EnforcementStage::FetchingMember ==> ReactiveEnforcer::begin(
            auto_scan,
            primary_role,
            server_id,
            member,
        ).1 == EnforcementActionView::Finish,
{
}

/// Once a removal has been asked for, no step asks for another.
pub proof fn lemma_single_removal(enforcer: ReactiveEnforcer, event: EnforcementEventView)
    requires
        enforcer.stage != EnforcementStage::FetchingMember,
    ensures
        !(enforcer.next(event).1 is RemoveRoles),
        enforcer.next(event).0.stage != EnforcementStage::FetchingMember,
{
}

} // verus!
