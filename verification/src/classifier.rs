//! Decides, for one member at one moment, whether enforcement has to act.

use vstd::prelude::*;

verus! {

/// A point-in-time reading of one member: who it is, which roles it holds
/// and whether it is a bot. The roles form a set; their order carries no
/// meaning.
#[derive(Clone, Debug, PartialEq, Eq)]
pub struct MemberSnapshot {
    pub user_id: u64,
    pub role_ids: Vec<u64>,
    pub is_bot: bool,
}

/// What a `MemberSnapshot` stands for in contracts.
pub struct MemberView {
    pub user_id: u64,
    pub role_ids: Seq<u64>,
    pub is_bot: bool,
}

impl View for MemberSnapshot {
    type V = MemberView;

    open spec fn view(&self) -> MemberView {
        MemberView { user_id: self.user_id, role_ids: self.role_ids@, is_bot: self.is_bot }
    }
}

impl MemberSnapshot {
    /// A second snapshot with the same content.
    pub fn duplicate(&self) -> (copy: MemberSnapshot)
        ensures
            copy@ == self@,
    {
        let mut role_ids: Vec<u64> = Vec::new();
        let mut i: usize = 0;
        while i < self.role_ids.len()
            invariant
                i <= self.role_ids.len(),
                role_ids@ == self.role_ids@.take(i as int),
            decreases self.role_ids.len() - i,
        {
            role_ids.push(self.role_ids[i]);
            assert(self.role_ids@.take(i as int).push(self.role_ids@[i as int])
                =~= self.role_ids@.take(i + 1));
            i += 1;
        }
        assert(self.role_ids@.take(self.role_ids.len() as int) =~= self.role_ids@);
        MemberSnapshot { user_id: self.user_id, role_ids, is_bot: self.is_bot }
    }
}

/// The verdict on one member.
#[derive(Clone, Copy, Debug, PartialEq, Eq, Structural)]
pub enum ClassificationResult {
    /// Nothing to enforce: no primary role is configured, or the member holds it.
    Compliant,
    /// The member lacks the primary role but is a bot, and bots are never stripped.
    ExemptBot,
    /// The member lacks the primary role and holds no role at all.
    NoRolesHeld,
    /// The member lacks the primary role and holds other roles: all of them go.
    MustRevokeAll,
}

/// The rules, in the order in which they apply.
pub open spec fn classification(member: MemberView, primary_role: Option<u64>) -> ClassificationResult {
    match primary_role {
        None => ClassificationResult::Compliant,
        Some(role) => if member.role_ids.contains(role) {
            ClassificationResult::Compliant
        } else if member.is_bot {
            ClassificationResult::ExemptBot
        } else if member.role_ids.len() == 0 {
            ClassificationResult::NoRolesHeld
        } else {
            ClassificationResult::MustRevokeAll
        },
    }
}

/// Whether `role` is among `roles`.
pub fn holds_role(roles: &Vec<u64>, role: u64) -> (held: bool)
    ensures
        held == roles@.contains(role),
{
    let mut i: usize = 0;
    while i < roles.len()
        invariant
            i <= roles.len(),
            forall|j: int| 0 <= j < i ==> roles@[j] != role,
        decreases roles.len() - i,
    {
        if roles[i] == role {
            return true;
        }
        i += 1;
    }
    false
}

/// Classifies a member against the server's primary role. Every input has
/// exactly one verdict, and reaching it needs nothing but the arguments.
pub fn classify(member: &MemberSnapshot, primary_role: Option<u64>) -> (verdict: ClassificationResult)
    ensures
        verdict == classification(member@, primary_role),
{
    match primary_role {
        None => ClassificationResult::Compliant,
        Some(role) => {
            if holds_role(&member.role_ids, role) {
                ClassificationResult::Compliant
            } else if member.is_bot {
                ClassificationResult::ExemptBot
            } else if member.role_ids.len() == 0 {
                ClassificationResult::NoRolesHeld
            } else {
                ClassificationResult::MustRevokeAll
            }
        },
    }
}

/// Only the set of roles counts: two role lists with the same elements get
/// the same verdict, whatever their order or repetitions.
pub proof fn lemma_classification_ignores_order(
    a: MemberView,
    b: MemberView,
    primary_role: Option<u64>,
)
    requires
        a.role_ids.to_set() == b.role_ids.to_set(),
        a.is_bot == b.is_bot,
    ensures
        classification(a, primary_role) == classification(b, primary_role),
{
    assert forall|r: u64| a.role_ids.contains(r) == b.role_ids.contains(r) by {
        assert(a.role_ids.to_set().contains(r) == a.role_ids.contains(r));
        assert(b.role_ids.to_set().contains(r) == b.role_ids.contains(r));
    }
    if a.role_ids.len() == 0 && b.role_ids.len() > 0 {
        assert(b.role_ids.contains(b.role_ids[0]));
    }
    if b.role_ids.len() == 0 && a.role_ids.len() > 0 {
        assert(a.role_ids.contains(a.role_ids[0]));
    }
}

/// Action is required for one verdict only, and that verdict needs a
/// configured role that the member lacks, a human member, and a role to take.
pub proof fn lemma_must_revoke_iff(member: MemberView, primary_role: Option<u64>)
    ensures
        classification(member, primary_role) == ClassificationResult::MustRevokeAll <==> (
        primary_role matches Some(role) && !member.role_ids.contains(role) && !member.is_bot
            && member.role_ids.len() > 0),
{
}

} // verus!
