use role_enforcer::classifier::{classify, holds_role, ClassificationResult, MemberSnapshot};

fn member(role_ids: Vec<u64>, is_bot: bool) -> MemberSnapshot {
    MemberSnapshot { user_id: 1, role_ids, is_bot }
}

#[test]
fn every_combination_has_its_verdict() {
    let primary: u64 = 10;
    for is_bot in [false, true] {
        for roles in [vec![], vec![20, 30], vec![20, primary]] {
            let subject = member(roles.clone(), is_bot);
            assert_eq!(ClassificationResult::Compliant, classify(&subject, None));
            let expected = if roles.contains(&primary) {
                ClassificationResult::Compliant
            } else if is_bot {
                ClassificationResult::ExemptBot
            } else if roles.is_empty() {
                ClassificationResult::NoRolesHeld
            } else {
                ClassificationResult::MustRevokeAll
            };
            assert_eq!(expected, classify(&subject, Some(primary)));
        }
    }
}

#[test]
fn no_primary_role_means_compliant() {
    assert_eq!(ClassificationResult::Compliant, classify(&member(vec![], false), None));
    assert_eq!(ClassificationResult::Compliant, classify(&member(vec![4, 5], false), None));
    assert_eq!(ClassificationResult::Compliant, classify(&member(vec![4, 5], true), None));
}

#[test]
fn holding_the_primary_role_comes_before_the_bot_exemption() {
    assert_eq!(ClassificationResult::Compliant, classify(&member(vec![10], true), Some(10)));
    assert_eq!(ClassificationResult::Compliant, classify(&member(vec![3, 10, 4], false), Some(10)));
}

#[test]
fn bot_exemption_comes_before_the_empty_role_set() {
    assert_eq!(ClassificationResult::ExemptBot, classify(&member(vec![], true), Some(10)));
    assert_eq!(ClassificationResult::ExemptBot, classify(&member(vec![3], true), Some(10)));
}

#[test]
fn human_without_roles_holds_nothing_to_revoke() {
    assert_eq!(ClassificationResult::NoRolesHeld, classify(&member(vec![], false), Some(10)));
}

#[test]
fn human_with_other_roles_must_lose_them() {
    assert_eq!(ClassificationResult::MustRevokeAll, classify(&member(vec![3], false), Some(10)));
    assert_eq!(ClassificationResult::MustRevokeAll, classify(&member(vec![3, 4], false), Some(10)));
}

#[test]
fn order_and_repetition_of_roles_do_not_matter() {
    let a = member(vec![3, 4, 10], false);
    let b = member(vec![10, 4, 3, 3], false);
    assert_eq!(classify(&a, Some(10)), classify(&b, Some(10)));
    assert_eq!(classify(&a, Some(5)), classify(&b, Some(5)));
}

#[test]
fn holds_role_finds_what_is_there() {
    assert!(!holds_role(&vec![], 1));
    assert!(holds_role(&vec![1], 1));
    assert!(holds_role(&vec![3, 2, 1], 1));
    assert!(!holds_role(&vec![3, 2], 1));
}

#[test]
fn duplicate_copies_the_snapshot() {
    let subject = MemberSnapshot { user_id: 77, role_ids: vec![5, 6], is_bot: true };
    assert_eq!(subject, subject.duplicate());
}
