use role_enforcer::classifier::MemberSnapshot;
use role_enforcer::simulation::{simulate_sweep, simulated_page, PageRequest, RoleRemoval};
use role_enforcer::sweep::{
    acknowledgment, summary, SweepAction, SweepEvent, SweepFailure, SweepPhase, SweepRun,
    SweepStage, DISCORD_BATCH_SIZE,
};

const PRIMARY: u64 = 500;

/// Member `i` of a made-up server: every third one is compliant, every
/// seventh a bot, every eleventh without roles, the rest hold two other roles.
fn made_up_member(i: u64) -> MemberSnapshot {
    let role_ids = if i % 3 == 0 {
        vec![PRIMARY, 900]
    } else if i % 11 == 0 {
        vec![]
    } else {
        vec![900, 901]
    };
    MemberSnapshot { user_id: 10 * i + 1, role_ids, is_bot: i % 7 == 0 }
}

fn made_up_server(size: u64) -> Vec<MemberSnapshot> {
    (0..size).map(made_up_member).collect()
}

fn must_lose_roles(member: &MemberSnapshot) -> bool {
    !member.role_ids.contains(&PRIMARY) && !member.is_bot && !member.role_ids.is_empty()
}

/// What a driver saw while it ran a sweep by hand.
struct Trace {
    pages: Vec<usize>,
    waits: Vec<u64>,
    removals: Vec<(u64, Vec<u64>)>,
    acknowledgment: Option<String>,
    summary: Option<String>,
    failure: Option<String>,
}

/// Runs a sweep step by step against a list of members, answering each
/// action as a truthful platform would.
fn drive(run: &mut SweepRun, count: Option<u64>, members: &[MemberSnapshot], refusing: &[u64]) -> Trace {
    let mut trace = Trace {
        pages: vec![],
        waits: vec![],
        removals: vec![],
        acknowledgment: None,
        summary: None,
        failure: None,
    };
    let mut action = run.step(SweepEvent::Start);
    for _ in 0..1_000_000 {
        action = match action {
            SweepAction::FetchMemberCount { .. } => run.step(SweepEvent::MemberCount(count)),
            SweepAction::FetchMembers { limit, after, .. } => {
                let page: Vec<MemberSnapshot> = members
                    .iter()
                    .filter(|m| after.map_or(true, |bound| m.user_id > bound))
                    .take(limit.map_or(usize::MAX, |most| most as usize))
                    .cloned()
                    .collect();
                trace.pages.push(page.len());
                run.step(SweepEvent::Members(Some(page)))
            }
            SweepAction::Wait { millis } => {
                trace.waits.push(millis);
                run.step(SweepEvent::Done)
            }
            SweepAction::Acknowledge { text } => {
                trace.acknowledgment = Some(text);
                run.step(SweepEvent::Done)
            }
            SweepAction::RemoveRoles { user_id, role_ids, .. } => {
                trace.removals.push((user_id, role_ids));
                run.step(SweepEvent::RolesRemoved(!refusing.contains(&user_id)))
            }
            SweepAction::SendSummary { text, .. } => {
                trace.summary = Some(text);
                run.step(SweepEvent::Done)
            }
            SweepAction::Fail { text } => {
                trace.failure = Some(text);
                return trace;
            }
            SweepAction::Finish => return trace,
            SweepAction::Ignored => panic!("the driver answered out of turn"),
        };
    }
    panic!("the sweep did not end");
}

#[test]
fn batch_size_is_a_thousand() {
    assert_eq!(1000, DISCORD_BATCH_SIZE);
}

#[test]
fn sweep_of_2500_members_takes_three_pages() {
    let members = made_up_server(2500);
    let mut run = SweepRun::new(1, 2, Some(PRIMARY), 1000);
    let trace = drive(&mut run, Some(2500), &members, &[]);
    assert_eq!(vec![1000, 1000, 500], trace.pages);
    assert_eq!(SweepPhase::Completed, run.phase());
    assert_eq!(2500, run.total_members_seen());
    let expected = members.iter().filter(|m| must_lose_roles(m)).count() as u64;
    assert_eq!(expected, run.members_revoked());
    assert_eq!(Some("Sweeping through 2500 members".to_string()), trace.acknowledgment);
    assert_eq!(
        Some(format!(
            "Completed sweeping through 2500 members, removed roles from {} members",
            expected
        )),
        trace.summary
    );
    assert_eq!(Some(24991), run.cursor());
}

#[test]
fn simulated_sweep_of_2500_members() {
    let members = made_up_server(2500);
    let expected: Vec<RoleRemoval> = members
        .iter()
        .filter(|m| must_lose_roles(m))
        .map(|m| RoleRemoval { user_id: m.user_id, role_ids: m.role_ids.clone() })
        .collect();
    let report = simulate_sweep(1, 2, Some(PRIMARY), 1000, Some(2500), &members, &vec![]);
    assert_eq!(SweepStage::Completed, report.stage);
    assert_eq!(2500, report.total_members_seen);
    assert_eq!(expected.len() as u64, report.members_revoked);
    assert_eq!(expected, report.removals);
    assert_eq!(
        vec![
            PageRequest { limit: Some(1000), after: None, returned: 1000 },
            PageRequest { limit: Some(1000), after: Some(9991), returned: 1000 },
            PageRequest { limit: Some(1000), after: Some(19991), returned: 500 },
        ],
        report.pages
    );
}

#[test]
fn simulated_small_sweep_asks_once_without_limit() {
    let members = made_up_server(5);
    let report = simulate_sweep(1, 2, Some(PRIMARY), 1000, Some(5), &members, &vec![]);
    assert_eq!(vec![PageRequest { limit: None, after: None, returned: 5 }], report.pages);
    assert_eq!(
        vec![
            RoleRemoval { user_id: 11, role_ids: vec![900, 901] },
            RoleRemoval { user_id: 21, role_ids: vec![900, 901] },
            RoleRemoval { user_id: 41, role_ids: vec![900, 901] },
        ],
        report.removals
    );
    assert_eq!(3, report.members_revoked);
}

#[test]
fn exact_multiple_of_the_page_size_ends_on_an_empty_page() {
    let members = made_up_server(2000);
    let mut run = SweepRun::new(1, 2, Some(PRIMARY), 1000);
    let trace = drive(&mut run, Some(2000), &members, &[]);
    assert_eq!(vec![1000, 1000, 0], trace.pages);
    assert_eq!(SweepPhase::Completed, run.phase());
    assert_eq!(2000, run.total_members_seen());
    let report = simulate_sweep(1, 2, Some(PRIMARY), 1000, Some(2000), &members, &vec![]);
    assert_eq!(
        vec![
            PageRequest { limit: Some(1000), after: None, returned: 1000 },
            PageRequest { limit: Some(1000), after: Some(9991), returned: 1000 },
            PageRequest { limit: Some(1000), after: Some(19991), returned: 0 },
        ],
        report.pages
    );
    assert_eq!(2000, report.total_members_seen);
}

#[test]
fn totals_do_not_depend_on_the_page_size() {
    let members = made_up_server(60);
    let expected = members.iter().filter(|m| must_lose_roles(m)).count() as u64;
    for page_size in [1u64, 2, 7, 10, 59, 60, 61, 1000] {
        let report = simulate_sweep(1, 2, Some(PRIMARY), page_size, Some(60), &members, &vec![]);
        assert_eq!(SweepStage::Completed, report.stage);
        assert_eq!(60, report.total_members_seen);
        assert_eq!(expected, report.members_revoked);
        let fetches = if 60 < page_size { 1 } else { 60 / page_size + 1 };
        assert_eq!(fetches as usize, report.pages.len());
        assert_eq!(60, report.pages.iter().map(|page| page.returned).sum::<u64>());

        let mut run = SweepRun::new(1, 2, Some(PRIMARY), page_size);
        let trace = drive(&mut run, Some(60), &members, &[]);
        assert_eq!(60, run.total_members_seen());
        assert_eq!(expected, run.members_revoked());
        assert_eq!(fetches as usize, trace.pages.len());
        assert_eq!(60usize, trace.pages.iter().sum::<usize>());
    }
}

#[test]
fn small_server_is_fetched_in_one_call() {
    let members = made_up_server(5);
    let mut run = SweepRun::new(1, 2, Some(PRIMARY), 1000);
    let mut action = run.step(SweepEvent::Start);
    assert_eq!(SweepAction::FetchMemberCount { server_id: 1 }, action);
    assert_eq!(SweepPhase::FetchingCount, run.phase());
    action = run.step(SweepEvent::MemberCount(Some(5)));
    assert_eq!(SweepAction::FetchMembers { server_id: 1, limit: None, after: None }, action);
    assert_eq!(SweepPhase::Paginating, run.phase());
    assert_eq!(SweepStage::FetchingAll, run.stage());
    action = run.step(SweepEvent::Members(Some(members)));
    assert_eq!(SweepAction::Acknowledge { text: "Sweeping through 5 members".to_string() }, action);
    action = run.step(SweepEvent::Done);
    assert_eq!(SweepAction::RemoveRoles { server_id: 1, user_id: 11, role_ids: vec![900, 901] }, action);
    action = run.step(SweepEvent::RolesRemoved(true));
    assert_eq!(SweepAction::Wait { millis: 25 }, action);
    action = run.step(SweepEvent::Done);
    assert_eq!(SweepAction::RemoveRoles { server_id: 1, user_id: 21, role_ids: vec![900, 901] }, action);
    action = run.step(SweepEvent::RolesRemoved(true));
    assert_eq!(SweepAction::Wait { millis: 25 }, action);
    action = run.step(SweepEvent::Done);
    assert_eq!(SweepAction::RemoveRoles { server_id: 1, user_id: 41, role_ids: vec![900, 901] }, action);
    action = run.step(SweepEvent::RolesRemoved(true));
    assert_eq!(SweepAction::Wait { millis: 25 }, action);
    action = run.step(SweepEvent::Done);
    assert_eq!(
        SweepAction::SendSummary {
            user_id: 2,
            text: "Completed sweeping through 5 members, removed roles from 3 members".to_string(),
        },
        action
    );
    assert_eq!(SweepPhase::Paginating, run.phase());
    action = run.step(SweepEvent::Done);
    assert_eq!(SweepAction::Finish, action);
    assert_eq!(SweepPhase::Completed, run.phase());
    assert_eq!(5, run.total_members_seen());
    assert_eq!(3, run.members_revoked());
}

#[test]
fn pages_are_separated_by_a_pause_and_follow_the_cursor() {
    let members = made_up_server(5);
    let mut run = SweepRun::new(1, 2, Some(PRIMARY), 2);
    run.step(SweepEvent::Start);
    let mut action = run.step(SweepEvent::MemberCount(Some(5)));
    assert_eq!(SweepAction::FetchMembers { server_id: 1, limit: Some(2), after: None }, action);
    action = run.step(SweepEvent::Members(Some(members[0..2].to_vec())));
    assert_eq!(SweepAction::Wait { millis: 50 }, action);
    assert_eq!(SweepStage::PageDelay, run.stage());
    action = run.step(SweepEvent::Done);
    assert_eq!(SweepAction::FetchMembers { server_id: 1, limit: Some(2), after: Some(11) }, action);
    action = run.step(SweepEvent::Members(Some(members[2..4].to_vec())));
    assert_eq!(SweepAction::Wait { millis: 50 }, action);
    action = run.step(SweepEvent::Done);
    assert_eq!(SweepAction::FetchMembers { server_id: 1, limit: Some(2), after: Some(31) }, action);
    action = run.step(SweepEvent::Members(Some(members[4..5].to_vec())));
    assert_eq!(SweepAction::Acknowledge { text: "Sweeping through 5 members".to_string() }, action);
    assert_eq!(Some(41), run.cursor());
}

#[test]
fn failed_count_fetch_fails_the_sweep() {
    let mut run = SweepRun::new(1, 2, Some(PRIMARY), 1000);
    let trace = drive(&mut run, None, &[], &[]);
    assert_eq!(Some("Failed to get the member count for this server".to_string()), trace.failure);
    assert_eq!(SweepPhase::Failed, run.phase());
    assert_eq!(SweepStage::Failed(SweepFailure::MemberCount), run.stage());
    assert!(trace.pages.is_empty());
    assert_eq!(None, trace.summary);
    let report = simulate_sweep(1, 2, Some(PRIMARY), 1000, None, &vec![], &vec![]);
    assert_eq!(SweepStage::Failed(SweepFailure::MemberCount), report.stage);
    assert_eq!((0, 0), (report.total_members_seen, report.members_revoked));
    assert!(report.pages.is_empty());
    assert!(report.removals.is_empty());
}

#[test]
fn missing_primary_role_fails_the_sweep() {
    let members = made_up_server(5);
    let mut run = SweepRun::new(1, 2, None, 1000);
    let trace = drive(&mut run, Some(5), &members, &[]);
    assert_eq!(
        Some("Failed to determine the primary role for this server".to_string()),
        trace.failure
    );
    assert_eq!(SweepStage::Failed(SweepFailure::NoPrimaryRole), run.stage());
    assert!(trace.pages.is_empty());
    let report = simulate_sweep(1, 2, None, 1000, Some(5), &members, &vec![]);
    assert_eq!(SweepStage::Failed(SweepFailure::NoPrimaryRole), report.stage);
}

#[test]
fn failed_count_is_reported_before_missing_primary_role() {
    let mut run = SweepRun::new(1, 2, None, 1000);
    let trace = drive(&mut run, None, &[], &[]);
    assert_eq!(Some("Failed to get the member count for this server".to_string()), trace.failure);
}

#[test]
fn empty_server_fails_the_sweep() {
    let mut run = SweepRun::new(1, 2, Some(PRIMARY), 1000);
    let trace = drive(&mut run, Some(0), &[], &[]);
    assert_eq!(Some("No members found in this server".to_string()), trace.failure);
    assert_eq!(SweepStage::Failed(SweepFailure::NoMembers), run.stage());
    let report = simulate_sweep(1, 2, Some(PRIMARY), 1000, Some(0), &vec![], &vec![]);
    assert_eq!(SweepStage::Failed(SweepFailure::NoMembers), report.stage);
}

#[test]
fn failed_list_fetch_fails_a_single_call_sweep() {
    let mut run = SweepRun::new(1, 2, Some(PRIMARY), 1000);
    run.step(SweepEvent::Start);
    run.step(SweepEvent::MemberCount(Some(5)));
    let action = run.step(SweepEvent::Members(None));
    assert_eq!(
        SweepAction::Fail { text: "Failed to retrieve the list of members from the server".to_string() },
        action
    );
    assert_eq!(SweepPhase::Failed, run.phase());
    assert_eq!(SweepStage::Failed(SweepFailure::MemberList), run.stage());
}

#[test]
fn failed_page_fetch_fails_the_sweep() {
    let members = made_up_server(4);
    let mut run = SweepRun::new(1, 2, Some(PRIMARY), 2);
    run.step(SweepEvent::Start);
    run.step(SweepEvent::MemberCount(Some(4)));
    run.step(SweepEvent::Members(Some(members[0..2].to_vec())));
    run.step(SweepEvent::Done);
    let action = run.step(SweepEvent::Members(None));
    assert_eq!(
        SweepAction::Fail { text: "Failed to retrieve the list of members from the server".to_string() },
        action
    );
    assert_eq!(SweepPhase::Failed, run.phase());
    assert_eq!(SweepStage::Failed(SweepFailure::MemberList), run.stage());
    assert_eq!(0, run.members_revoked());
    assert_eq!(SweepAction::Ignored, run.step(SweepEvent::Done));
}

#[test]
fn refused_removals_are_not_counted_and_do_not_stop_the_sweep() {
    let members = made_up_server(30);
    let offenders: Vec<u64> =
        members.iter().filter(|m| must_lose_roles(m)).map(|m| m.user_id).collect();
    let refusing = vec![offenders[0], offenders[3], 999_999];
    let mut run = SweepRun::new(1, 2, Some(PRIMARY), 8);
    let trace = drive(&mut run, Some(30), &members, &refusing);
    assert_eq!(SweepPhase::Completed, run.phase());
    assert_eq!(30, run.total_members_seen());
    assert_eq!(offenders.len() as u64 - 2, run.members_revoked());
    assert_eq!(offenders.len(), trace.removals.len());
    let report = simulate_sweep(1, 2, Some(PRIMARY), 8, Some(30), &members, &refusing);
    assert_eq!(offenders.len() as u64 - 2, report.members_revoked);
    assert_eq!(offenders.len(), report.removals.len());
    assert_eq!(30, report.total_members_seen);
}

#[test]
fn every_removal_takes_all_roles_of_an_offender() {
    let members = made_up_server(40);
    let mut run = SweepRun::new(1, 2, Some(PRIMARY), 1000);
    let trace = drive(&mut run, Some(40), &members, &[]);
    let expected: Vec<(u64, Vec<u64>)> = members
        .iter()
        .filter(|m| must_lose_roles(m))
        .map(|m| (m.user_id, m.role_ids.clone()))
        .collect();
    assert_eq!(expected, trace.removals);
}

#[test]
fn bots_and_members_without_roles_are_passed_over() {
    let members = vec![
        MemberSnapshot { user_id: 1, role_ids: vec![7], is_bot: true },
        MemberSnapshot { user_id: 2, role_ids: vec![], is_bot: false },
        MemberSnapshot { user_id: 3, role_ids: vec![PRIMARY], is_bot: false },
    ];
    let mut run = SweepRun::new(1, 2, Some(PRIMARY), 1000);
    let trace = drive(&mut run, Some(3), &members, &[]);
    assert!(trace.removals.is_empty());
    assert!(trace.waits.is_empty());
    assert_eq!(
        Some("Completed sweeping through 3 members, removed roles from 0 members".to_string()),
        trace.summary
    );
}

#[test]
fn events_out_of_turn_are_ignored() {
    let mut run = SweepRun::new(1, 2, Some(PRIMARY), 1000);
    assert_eq!(SweepAction::Ignored, run.step(SweepEvent::Done));
    assert_eq!(SweepAction::Ignored, run.step(SweepEvent::MemberCount(Some(3))));
    assert_eq!(SweepPhase::NotStarted, run.phase());
    run.step(SweepEvent::Start);
    assert_eq!(SweepAction::Ignored, run.step(SweepEvent::Start));
    assert_eq!(SweepAction::Ignored, run.step(SweepEvent::RolesRemoved(true)));
    assert_eq!(SweepPhase::FetchingCount, run.phase());
}

#[test]
fn finished_sweeps_stay_finished() {
    let mut run = SweepRun::new(1, 2, Some(PRIMARY), 1000);
    drive(&mut run, Some(2), &made_up_server(2), &[]);
    assert_eq!(SweepPhase::Completed, run.phase());
    assert_eq!(SweepAction::Ignored, run.step(SweepEvent::Start));
    assert_eq!(SweepAction::Ignored, run.step(SweepEvent::Done));
    assert_eq!(SweepPhase::Completed, run.phase());

    let mut failed = SweepRun::new(1, 2, None, 1000);
    drive(&mut failed, Some(2), &made_up_server(2), &[]);
    assert_eq!(SweepAction::Ignored, failed.step(SweepEvent::Start));
    assert_eq!(SweepPhase::Failed, failed.phase());
}

#[test]
fn primary_role_is_frozen_at_creation() {
    let run = SweepRun::new(8, 2, Some(PRIMARY), 1000);
    assert_eq!(Some(PRIMARY), run.primary_role_id());
    assert_eq!(8, run.server_id());
    assert_eq!(None, run.cursor());
    assert_eq!(0, run.total_members_seen());
    assert_eq!(0, run.members_revoked());
}

#[test]
fn message_texts() {
    assert_eq!("Sweeping through 0 members", acknowledgment(0));
    assert_eq!("Sweeping through 2500 members", acknowledgment(2500));
    assert_eq!(
        "Completed sweeping through 2500 members, removed roles from 17 members",
        summary(2500, 17)
    );
    assert_eq!(
        "Failed to get the member count for this server",
        SweepFailure::MemberCount.message()
    );
    assert_eq!(
        "Failed to determine the primary role for this server",
        SweepFailure::NoPrimaryRole.message()
    );
    assert_eq!("No members found in this server", SweepFailure::NoMembers.message());
    assert_eq!(
        "Failed to retrieve the list of members from the server",
        SweepFailure::MemberList.message()
    );
}

#[test]
fn simulated_pages() {
    let members = made_up_server(5);
    assert_eq!(members, simulated_page(&members, None, None));
    assert_eq!(members[0..2].to_vec(), simulated_page(&members, Some(2), None));
    assert_eq!(members[2..4].to_vec(), simulated_page(&members, Some(2), Some(11)));
    assert_eq!(members[2..5].to_vec(), simulated_page(&members, Some(10), Some(15)));
    assert_eq!(Vec::<MemberSnapshot>::new(), simulated_page(&members, Some(2), Some(41)));
    assert_eq!(Vec::<MemberSnapshot>::new(), simulated_page(&members, Some(0), None));
}
