use vp_proxy::proposals::compute_deadline;
use vp_proxy::proposals::decide_vote;
use vp_proxy::state::ProxyState;
use vp_proxy::types::{
    BallotEntry, CanisterError, CouncilMember, LiveProposal, ParticipationStatus, ProposalInfo,
    VoteStep,
};

fn member(name: &str, neuron_id: &str) -> CouncilMember {
    CouncilMember { name: name.to_string(), neuron_id: neuron_id.to_string() }
}

fn ballot(voter: &str, vote: i32) -> BallotEntry {
    BallotEntry { voter: voter.to_string(), vote }
}

fn governance_principal() -> Vec<u8> {
    vec![1, 2, 3]
}

fn ledger_principal() -> Vec<u8> {
    vec![4, 5, 6]
}

/// A state configured far enough to start watching.
fn ready_state() -> ProxyState {
    let mut s = ProxyState::new();
    s.set_governance_id(governance_principal());
    s.set_ledger_id(ledger_principal());
    let r = s.record_claimed_neuron(vec![9, 9, 9]);
    assert!(r.is_ok());
    s
}

/// A ready state with watching started from the given mark proposal.
fn watching_state(mark_id: u64, mark_creation: u64) -> ProxyState {
    let mut s = ready_state();
    let r = s.watch_proposals(mark_id, 0, mark_creation);
    assert!(r.is_ok());
    s
}

fn proposal(id: u64, creation: u64, voting_period: u64) -> ProposalInfo {
    ProposalInfo {
        id,
        action: 1,
        creation_timestamp: creation,
        voting_period,
        reward_event_present: false,
        title: b"Motion to do something".to_vec(),
    }
}

#[test]
fn deadline_formula_example() {
    // creation 1000, voting period 90000, grace 3600 -> 87400
    assert_eq!(compute_deadline(1000, 90000), 87400);
}

#[test]
fn deadline_saturates_low() {
    assert_eq!(compute_deadline(0, 100), 0);
}

#[test]
fn deadline_saturates_high() {
    assert_eq!(compute_deadline(u64::MAX, u64::MAX), u64::MAX - 3600);
}

#[test]
fn quorum_three_of_five_votes_yes() {
    // N=5 (threshold 2), ballots [+1, +1, -1]: decision +1, voters 3 > 2 -> yes
    let council = vec![
        member("a", "n1"),
        member("b", "n2"),
        member("c", "n3"),
        member("d", "n4"),
        member("e", "n5"),
    ];
    let ballots = vec![ballot("n1", 1), ballot("n2", 1), ballot("n3", -1)];
    assert!(decide_vote(&council, &ballots));
}

#[test]
fn quorum_two_of_five_votes_no_despite_positive_decision() {
    // N=5, 2 ballots [+1, +1]: voters 2 is not > 2 -> no
    let council = vec![
        member("a", "n1"),
        member("b", "n2"),
        member("c", "n3"),
        member("d", "n4"),
        member("e", "n5"),
    ];
    let ballots = vec![ballot("n1", 1), ballot("n2", 1)];
    assert!(!decide_vote(&council, &ballots));
}

#[test]
fn quorum_majority_against_votes_no() {
    let council = vec![member("a", "n1"), member("b", "n2"), member("c", "n3")];
    let ballots = vec![ballot("n1", -1), ballot("n2", -1), ballot("n3", 1)];
    assert!(!decide_vote(&council, &ballots));
}

#[test]
fn quorum_empty_council_votes_no() {
    let council: Vec<CouncilMember> = Vec::new();
    let ballots = vec![ballot("n1", 1)];
    assert!(!decide_vote(&council, &ballots));
}

#[test]
fn quorum_duplicate_member_counts_twice() {
    // A duplicated council entry is aggregated once per occurrence,
    // exactly as stored.
    let council = vec![member("a", "n1"), member("a", "n1"), member("b", "n2")];
    let ballots = vec![ballot("n1", 1)];
    // voters 2 > 1 (threshold of 3/2), decision +2 -> yes
    assert!(decide_vote(&council, &ballots));
}

#[test]
fn discovery_schedules_qualifying_proposal() {
    let mut s = watching_state(10, 100);
    let mut cycle = s.start_check_cycle().unwrap();
    let req = s.next_page_request(&cycle);
    assert_eq!(req.limit, 100);
    assert_eq!(req.before_proposal, None);
    // newest first: id 12 then the mark itself (id 10)
    let page = vec![proposal(12, 5000, 90000), proposal(10, 100, 90000)];
    s.process_page(&mut cycle, &page, 200);
    assert!(cycle.finished);
    let wl = s.get_proposal_watchlist();
    assert_eq!(wl.len(), 1);
    assert_eq!(wl[0].id, 12);
    assert_eq!(wl[0].timer_scheduled_for, Some(5000 + 90000 - 3600));
    assert!(matches!(wl[0].participation_status, ParticipationStatus::Undecided));
    // the mark advanced to the first page's top proposal
    let mark = s.get_last_proposal_id().unwrap();
    assert_eq!(mark.id, 12);
    assert_eq!(mark.creation_timestamp, 5000);
    // discovery wrote no history
    assert!(s.get_proposal_history().is_empty());
}

#[test]
fn discovery_skips_config_titles_and_decided_proposals() {
    let mut s = watching_state(10, 100);
    let mut cycle = s.start_check_cycle().unwrap();
    let mut config = proposal(14, 5000, 90000);
    config.title = b"CONFIGURE COUNCIL NEURON change followees".to_vec();
    let mut decided = proposal(13, 4000, 90000);
    decided.reward_event_present = true;
    let page = vec![config, decided, proposal(12, 3000, 90000), proposal(10, 100, 90000)];
    s.process_page(&mut cycle, &page, 200);
    assert!(cycle.finished);
    let wl = s.get_proposal_watchlist();
    assert_eq!(wl.len(), 1);
    assert_eq!(wl[0].id, 12);
}

#[test]
fn discovery_skips_past_deadline_proposal() {
    let mut s = watching_state(10, 100);
    let mut cycle = s.start_check_cycle().unwrap();
    // deadline 1000 + 90000 - 3600 = 87400; now is later
    let page = vec![proposal(12, 1000, 90000), proposal(10, 100, 90000)];
    s.process_page(&mut cycle, &page, 87400);
    assert!(cycle.finished);
    assert!(s.get_proposal_watchlist().is_empty());
}

#[test]
fn discovery_stops_on_timestamp_at_or_before_mark() {
    let mut s = watching_state(999, 5000);
    let mut cycle = s.start_check_cycle().unwrap();
    // id differs from the mark's but its creation time is at the mark
    let page = vec![proposal(12, 9000, 90000), proposal(7, 5000, 90000)];
    s.process_page(&mut cycle, &page, 200);
    assert!(cycle.finished);
    let wl = s.get_proposal_watchlist();
    assert_eq!(wl.len(), 1);
    assert_eq!(wl[0].id, 12);
}

#[test]
fn discovery_pages_until_mark() {
    let mut s = watching_state(10, 100);
    let mut cycle = s.start_check_cycle().unwrap();
    let first = vec![proposal(30, 9000, 90000), proposal(29, 8000, 90000)];
    s.process_page(&mut cycle, &first, 200);
    assert!(!cycle.finished);
    let req = s.next_page_request(&cycle);
    assert_eq!(req.before_proposal, Some(29));
    // the mark is untouched mid-cycle
    assert_eq!(s.get_last_proposal_id().unwrap().id, 10);
    let second = vec![proposal(28, 7000, 90000), proposal(10, 100, 90000)];
    s.process_page(&mut cycle, &second, 200);
    assert!(cycle.finished);
    assert_eq!(s.get_proposal_watchlist().len(), 3);
    // the mark advanced to the top of the run's first page
    assert_eq!(s.get_last_proposal_id().unwrap().id, 30);
}

#[test]
fn discovery_empty_page_terminates() {
    let mut s = watching_state(10, 100);
    let mut cycle = s.start_check_cycle().unwrap();
    let page: Vec<ProposalInfo> = Vec::new();
    s.process_page(&mut cycle, &page, 200);
    assert!(cycle.finished);
    // nothing seen, mark kept
    assert_eq!(s.get_last_proposal_id().unwrap().id, 10);
}

#[test]
fn mark_never_regresses() {
    let mut s = watching_state(10, 5000);
    let mut cycle = s.start_check_cycle().unwrap();
    // the only proposal is older than the mark: the cycle stops at once
    // and keeps the mark rather than moving it backwards
    let page = vec![proposal(3, 1000, 90000)];
    s.process_page(&mut cycle, &page, 200);
    assert!(cycle.finished);
    let mark = s.get_last_proposal_id().unwrap();
    assert_eq!(mark.id, 10);
    assert_eq!(mark.creation_timestamp, 5000);
}

#[test]
fn mark_is_nondecreasing_across_cycles() {
    let mut s = watching_state(10, 100);
    let mut previous = s.get_last_proposal_id().unwrap().creation_timestamp;
    for (id, creation) in [(20u64, 7000u64), (30, 9000), (31, 9000), (5, 50)] {
        let mut cycle = s.start_check_cycle().unwrap();
        let page = vec![proposal(id, creation, 90000)];
        s.process_page(&mut cycle, &page, 200);
        if !cycle.finished {
            let empty: Vec<ProposalInfo> = Vec::new();
            s.process_page(&mut cycle, &empty, 200);
        }
        let now_mark = s.get_last_proposal_id().unwrap().creation_timestamp;
        assert!(now_mark >= previous);
        previous = now_mark;
    }
}

fn watch_one(s: &mut ProxyState, id: u64, creation: u64) {
    let mut cycle = s.start_check_cycle().unwrap();
    let page = vec![proposal(id, creation, 90000)];
    s.process_page(&mut cycle, &page, 200);
    let empty: Vec<ProposalInfo> = Vec::new();
    if !cycle.finished {
        s.process_page(&mut cycle, &empty, 200);
    }
    assert!(s.get_proposal_watchlist().iter().any(|p| p.id == id));
}

#[test]
fn vote_attempt_concludes_into_history_once() {
    let mut s = watching_state(10, 100);
    s.add_council_member("a".to_string(), "n1".to_string());
    watch_one(&mut s, 12, 5000);
    assert!(s.begin_vote_attempt(12).is_ok());
    assert_eq!(s.is_proposal_locked(12), Some(true));
    let live = LiveProposal { reward_event_present: false, ballots: vec![ballot("n1", 1)] };
    let step = s.process_live_proposal(12, 1, 5000, &live);
    let vote_value = match step {
        VoteStep::CastVote(v) => v,
        VoteStep::TooLate => panic!("voting was still open"),
    };
    assert_eq!(vote_value, 1);
    assert!(s.finalize_vote_cast(12, 1, 5000, vote_value));
    // exactly one terminal history record; the id left the watchlist
    let hist = s.get_proposal_history();
    assert_eq!(hist.len(), 1);
    assert_eq!(hist[0].id, 12);
    assert!(matches!(hist[0].participation_status, ParticipationStatus::VotedFor));
    assert!(s.get_proposal_watchlist().is_empty());
    // a second conclusion attempt finds nothing and writes nothing
    assert!(!s.finalize_vote_cast(12, 1, 5000, vote_value));
    assert_eq!(s.get_proposal_history().len(), 1);
}

#[test]
fn vote_against_recorded_when_decision_negative() {
    let mut s = watching_state(10, 100);
    s.add_council_member("a".to_string(), "n1".to_string());
    watch_one(&mut s, 12, 5000);
    assert!(s.begin_vote_attempt(12).is_ok());
    let live = LiveProposal { reward_event_present: false, ballots: vec![ballot("n1", -1)] };
    let step = s.process_live_proposal(12, 1, 5000, &live);
    let vote_value = match step {
        VoteStep::CastVote(v) => v,
        VoteStep::TooLate => panic!("voting was still open"),
    };
    assert_eq!(vote_value, 0);
    assert!(s.finalize_vote_cast(12, 1, 5000, vote_value));
    let hist = s.get_proposal_history();
    assert!(matches!(hist[0].participation_status, ParticipationStatus::VotedAgainst));
}

#[test]
fn too_late_proposal_concluded_without_casting() {
    let mut s = watching_state(10, 100);
    watch_one(&mut s, 12, 5000);
    assert!(s.begin_vote_attempt(12).is_ok());
    let live = LiveProposal { reward_event_present: true, ballots: Vec::new() };
    let step = s.process_live_proposal(12, 1, 5000, &live);
    assert!(matches!(step, VoteStep::TooLate));
    let hist = s.get_proposal_history();
    assert_eq!(hist.len(), 1);
    assert!(matches!(hist[0].participation_status, ParticipationStatus::TooLateToParticipate));
    assert!(s.get_proposal_watchlist().is_empty());
}

#[test]
fn vote_attempt_on_unwatched_id_is_refused() {
    let mut s = watching_state(10, 100);
    let r = s.begin_vote_attempt(999);
    assert!(matches!(r, Err(CanisterError::ProposalIsNotInWatchlist)));
}

#[test]
fn second_vote_attempt_on_locked_entry_is_refused() {
    let mut s = watching_state(10, 100);
    watch_one(&mut s, 12, 5000);
    assert!(s.begin_vote_attempt(12).is_ok());
    let r = s.begin_vote_attempt(12);
    assert!(matches!(r, Err(CanisterError::ProposalLocked)));
}

#[test]
fn vote_attempt_after_stop_is_refused_without_mutation() {
    let mut s = watching_state(10, 100);
    watch_one(&mut s, 12, 5000);
    assert!(s.stop_timers().is_ok());
    let r = s.begin_vote_attempt(12);
    assert!(matches!(r, Err(CanisterError::WatchingIsAlreadyStopped)));
    assert!(s.get_proposal_history().is_empty());
}

#[test]
fn failed_attempts_retry_then_conclude_as_failed() {
    let mut s = watching_state(10, 100);
    watch_one(&mut s, 12, 5000);
    let max = s.get_max_retries();
    assert_eq!(max, 3);
    for attempt in 1..=max {
        assert!(s.begin_vote_attempt(12).is_ok());
        let retry = s.record_vote_failure(12, 1, 5000, attempt);
        if attempt < max {
            assert!(retry);
            // the lock was released for the next attempt
            assert_eq!(s.is_proposal_locked(12), Some(false));
        } else {
            assert!(!retry);
        }
    }
    let hist = s.get_proposal_history();
    assert_eq!(hist.len(), 1);
    assert!(matches!(hist[0].participation_status, ParticipationStatus::FailedToVote));
    assert!(s.get_proposal_watchlist().is_empty());
}

#[test]
fn stop_while_entry_locked_leaves_history_alone() {
    let mut s = watching_state(10, 100);
    watch_one(&mut s, 12, 5000);
    assert!(s.begin_vote_attempt(12).is_ok());
    // an administrator stops watching mid-attempt
    assert!(s.stop_timers().is_ok());
    assert!(!s.get_watch_lock());
    assert!(s.get_proposal_watchlist().is_empty());
    // the in-flight attempt concludes: its entry is gone, so nothing is
    // mutated and no history record appears
    assert!(!s.finalize_vote_cast(12, 1, 5000, 1));
    assert!(s.get_proposal_history().is_empty());
}

#[test]
fn disallow_action_type_evicts_without_history_record() {
    let mut s = watching_state(10, 100);
    watch_one(&mut s, 12, 5000);
    watch_one(&mut s, 13, 6000);
    let before = s.get_proposal_watchlist();
    assert_eq!(before.len(), 2);
    let cancelled = s.disallow_action_type(1);
    // both entries used action type 1 and carried timers
    assert_eq!(cancelled.len(), 2);
    assert!(s.get_proposal_watchlist().is_empty());
    assert!(s.get_proposal_history().is_empty());
    assert_eq!(s.get_exclusion_list(), vec![1]);
}

#[test]
fn disallow_leaves_other_action_types_watched() {
    let mut s = watching_state(10, 100);
    watch_one(&mut s, 12, 5000);
    let cancelled = s.disallow_action_type(2);
    assert!(cancelled.is_empty());
    assert_eq!(s.get_proposal_watchlist().len(), 1);
}

#[test]
fn allow_action_type_removes_exclusion() {
    let mut s = ready_state();
    s.disallow_action_type(7);
    s.disallow_action_type(8);
    s.allow_action_type(7);
    assert_eq!(s.get_exclusion_list(), vec![8]);
}

#[test]
fn excluded_types_are_sent_with_page_requests() {
    let mut s = watching_state(10, 100);
    s.disallow_action_type(7);
    let cycle = s.start_check_cycle().unwrap();
    let req = s.next_page_request(&cycle);
    assert_eq!(req.exclude_type, vec![7]);
}

#[test]
fn bootstrap_plan_carries_transfer_details() {
    let mut s = ProxyState::new();
    s.set_governance_id(governance_principal());
    s.set_ledger_id(ledger_principal());
    let plan = s.plan_create_neuron(vec![0xAB; 32], 42, 1_000_000).unwrap();
    assert_eq!(plan.to_owner, governance_principal());
    assert_eq!(plan.to_subaccount, vec![0xAB; 32]);
    assert_eq!(plan.memo, 42);
    assert_eq!(plan.amount, 1_000_000);
}

#[test]
fn bootstrap_is_not_reentrant() {
    let mut s = ProxyState::new();
    s.set_governance_id(governance_principal());
    s.set_ledger_id(ledger_principal());
    assert!(s.plan_create_neuron(vec![0; 32], 1, 10).is_ok());
    assert!(s.record_claimed_neuron(vec![9]).is_ok());
    // a second invocation after a recorded stake identity fails with a
    // state error and plans no transfer
    let r = s.plan_create_neuron(vec![0; 32], 2, 10);
    assert!(matches!(r, Err(CanisterError::NeuronAlreadySet)));
    let r2 = s.record_claimed_neuron(vec![8]);
    assert!(matches!(r2, Err(CanisterError::NeuronAlreadySet)));
}

#[test]
fn bootstrap_requires_configured_addresses() {
    let s = ProxyState::new();
    let r = s.plan_create_neuron(vec![0; 32], 1, 10);
    assert!(matches!(r, Err(CanisterError::ConfigurationError)));
}

#[test]
fn watch_requires_neuron_and_addresses() {
    let mut s = ProxyState::new();
    let r = s.watch_proposals(1, 0, 0);
    assert!(matches!(r, Err(CanisterError::Unknown(_))));
    assert!(s.record_claimed_neuron(vec![9]).is_ok());
    let r = s.watch_proposals(1, 0, 0);
    assert!(matches!(r, Err(CanisterError::ConfigurationError)));
}

#[test]
fn double_watch_is_refused() {
    let mut s = watching_state(10, 100);
    let r = s.watch_proposals(11, 0, 200);
    assert!(matches!(r, Err(CanisterError::WatchingIsAlreadyInProgress)));
}

#[test]
fn stop_when_stopped_is_refused() {
    let mut s = ready_state();
    let r = s.stop_timers();
    assert!(matches!(r, Err(CanisterError::WatchingIsAlreadyStopped)));
}

#[test]
fn council_add_remove_and_reset() {
    let mut s = ProxyState::new();
    s.add_council_member("a".to_string(), "n1".to_string());
    s.add_council_member("b".to_string(), "n2".to_string());
    s.add_council_member("c".to_string(), "n1".to_string());
    assert_eq!(s.get_council_members().len(), 3);
    s.remove_council_member("n1".to_string());
    let council = s.get_council_members();
    assert_eq!(council.len(), 1);
    assert_eq!(council[0].neuron_id, "n2");
    s.emergency_reset();
    assert!(s.get_council_members().is_empty());
}

#[test]
fn proposal_status_looks_in_both_registries() {
    let mut s = watching_state(10, 100);
    watch_one(&mut s, 12, 5000);
    watch_one(&mut s, 13, 6000);
    assert!(s.begin_vote_attempt(12).is_ok());
    assert!(s.finalize_vote_cast(12, 1, 5000, 1));
    let watched = s.get_proposal_status(13).unwrap();
    assert!(matches!(watched.participation_status, ParticipationStatus::Undecided));
    let concluded = s.get_proposal_status(12).unwrap();
    assert!(matches!(concluded.participation_status, ParticipationStatus::VotedFor));
    assert!(s.get_proposal_status(999).is_none());
}

#[test]
fn clear_history_forgets_conclusions() {
    let mut s = watching_state(10, 100);
    watch_one(&mut s, 12, 5000);
    assert!(s.begin_vote_attempt(12).is_ok());
    assert!(s.finalize_vote_cast(12, 1, 5000, 0));
    assert_eq!(s.get_proposal_history().len(), 1);
    s.clear_proposal_history();
    assert!(s.get_proposal_history().is_empty());
}

#[test]
fn restore_rebuilds_configuration_but_not_watchlist() {
    let mut s = watching_state(10, 100);
    s.add_council_member("a".to_string(), "n1".to_string());
    watch_one(&mut s, 12, 5000);
    assert!(s.begin_vote_attempt(12).is_ok());
    assert!(s.finalize_vote_cast(12, 1, 5000, 1));
    let restored = ProxyState::restore(
        governance_principal(),
        ledger_principal(),
        s.get_council_members(),
        s.get_proposal_history(),
        s.get_exclusion_list(),
        Some(vec![9, 9, 9]),
    );
    assert!(!restored.get_watch_lock());
    assert!(restored.get_proposal_watchlist().is_empty());
    assert_eq!(restored.get_proposal_history().len(), 1);
    assert_eq!(restored.get_council_members().len(), 1);
    assert_eq!(restored.get_neuron().unwrap(), vec![9, 9, 9]);
}

#[test]
fn register_vote_plan_uses_neuron_subaccount() {
    let s = ready_state();
    let plan = s.plan_register_vote(12, 1).unwrap();
    assert_eq!(plan.neuron_subaccount, vec![9, 9, 9]);
    assert_eq!(plan.proposal_id, 12);
    assert_eq!(plan.vote, 1);
}

#[test]
fn dissolve_delay_plan_requires_neuron() {
    let mut s = ProxyState::new();
    s.set_governance_id(governance_principal());
    assert!(matches!(s.plan_increase_dissolve_delay(3600), Err(CanisterError::Unknown(_))));
    assert!(s.record_claimed_neuron(vec![7]).is_ok());
    let plan = s.plan_increase_dissolve_delay(3600).unwrap();
    assert_eq!(plan.neuron_subaccount, vec![7]);
    assert_eq!(plan.additional_dissolve_delay_seconds, 3600);
}

#[test]
fn getters_report_configuration() {
    let mut s = ProxyState::new();
    assert!(matches!(s.get_governance_canister_id(), Err(CanisterError::ConfigurationError)));
    assert!(matches!(s.get_ledger_canister_id(), Err(CanisterError::ConfigurationError)));
    assert!(matches!(s.get_neuron(), Err(CanisterError::Unknown(_))));
    assert!(matches!(s.get_last_proposal_id(), Err(CanisterError::Unknown(_))));
    assert!(!s.get_watching_status());
    assert_eq!(s.get_fetcher_timer_id(), None);
    s.set_governance_id(governance_principal());
    assert_eq!(s.get_governance_canister_id().unwrap(), governance_principal());
    assert_eq!(s.is_proposal_locked(5), None);
}

#[test]
fn title_prefix_must_match_exactly() {
    let mut s = watching_state(10, 100);
    let mut cycle = s.start_check_cycle().unwrap();
    // lower-case title is not the configuration convention
    let mut p = proposal(12, 5000, 90000);
    p.title = b"configure council neuron".to_vec();
    let page = vec![p, proposal(10, 100, 90000)];
    s.process_page(&mut cycle, &page, 200);
    assert_eq!(s.get_proposal_watchlist().len(), 1);
}
