//! The SyncNode capability over both node flavours, and the propagation
//! and liveness measurements.

use scenario_harness::{
    all_at_common_tip, assert_is_in_block, how_many_nodes_are_running, parse_u32,
    poll_decision, BlockDate, Digest, FragmentStatus, LegacyNodeController, NodeController,
    NodeState, NodeStatsData, PollDecision, PropagationMeasurement, ScenarioError,
    StatusSnapshot, SyncNode, SyncWaitParams,
};

fn running_node(alias: &str, height: &str) -> NodeController {
    let mut node = NodeController::new(String::from(alias));
    node.status = Some(StatusSnapshot {
        state: NodeState::Running,
        stats: Some(NodeStatsData {
            last_block_height: Some(String::from(height)),
            last_block_hash: Some(Digest::new(1, 2)),
        }),
    });
    node.tip = Some(Digest::new(1, 2));
    node
}

fn legacy_node(alias: &str, state: &str, height: &str) -> LegacyNodeController {
    let mut node = LegacyNodeController::new(String::from(alias));
    node.entries = vec![
        (String::from("lastBlockHeight"), String::from(height)),
        (String::from("state"), String::from(state)),
    ];
    node.tip = Some(Digest::new(1, 2));
    node
}

#[test]
fn current_node_is_running_iff_state_is_running() {
    let node = running_node("node_a", "42");
    assert!(node.is_running());
    let mut stalled = running_node("node_b", "42");
    stalled.status = Some(StatusSnapshot {
        state: NodeState::Bootstrapping,
        stats: None,
    });
    assert!(!stalled.is_running());
}

#[test]
fn legacy_node_is_running_iff_state_entry_says_running() {
    assert!(legacy_node("legacy_a", "Running", "42").is_running());
    assert!(!legacy_node("legacy_b", "Bootstrapping", "42").is_running());
}

#[test]
fn both_flavours_agree_on_the_running_boolean() {
    let states = [
        ("StartingRestServer", NodeState::StartingRestServer),
        ("PreparingStorage", NodeState::PreparingStorage),
        ("PreparingBlock0", NodeState::PreparingBlock0),
        ("Bootstrapping", NodeState::Bootstrapping),
        ("Running", NodeState::Running),
        ("ShuttingDown", NodeState::ShuttingDown),
    ];
    for (name, state) in states {
        let mut current = running_node("node_a", "1");
        current.status = Some(StatusSnapshot { state, stats: None });
        let legacy = legacy_node("legacy_a", name, "1");
        assert_eq!(current.is_running(), legacy.is_running());
        assert_eq!(current.is_running(), state == NodeState::Running);
    }
}

#[test]
fn last_block_height_parses_the_decimal_field() {
    assert_eq!(running_node("node_a", "42").last_block_height(), 42);
    assert_eq!(running_node("node_a", "0").last_block_height(), 0);
    assert_eq!(
        running_node("node_a", "4294967295").last_block_height(),
        4294967295
    );
    assert_eq!(legacy_node("legacy_a", "Running", "100").last_block_height(), 100);
}

#[test]
fn height_parser_accepts_exactly_in_range_numerals() {
    assert_eq!(parse_u32("0"), Some(0));
    assert_eq!(parse_u32("42"), Some(42));
    assert_eq!(parse_u32("4294967295"), Some(4294967295));
    assert_eq!(parse_u32("4294967296"), None);
    assert_eq!(parse_u32("99999999999999999999"), None);
    assert_eq!(parse_u32(""), None);
    assert_eq!(parse_u32("12a"), None);
    assert_eq!(parse_u32("-1"), None);
    assert_eq!(parse_u32(" 7"), None);
}

#[test]
fn legacy_map_lookup_takes_the_first_matching_key() {
    let mut node = LegacyNodeController::new(String::from("legacy_a"));
    node.entries = vec![
        (String::from("state"), String::from("Running")),
        (String::from("state"), String::from("Bootstrapping")),
    ];
    assert!(node.is_running());
}

#[test]
fn measurement_with_no_targets_finishes_with_no_samples() {
    let thresholds = SyncWaitParams::new(1000, 100).unwrap();
    let measurement = PropagationMeasurement::new(Digest::new(9, 9), vec![], thresholds);
    assert!(measurement.is_complete());
    let samples = measurement.finish().unwrap();
    assert!(samples.is_empty());
}

#[test]
fn node_accessors_expose_the_polled_snapshots() {
    let mut node = running_node("node_a", "42");
    node.log = String::from("line one\nline two");
    node.error_lines = vec![String::from("ERROR cannot connect")];
    assert_eq!(node.alias(), String::from("node_a"));
    assert_eq!(node.tip(), Digest::new(1, 2));
    assert_eq!(node.log_content(), String::from("line one\nline two"));
    assert_eq!(
        node.get_lines_with_error_and_invalid(),
        &vec![String::from("ERROR cannot connect")]
    );
    node.stake_pools = vec![Digest::new(21, 22)];
    assert_eq!(node.visible_stake_pools(), &vec![Digest::new(21, 22)]);
    assert_eq!(node.query_tip(), Ok(Digest::new(1, 2)));
    let fresh = NodeController::new(String::from("node_b"));
    match fresh.stats() {
        Err(ScenarioError::RestError(_)) => {}
        other => panic!("expected a rest error, got {:?}", other),
    }
    match fresh.query_tip() {
        Err(ScenarioError::RestError(_)) => {}
        other => panic!("expected a rest error, got {:?}", other),
    }
}

#[test]
fn fragment_status_terminal_state_is_in_a_block() {
    assert!(!FragmentStatus::Pending.is_in_a_block());
    assert!(!FragmentStatus::Rejected {
        reason: String::from("invalid counter")
    }
    .is_in_a_block());
    assert!(FragmentStatus::InABlock {
        date: BlockDate { epoch: 0, slot_id: 3 },
        block: Digest::new(5, 6),
    }
    .is_in_a_block());
}

#[test]
fn assert_is_in_block_names_the_node_the_status_and_the_log() {
    let mut node = running_node("node_a", "42");
    node.log = String::from("boom");
    let status = FragmentStatus::InABlock {
        date: BlockDate { epoch: 0, slot_id: 3 },
        block: Digest::new(5, 6),
    };
    assert!(assert_is_in_block(status, &node).is_ok());
    let err = assert_is_in_block(FragmentStatus::Pending, &node).unwrap_err();
    assert_eq!(
        err,
        ScenarioError::AssertionFailed(String::from(
            "fragment sent to node node_a is not in a block (status: Pending); node log: boom"
        ))
    );
}

#[test]
fn assert_is_in_block_quotes_the_rejection_reason() {
    let mut node = running_node("node_a", "42");
    node.log = String::from("boom");
    let rejected = FragmentStatus::Rejected {
        reason: String::from("invalid counter"),
    };
    let rejected_err = assert_is_in_block(rejected, &node).unwrap_err();
    assert_eq!(
        rejected_err,
        ScenarioError::AssertionFailed(String::from(
            "fragment sent to node node_a is not in a block (status: Rejected: invalid counter); node log: boom"
        ))
    );
    let pending_err = assert_is_in_block(FragmentStatus::Pending, &node).unwrap_err();
    assert_ne!(rejected_err, pending_err);
}

#[test]
fn snapshot_probes_report_what_was_polled() {
    let node = running_node("node_a", "42");
    assert!(node.has_status_polled());
    assert!(node.has_height_polled());
    assert!(node.has_tip_polled());
    let fresh = NodeController::new(String::from("node_b"));
    assert!(!fresh.has_status_polled());
    assert!(!fresh.has_height_polled());
    assert!(!fresh.has_tip_polled());
    let mut garbled = running_node("node_c", "not a number");
    garbled.tip = None;
    assert!(garbled.has_status_polled());
    assert!(!garbled.has_height_polled());
    assert!(!garbled.has_tip_polled());
    let legacy = legacy_node("legacy_a", "Running", "7");
    assert!(legacy.has_status_polled());
    assert!(legacy.has_height_polled());
    assert!(legacy.has_tip_polled());
    let legacy_fresh = LegacyNodeController::new(String::from("legacy_b"));
    assert!(!legacy_fresh.has_status_polled());
    assert!(!legacy_fresh.has_height_polled());
}

#[test]
fn poll_decision_converges_retries_and_times_out() {
    let thresholds = SyncWaitParams::new(100, 30).unwrap();
    assert_eq!(poll_decision(&thresholds, 0, true), PollDecision::Converged);
    assert_eq!(
        poll_decision(&thresholds, 0, false),
        PollDecision::Retry { wait_ms: 30 }
    );
    assert_eq!(
        poll_decision(&thresholds, 90, false),
        PollDecision::Retry { wait_ms: 10 }
    );
    assert_eq!(poll_decision(&thresholds, 100, false), PollDecision::TimedOut);
    assert!(SyncWaitParams::new(100, 0).is_none());
}

#[test]
fn propagation_measurement_returns_one_sample_per_converged_target() {
    let targets = vec![
        String::from("node_a"),
        String::from("node_b"),
        String::from("node_c"),
    ];
    let thresholds = SyncWaitParams::new(1000, 100).unwrap();
    let mut measurement = PropagationMeasurement::new(Digest::new(9, 9), targets, thresholds);
    measurement.observe(0, 150, true);
    measurement.observe(1, 300, false);
    assert!(!measurement.is_complete());
    measurement.observe(1, 400, true);
    measurement.observe(2, 1000, true);
    assert!(measurement.is_complete());
    let samples = measurement.finish().expect("every target converged");
    assert_eq!(samples.len(), 3);
    assert_eq!(samples[0].alias, String::from("node_a"));
    assert_eq!(samples[0].duration_ms, 150);
    assert_eq!(samples[1].duration_ms, 400);
    assert_eq!(samples[2].duration_ms, 1000);
    for sample in &samples {
        assert!(sample.duration_ms <= 1000);
    }
}

#[test]
fn propagation_measurement_failure_names_the_nodes_that_never_converged() {
    let targets = vec![
        String::from("node_a"),
        String::from("node_b"),
        String::from("node_c"),
    ];
    let thresholds = SyncWaitParams::new(1000, 100).unwrap();
    let mut measurement = PropagationMeasurement::new(Digest::new(9, 9), targets, thresholds);
    measurement.observe(0, 150, true);
    // A convergence seen only after the window closed does not count.
    measurement.observe(2, 1500, true);
    let failure = measurement.finish().unwrap_err();
    assert_eq!(failure.max_duration_ms, 1000);
    assert_eq!(
        failure.non_converged,
        vec![String::from("node_b"), String::from("node_c")]
    );
}

#[test]
fn first_convergence_wins_and_late_observations_change_nothing() {
    let targets = vec![String::from("node_a")];
    let thresholds = SyncWaitParams::new(1000, 100).unwrap();
    let mut measurement = PropagationMeasurement::new(Digest::new(9, 9), targets, thresholds);
    measurement.observe(0, 200, true);
    measurement.observe(0, 50, true);
    let samples = measurement.finish().unwrap();
    assert_eq!(samples[0].duration_ms, 200);
}

#[test]
fn running_census_counts_running_snapshots() {
    assert_eq!(how_many_nodes_are_running(&vec![]), 0);
    assert_eq!(how_many_nodes_are_running(&vec![true, false, true, true]), 3);
}

#[test]
fn common_tip_check_detects_divergence() {
    assert!(all_at_common_tip(&vec![]));
    assert!(all_at_common_tip(&vec![Digest::new(1, 2), Digest::new(1, 2)]));
    assert!(!all_at_common_tip(&vec![Digest::new(1, 2), Digest::new(1, 3)]));
}
