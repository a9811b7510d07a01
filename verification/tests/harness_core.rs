//! Topology validation, scenario expansion and controller behaviour.

use scenario_harness::{
    prepare_scenario, ConsensusVersion, Context, Digest, LinearFee, Node, ScenarioDef,
    ScenarioError, TopologyBuilder, WalletDef, WalletTemplate,
};

fn two_node_def() -> ScenarioDef {
    let mut node_a = Node::new("node_a");
    node_a.add_trusted_peer("node_b");
    let node_b = Node::new("node_b");
    ScenarioDef {
        title: String::from("two_node"),
        topology: vec![node_a, node_b],
        consensus: ConsensusVersion::GenesisPraos,
        slots_per_epoch: 60,
        slot_duration: 1,
        leaders: vec![String::from("node_a")],
        wallets: vec![
            WalletDef {
                alias: String::from("alice"),
                funds: 1_000_000,
                delegations: vec![],
            },
            WalletDef {
                alias: String::from("bob"),
                funds: 200,
                delegations: vec![],
            },
        ],
    }
}

#[test]
fn topology_build_succeeds_when_all_references_registered() {
    let mut builder = TopologyBuilder::new();
    let mut node_a = Node::new("node_a");
    node_a.add_trusted_peer("node_b");
    builder.register_node(node_a);
    builder.register_node(Node::new("node_b"));
    let topology = builder.build().expect("all references are registered");
    assert_eq!(topology.node_count(), 2);
    assert!(topology.contains(&String::from("node_a")));
    assert!(topology.contains(&String::from("node_b")));
    assert!(!topology.contains(&String::from("node_c")));
    let aliases = topology.aliases();
    assert_eq!(aliases, vec![String::from("node_a"), String::from("node_b")]);
}

#[test]
fn topology_build_fails_with_node_not_found_on_dangling_reference() {
    let mut builder = TopologyBuilder::new();
    let mut node_a = Node::new("node_a");
    node_a.add_trusted_peer("node_c");
    builder.register_node(node_a);
    builder.register_node(Node::new("node_b"));
    let err = builder.build().unwrap_err();
    assert_eq!(err, ScenarioError::NodeNotFound(String::from("node_c")));
}

#[test]
fn topology_allows_cycles() {
    let mut builder = TopologyBuilder::new();
    let mut node_a = Node::new("node_a");
    node_a.add_trusted_peer("node_b");
    let mut node_b = Node::new("node_b");
    node_b.add_trusted_peer("node_a");
    builder.register_node(node_a);
    builder.register_node(node_b);
    assert!(builder.build().is_ok());
}

#[test]
fn second_delegation_clause_fails_on_the_template() {
    let mut template = WalletTemplate::new_account("alice", 100);
    assert!(template.set_delegate("pool_one").is_ok());
    let err = template.set_delegate("pool_two").unwrap_err();
    assert_eq!(err, ScenarioError::AssertionFailed(String::from("alice")));
    assert_eq!(template.delegate(), &Some(String::from("pool_one")));
}

#[test]
fn scenario_expansion_succeeds_on_sound_declaration() {
    let builder = prepare_scenario(two_node_def()).expect("declaration is sound");
    assert_eq!(builder.title, String::from("two_node"));
    let blockchain = builder.blockchain.clone().unwrap();
    assert_eq!(blockchain.slots_per_epoch.value, 60);
    assert_eq!(blockchain.slot_duration.value, 1);
    assert_eq!(blockchain.kes_update_speed.value, 46800);
    assert_eq!(blockchain.active_slot_coefficient.millis, 700);
    assert_eq!(blockchain.leaders, vec![String::from("node_a")]);
    assert_eq!(blockchain.wallets.len(), 2);
    assert_eq!(blockchain.wallets[0].alias, String::from("alice"));
    assert_eq!(blockchain.wallets[0].value, 1_000_000);
    assert_eq!(blockchain.wallets[0].delegate, None);
}

#[test]
fn scenario_expansion_fails_on_second_delegation_clause() {
    let mut def = two_node_def();
    def.wallets[0].delegations = vec![String::from("node_a"), String::from("node_b")];
    let err = prepare_scenario(def).unwrap_err();
    assert_eq!(err, ScenarioError::AssertionFailed(String::from("alice")));
}

#[test]
fn scenario_expansion_accepts_one_delegation_clause() {
    let mut def = two_node_def();
    def.wallets[0].delegations = vec![String::from("node_a")];
    let builder = prepare_scenario(def).expect("one clause is allowed");
    let blockchain = builder.blockchain.unwrap();
    assert_eq!(blockchain.wallets[0].delegate, Some(String::from("node_a")));
}

#[test]
fn scenario_expansion_fails_on_repeated_wallet_alias() {
    let mut def = two_node_def();
    def.wallets[1].alias = String::from("alice");
    let err = prepare_scenario(def).unwrap_err();
    assert_eq!(err, ScenarioError::AssertionFailed(String::from("alice")));
}

#[test]
fn scenario_expansion_fails_on_dangling_trusted_peer() {
    let mut def = two_node_def();
    def.topology.pop();
    let err = prepare_scenario(def).unwrap_err();
    assert_eq!(err, ScenarioError::NodeNotFound(String::from("node_b")));
}

#[test]
fn scenario_expansion_fails_on_zero_slot_duration() {
    let mut def = two_node_def();
    def.slot_duration = 0;
    let err = prepare_scenario(def).unwrap_err();
    assert_eq!(
        err,
        ScenarioError::AssertionFailed(String::from("slot_duration"))
    );
}

#[test]
fn scenario_expansion_fails_on_zero_slots_per_epoch() {
    let mut def = two_node_def();
    def.slots_per_epoch = 0;
    let err = prepare_scenario(def).unwrap_err();
    assert_eq!(
        err,
        ScenarioError::AssertionFailed(String::from("number_of_slots_per_epoch"))
    );
}

#[test]
fn controller_build_initialises_wallets_from_templates() {
    let builder = prepare_scenario(two_node_def()).unwrap();
    let context = Context::new(7, Digest::new(11, 12), LinearFee::new(1, 1, 2));
    let controller = builder.build(&context).expect("both parts are set");
    assert_eq!(controller.genesis_hash, Digest::new(11, 12));
    assert_eq!(controller.wallets.len(), 2);
    assert_eq!(controller.wallets[0].alias, String::from("alice"));
    assert_eq!(controller.wallets[0].balance, 1_000_000);
    assert_eq!(controller.wallets[0].pending_counter, 0);
    let sender = controller.fragment_sender();
    assert_eq!(sender.genesis_hash, Digest::new(11, 12));
    assert_eq!(sender.fee, LinearFee::new(1, 1, 2));
}

#[test]
fn controller_get_node_fails_with_node_not_found_on_unknown_alias() {
    let builder = prepare_scenario(two_node_def()).unwrap();
    let context = Context::new(7, Digest::new(11, 12), LinearFee::new(1, 1, 2));
    let controller = builder.build(&context).unwrap();
    let handle = controller.get_node(&String::from("node_a")).unwrap();
    assert_eq!(handle.alias, String::from("node_a"));
    let err = controller.get_node(&String::from("node_z")).unwrap_err();
    assert_eq!(err, ScenarioError::NodeNotFound(String::from("node_z")));
}

#[test]
fn controller_wallet_lookup_fails_with_wallet_not_found_on_unknown_alias() {
    let builder = prepare_scenario(two_node_def()).unwrap();
    let context = Context::new(7, Digest::new(11, 12), LinearFee::new(1, 1, 2));
    let controller = builder.build(&context).unwrap();
    let wallet = controller.wallet(&String::from("bob")).unwrap();
    assert_eq!(wallet.balance, 200);
    let err = controller.wallet(&String::from("carol")).unwrap_err();
    assert_eq!(err, ScenarioError::WalletNotFound(String::from("carol")));
}

#[test]
fn error_values_compare_structurally() {
    assert_eq!(
        ScenarioError::Io(String::from("broken pipe")),
        ScenarioError::Io(String::from("broken pipe"))
    );
    assert_ne!(
        ScenarioError::BlockFormatError(String::from("truncated")),
        ScenarioError::RestError(String::from("truncated"))
    );
}
