//! The expected ledger effects: transfer balances, stake-pool lifecycle
//! visibility and delegation structure after convergence.

use scenario_harness::{
    apply_certificate_to_pools, expected_balances_after_transfer, expected_delegation,
    prepare_scenario, Certificate, ConsensusVersion, Context, DelegationRatio, DelegationType,
    Digest, FragmentContent, LinearFee, Node, PropagationMeasurement, ScenarioDef,
    ScenarioError, StakePool, SyncWaitParams, Wallet, WalletDef,
};

fn fee() -> LinearFee {
    LinearFee::new(1, 1, 2)
}

fn genesis() -> Digest {
    Digest::new(3, 4)
}

#[test]
fn transfer_fee_is_constant_plus_two_coefficients() {
    assert_eq!(fee().transfer_fee(), Some(3));
    assert_eq!(LinearFee::new(10, 5, 7).transfer_fee(), Some(20));
    assert_eq!(LinearFee::new(u64::MAX, 1, 0).transfer_fee(), None);
}

#[test]
fn certificate_fee_adds_the_certificate_surcharge() {
    assert_eq!(fee().certificate_fee(), Some(4));
    assert_eq!(LinearFee::new(10, 5, 7).certificate_fee(), Some(22));
    assert_eq!(LinearFee::new(u64::MAX, 0, 1).certificate_fee(), None);
}

#[test]
fn transfer_moves_exactly_the_value_and_charges_the_fee() {
    // Two wallets funded 1,000,000 and 200; a transfer of 1,000 must
    // increase the receiver by exactly 1,000 and decrease the sender by
    // 1,000 plus the fee.
    let mut alice = Wallet::new_account("alice", 1_000_000);
    let bob = Wallet::new_account("bob", 200);
    let fragment = alice
        .transaction_to(&genesis(), &fee(), &bob.alias, 1_000)
        .expect("alice covers value plus fee");
    assert_eq!(alice.balance, 1_000_000 - 1_000 - 3);
    assert_eq!(alice.pending_counter, 1);
    assert_eq!(alice.confirmed_counter, 0);
    assert_eq!(fragment.fee, 3);
    match &fragment.content {
        FragmentContent::Transfer { from, to, value } => {
            assert_eq!(from.as_str(), "alice");
            assert_eq!(to.as_str(), "bob");
            assert_eq!(*value, 1_000);
        }
        other => panic!("expected a transfer, got {:?}", other),
    }
    let (sender_after, receiver_after) =
        expected_balances_after_transfer(1_000_000, 200, 1_000, 3).unwrap();
    assert_eq!(sender_after, alice.balance);
    assert_eq!(receiver_after, 1_200);
    alice.confirm_transaction();
    assert_eq!(alice.confirmed_counter, 1);
}

#[test]
fn transfer_fails_with_not_enough_funds_and_leaves_the_wallet_unchanged() {
    let mut poor = Wallet::new_account("poor", 200);
    let rich = Wallet::new_account("rich", 1_000_000);
    let err = poor.transaction_to(&genesis(), &fee(), &rich.alias, 1_000).unwrap_err();
    assert_eq!(err, ScenarioError::NotEnoughFunds(String::from("poor")));
    assert_eq!(poor.balance, 200);
    assert_eq!(poor.pending_counter, 0);
}

#[test]
fn end_to_end_transfer_scenario_converges_with_exact_balances() {
    let mut node_a = Node::new("node_a");
    node_a.add_trusted_peer("node_b");
    let def = ScenarioDef {
        title: String::from("transfer_scenario"),
        topology: vec![node_a, Node::new("node_b")],
        consensus: ConsensusVersion::GenesisPraos,
        slots_per_epoch: 60,
        slot_duration: 1,
        leaders: vec![String::from("node_a")],
        wallets: vec![
            WalletDef {
                alias: String::from("alice"),
                funds: 1_000_000,
                delegations: vec![],
            },
            WalletDef {
                alias: String::from("bob"),
                funds: 200,
                delegations: vec![],
            },
        ],
    };
    let builder = prepare_scenario(def).unwrap();
    let context = Context::new(1, Digest::new(3, 4), fee());
    let controller = builder.build(&context).unwrap();
    let mut alice = controller.wallet(&String::from("alice")).unwrap().clone();
    let bob = controller.wallet(&String::from("bob")).unwrap().clone();
    let sender = controller.fragment_sender();
    sender
        .send_transaction(&mut alice, &bob, 1_000)
        .expect("alice covers value plus fee");

    // The driver submits through node_a and polls both nodes.
    let thresholds = SyncWaitParams::new(5_000, 500).unwrap();
    let mut measurement = PropagationMeasurement::new(
        Digest::new(8, 8),
        controller.topology.aliases(),
        thresholds,
    );
    measurement.observe(0, 700, true);
    measurement.observe(1, 1_400, true);
    let samples = measurement.finish().expect("both nodes converged");
    assert_eq!(samples.len(), 2);

    let (alice_after, bob_after) =
        expected_balances_after_transfer(1_000_000, 200, 1_000, 3).unwrap();
    assert_eq!(alice_after, alice.balance);
    assert_eq!(bob_after, bob.balance + 1_000);
}

#[test]
fn registered_pool_is_visible_on_every_node_and_retired_pool_on_none() {
    let mut owner = Wallet::new_account("owner", 10_000);
    let pool = StakePool::new("owner", Digest::new(21, 22));
    let registration = owner
        .issue_pool_registration_cert(&genesis(), &fee(), &pool)
        .expect("owner covers the certificate fee");
    assert_eq!(owner.balance, 10_000 - 4);
    owner.confirm_transaction();
    let cert = match registration.content {
        FragmentContent::Cert { certificate, .. } => certificate,
        other => panic!("expected a certificate, got {:?}", other),
    };

    let node_views = vec![vec![], vec![Digest::new(1, 1)]];
    let mut after_registration: Vec<Vec<Digest>> = Vec::new();
    for view in &node_views {
        let updated = apply_certificate_to_pools(view, &cert);
        assert!(updated.contains(&pool.id));
        after_registration.push(updated);
    }

    let retirement = owner
        .issue_pool_retire_cert(&genesis(), &fee(), &pool)
        .expect("owner covers the certificate fee");
    let retire_cert = match retirement.content {
        FragmentContent::Cert { certificate, .. } => certificate,
        other => panic!("expected a certificate, got {:?}", other),
    };
    for view in &after_registration {
        let updated = apply_certificate_to_pools(view, &retire_cert);
        assert!(!updated.contains(&pool.id));
    }
}

#[test]
fn owner_and_full_delegation_expect_full_delegation_to_the_pool() {
    let pool = StakePool::new("owner", Digest::new(21, 22));
    let owner_cert = Certificate::OwnerDelegation { pool_id: pool.id };
    assert_eq!(
        expected_delegation(&owner_cert),
        Some(DelegationType::Full(Digest::new(21, 22)))
    );
    let full_cert = Certificate::FullDelegation { pool_id: pool.id };
    assert_eq!(
        expected_delegation(&full_cert),
        Some(DelegationType::Full(Digest::new(21, 22)))
    );
}

#[test]
fn split_delegation_with_equal_weights_expects_a_ratio_of_two_parts() {
    let first = Digest::new(21, 22);
    let second = Digest::new(31, 32);
    let mut delegator = Wallet::new_account("delegator", 1_000);
    let fragment = delegator
        .issue_split_delegation_cert(&genesis(), &fee(), vec![(first, 1), (second, 1)])
        .expect("delegator covers the certificate fee");
    let cert = match fragment.content {
        FragmentContent::Cert { certificate, .. } => certificate,
        other => panic!("expected a certificate, got {:?}", other),
    };
    let expected_ratio =
        DelegationRatio::new(2, vec![(first, 1), (second, 1)]).expect("weights sum to parts");
    assert_eq!(
        expected_delegation(&cert),
        Some(DelegationType::Ratio(expected_ratio))
    );
}

#[test]
fn delegation_ratio_rejects_unsound_splits() {
    assert!(DelegationRatio::new(2, vec![]).is_none());
    assert!(DelegationRatio::new(3, vec![(Digest::new(1, 1), 1), (Digest::new(2, 2), 1)]).is_none());
    assert!(DelegationRatio::new(1, vec![(Digest::new(1, 1), 0), (Digest::new(2, 2), 1)]).is_none());
}

#[test]
fn certificate_issuance_advances_the_spending_counter() {
    let mut owner = Wallet::new_account("owner", 100);
    let pool = StakePool::new("owner", Digest::new(21, 22));
    let first = owner.issue_pool_registration_cert(&genesis(), &fee(), &pool).unwrap();
    assert_eq!(first.counter, 1);
    let second = owner.issue_owner_delegation_cert(&genesis(), &fee(), &pool).unwrap();
    assert_eq!(second.counter, 2);
    let third = owner.issue_full_delegation_cert(&genesis(), &fee(), &pool).unwrap();
    assert_eq!(third.counter, 3);
    assert_eq!(owner.balance, 100 - 12);
    let mut broke = Wallet::new_account("broke", 1);
    let err = broke.issue_pool_registration_cert(&genesis(), &fee(), &pool).unwrap_err();
    assert_eq!(err, ScenarioError::NotEnoughFunds(String::from("broke")));
}
