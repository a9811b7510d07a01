//! Test-orchestration core for a network of blockchain node processes.
//!
//! The crate models the declarative description of a multi-node scenario
//! (a trust topology, genesis settings, initial wallets), the controller
//! that materialises it, and the measurement logic that decides when a
//! submitted fragment has propagated to every node.  All process, REST
//! and file-system work is left to a thin unverified driver: the library
//! receives plain snapshots of what a node reported and decides from
//! those alone.

mod blockchain;
mod controller;
mod delegation;
mod errors;
mod fragment;
mod measurement;
mod node;
mod scenario;
mod sync;
mod topology;
mod wallet;

pub use blockchain::{
    ActiveSlotCoefficient, Blockchain, ConsensusVersion, KesUpdateSpeed, Milli,
    NumberOfSlotsPerEpoch, SlotDuration, WalletTemplate, WalletType,
};
pub use controller::{Context, Controller, ControllerBuilder, FragmentSender};
pub use delegation::{
    apply_certificate_to_pools, expected_delegation, DelegationRatio, DelegationType,
};
pub use errors::ScenarioError;
pub use fragment::{BlockDate, Digest, FragmentStatus};
pub use measurement::{
    assert_is_in_block, how_many_nodes_are_running, all_at_common_tip, poll_decision,
    PollDecision, PropagationFailure, PropagationMeasurement, Sample, SyncWaitParams,
};
pub use node::{LegacyNodeController, NodeController};
pub use scenario::{
    prepare_scenario, ScenarioDef, WalletDef, DEFAULT_ACTIVE_SLOT_COEFFICIENT_MILLIS,
    DEFAULT_KES_UPDATE_SPEED,
};
pub use sync::{parse_u32, NodeState, NodeStatsData, StatusSnapshot, SyncNode};
pub use topology::{Node, Topology, TopologyBuilder};
pub use wallet::{
    expected_balances_after_transfer, Certificate, Fragment, FragmentContent, LinearFee,
    StakePool, Wallet,
};
