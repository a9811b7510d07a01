//! The declarative scenario description.
//!
//! A scenario is written down as plain data — topology nodes, blockchain
//! parameters, leaders, and initial accounts with their optional
//! `delegates to` clause — and expanded into the imperative builder calls.
//! Expansion validates everything the builders validate, plus the rule
//! that a wallet carries at most one delegation clause: a second clause
//! fails here, at scenario-build time, never at submission time.

use vstd::prelude::*;

use crate::blockchain::{
    has_wallet_alias, ActiveSlotCoefficient, Blockchain, ConsensusVersion, KesUpdateSpeed, Milli,
    NumberOfSlotsPerEpoch, SlotDuration, WalletTemplate,
};
use crate::controller::ControllerBuilder;
use crate::errors::ScenarioError;
use crate::topology::{has_alias, topology_ok, Node, TopologyBuilder};

verus! {

/// The key-evolving-signature rotation interval scenarios run with.
pub const DEFAULT_KES_UPDATE_SPEED: u32 = 46800;

/// The active slot coefficient scenarios run with, in millis.
pub const DEFAULT_ACTIVE_SLOT_COEFFICIENT_MILLIS: u64 = 700;

/// One initial account of the scenario: its alias, its starting funds,
/// and its `delegates to` clauses as written — validation rejects more
/// than one.
#[derive(Debug, Clone, PartialEq, Eq)]
pub struct WalletDef {
    pub alias: String,
    pub funds: u64,
    pub delegations: Vec<String>,
}

/// A whole scenario, as declared.
#[derive(Debug, Clone, PartialEq, Eq)]
pub struct ScenarioDef {
    pub title: String,
    pub topology: Vec<Node>,
    pub consensus: ConsensusVersion,
    pub slots_per_epoch: u32,
    pub slot_duration: u8,
    pub leaders: Vec<String>,
    pub wallets: Vec<WalletDef>,
}

/// The wallet declaration at `i` is sound on its own and against the
/// others: at most one delegation clause, and no other wallet carries its
/// alias.
pub open spec fn wallet_def_sound(wallets: Seq<WalletDef>, i: int) -> bool {
    &&& wallets[i].delegations@.len() <= 1
    &&& forall|j: int|
        0 <= j < wallets.len() && j != i ==> (#[trigger] wallets[j]).alias@ != wallets[i].alias@
}

/// Every wallet declaration is sound: at most one delegation clause, and
/// no two wallets under one alias.
pub open spec fn wallets_valid(wallets: Seq<WalletDef>) -> bool {
    &&& forall|i: int|
        0 <= i < wallets.len() ==> (#[trigger] wallets[i]).delegations@.len() <= 1
    &&& forall|i: int, j: int|
        0 <= i < j < wallets.len() ==> wallets[i].alias@ != wallets[j].alias@
}

/// The whole declaration is sound: the topology resolves, the timing
/// parameters are positive, and the wallets are sound.
pub open spec fn scenario_valid(def: ScenarioDef) -> bool {
    &&& topology_ok(def.topology@)
    &&& def.slots_per_epoch >= 1
    &&& def.slot_duration >= 1
    &&& wallets_valid(def.wallets@)
}

/// Expands a declared scenario into a primed controller builder.
///
/// Succeeds exactly when the declaration is sound.  A dangling
/// trusted-peer reference fails as the topology build does; a second
/// delegation clause, a repeated wallet alias or an out-of-range timing
/// parameter is a build-time assertion failure.
#[verifier::loop_isolation(false)]
pub fn prepare_scenario(def: ScenarioDef) -> (r: Result<ControllerBuilder, ScenarioError>)
    ensures
        r is Ok <==> scenario_valid(def),
        r matches Ok(b) ==> {
            &&& b.title@ == def.title@
            &&& b.topology matches Some(t) && t.nodes@ == def.topology@
            &&& b.blockchain matches Some(bc) && {
                &&& bc.consensus == def.consensus
                &&& bc.slots_per_epoch.value == def.slots_per_epoch
                &&& bc.slot_duration.value == def.slot_duration
                &&& bc.kes_update_speed.value == DEFAULT_KES_UPDATE_SPEED
                &&& bc.active_slot_coefficient.millis == DEFAULT_ACTIVE_SLOT_COEFFICIENT_MILLIS
                &&& bc.leaders@.len() == def.leaders@.len()
                &&& forall|i: int|
                    0 <= i < def.leaders@.len() ==> (#[trigger] bc.leaders@[i])@
                        == def.leaders@[i]@
                &&& bc.wallets@.len() == def.wallets@.len()
                &&& forall|i: int|
                    0 <= i < def.wallets@.len() ==> {
                        &&& (#[trigger] bc.wallets@[i]).alias@ == def.wallets@[i].alias@
                        &&& bc.wallets@[i].value == def.wallets@[i].funds
                        &&& bc.wallets@[i].wallet_type is Account
                        &&& (def.wallets@[i].delegations@.len() == 1 ==> (bc.wallets@[i].delegate
                            matches Some(d) && d@ == def.wallets@[i].delegations@[0]@))
                        &&& (def.wallets@[i].delegations@.len() == 0 ==> bc.wallets@[i].delegate
                            is None)
                    }
            }
        },
        r matches Err(e) ==> {
            &&& (!topology_ok(def.topology@) ==> (e matches ScenarioError::NodeNotFound(a)
                && !has_alias(def.topology@, a@) && exists|i: int, j: int|
                    0 <= i < def.topology@.len() && 0 <= j < def.topology@[i].trusted_peers@.len()
                        && def.topology@[i].trusted_peers@[j]@ == a@))
            &&& (topology_ok(def.topology@) ==> e matches ScenarioError::AssertionFailed(_))
            &&& (topology_ok(def.topology@) && def.slots_per_epoch == 0 ==> (e
                matches ScenarioError::AssertionFailed(a) && a@ == "number_of_slots_per_epoch"@))
            &&& (topology_ok(def.topology@) && def.slots_per_epoch >= 1 && def.slot_duration == 0
                ==> (e matches ScenarioError::AssertionFailed(a) && a@ == "slot_duration"@))
            &&& (topology_ok(def.topology@) && def.slots_per_epoch >= 1 && def.slot_duration >= 1
                ==> (e matches ScenarioError::AssertionFailed(a) && exists|i: int|
                    0 <= i < def.wallets@.len() && (#[trigger] def.wallets@[i]).alias@ == a@
                        && !wallet_def_sound(def.wallets@, i)))
        },
{
    let ScenarioDef { title, topology, consensus, slots_per_epoch, slot_duration, leaders, wallets } =
        def;

    let topology_builder = TopologyBuilder { nodes: topology };
    let built_topology = match topology_builder.build() {
        Ok(t) => t,
        Err(e) => {
            return Err(e);
        },
    };

    let slots = match NumberOfSlotsPerEpoch::new(slots_per_epoch) {
        Some(v) => v,
        None => {
            return Err(ScenarioError::AssertionFailed("number_of_slots_per_epoch".to_owned()));
        },
    };
    let duration = match SlotDuration::new(slot_duration) {
        Some(v) => v,
        None => {
            return Err(ScenarioError::AssertionFailed("slot_duration".to_owned()));
        },
    };
    let kes = match KesUpdateSpeed::new(DEFAULT_KES_UPDATE_SPEED) {
        Some(v) => v,
        None => {
            return Err(ScenarioError::AssertionFailed("kes_update_speed".to_owned()));
        },
    };
    let coefficient = match ActiveSlotCoefficient::new(
        Milli::from_millis(DEFAULT_ACTIVE_SLOT_COEFFICIENT_MILLIS),
    ) {
        Some(v) => v,
        None => {
            return Err(ScenarioError::AssertionFailed("active_slot_coefficient".to_owned()));
        },
    };

    let mut blockchain = Blockchain::new(consensus, slots, duration, kes, coefficient);

    let leader_count = leaders.len();
    let mut i: usize = 0;
    while i < leader_count
        invariant
            0 <= i <= leader_count,
            blockchain.leaders@.len() == i,
            forall|k: int| 0 <= k < i ==> (#[trigger] blockchain.leaders@[k])@ == leaders@[k]@,
            blockchain.wallets@.len() == 0,
            blockchain.consensus == consensus,
            blockchain.slots_per_epoch == slots,
            blockchain.slot_duration == duration,
            blockchain.kes_update_speed == kes,
            blockchain.active_slot_coefficient == coefficient,
        decreases leader_count - i,
    {
        blockchain.add_leader(leaders[i].as_str());
        i = i + 1;
    }

    let wallet_count = wallets.len();
    let mut w: usize = 0;
    while w < wallet_count
        invariant
            0 <= w <= wallet_count,
            blockchain.wallets@.len() == w,
            forall|k: int|
                0 <= k < w ==> {
                    &&& (#[trigger] blockchain.wallets@[k]).alias@ == wallets@[k].alias@
                    &&& blockchain.wallets@[k].value == wallets@[k].funds
                    &&& blockchain.wallets@[k].wallet_type is Account
                    &&& (wallets@[k].delegations@.len() == 1 ==> (blockchain.wallets@[k].delegate
                        matches Some(d) && d@ == wallets@[k].delegations@[0]@))
                    &&& (wallets@[k].delegations@.len() == 0 ==> blockchain.wallets@[k].delegate
                        is None)
                },
            forall|k: int| 0 <= k < w ==> (#[trigger] wallets@[k]).delegations@.len() <= 1,
            forall|k1: int, k2: int|
                0 <= k1 < k2 < w ==> wallets@[k1].alias@ != wallets@[k2].alias@,
            blockchain.leaders@.len() == leaders@.len(),
            forall|k: int|
                0 <= k < leaders@.len() ==> (#[trigger] blockchain.leaders@[k])@ == leaders@[k]@,
            blockchain.consensus == consensus,
            blockchain.slots_per_epoch == slots,
            blockchain.slot_duration == duration,
            blockchain.kes_update_speed == kes,
            blockchain.active_slot_coefficient == coefficient,
        decreases wallet_count - w,
    {
        let def_wallet = &wallets[w];
        let mut template = WalletTemplate::new_account(def_wallet.alias.as_str(), def_wallet.funds);
        let clause_count = def_wallet.delegations.len();
        let mut c: usize = 0;
        while c < clause_count
            invariant
                0 <= c <= clause_count,
                c <= 1,
                template.alias@ == wallets@[w as int].alias@,
                template.value == wallets@[w as int].funds,
                template.wallet_type is Account,
                c == 0 ==> template.delegate is None,
                c == 1 ==> (template.delegate matches Some(d) && d@ == wallets@[w as int].delegations@[0]@),
            decreases clause_count - c,
        {
            match template.set_delegate(def_wallet.delegations[c].as_str()) {
                Ok(()) => {},
                Err(e) => {
                    proof {
                        assert(wallets@[w as int].delegations@.len() >= 2);
                        assert(!wallets_valid(wallets@));
                        assert(!wallet_def_sound(wallets@, w as int));
                        assert(exists|i: int|
                            0 <= i < wallets@.len() && (#[trigger] wallets@[i]).alias@
                                == wallets@[w as int].alias@ && !wallet_def_sound(
                                wallets@,
                                i,
                            )) by {
                            assert(wallets@[w as int].alias@ == wallets@[w as int].alias@);
                            assert(!wallet_def_sound(wallets@, w as int));
                        }
                    }
                    return Err(e);
                },
            }
            c = c + 1;
        }
        let ghost pre_wallets = blockchain.wallets@;
        let ghost new_alias = template.alias@;
        match blockchain.add_wallet(template) {
            Ok(()) => {
                proof {
                    assert forall|k: int|
                        0 <= k < w implies wallets@[k].alias@ != wallets@[w as int].alias@ by {
                        if wallets@[k].alias@ == wallets@[w as int].alias@ {
                            assert(pre_wallets[k].alias@ == new_alias);
                            assert(has_wallet_alias(pre_wallets, new_alias));
                        }
                    }
                }
            },
            Err(e) => {
                proof {
                    let k1 = choose|k1: int|
                        0 <= k1 < blockchain.wallets@.len() && blockchain.wallets@[k1].alias@
                            == wallets@[w as int].alias@;
                    assert(wallets@[k1].alias@ == wallets@[w as int].alias@);
                    assert(!wallets_valid(wallets@));
                    assert(!wallet_def_sound(wallets@, w as int));
                    assert(exists|i: int|
                        0 <= i < wallets@.len() && (#[trigger] wallets@[i]).alias@
                            == wallets@[w as int].alias@ && !wallet_def_sound(wallets@, i)) by {
                        assert(wallets@[w as int].alias@ == wallets@[w as int].alias@);
                        assert(!wallet_def_sound(wallets@, w as int));
                    }
                }
                return Err(e);
            },
        }
        w = w + 1;
    }

    let mut builder = ControllerBuilder::new(title.as_str());
    builder.set_topology(built_topology);
    builder.set_blockchain(blockchain);
    Ok(builder)
}

} // verus!
