//! The scenario controller: the single point of truth for which network a
//! test is driving and which fragment parameters apply to it.

use vstd::prelude::*;

use crate::blockchain::Blockchain;
use crate::errors::ScenarioError;
use crate::fragment::Digest;
use crate::node::NodeController;
use crate::topology::{has_alias, Topology};
use crate::wallet::{Fragment, FragmentContent, LinearFee, transfer_fee_spec, Wallet};

verus! {

/// What the environment supplies to materialise a network: the random
/// seed the driver spawns processes with, the genesis hash of the block
/// the driver produced from the settings, and the network's fee schedule.
#[derive(Debug, Clone, Copy, PartialEq, Eq, Structural)]
pub struct Context {
    pub seed: u64,
    pub genesis_hash: Digest,
    pub fee: LinearFee,
}

impl Context {
    pub fn new(seed: u64, genesis_hash: Digest, fee: LinearFee) -> (r: Context)
        ensures
            r.seed == seed && r.genesis_hash == genesis_hash && r.fee == fee,
    {
        Context { seed, genesis_hash, fee }
    }
}

/// Builds fragments bound to one network's genesis hash and fee schedule;
/// read-only and safely shared across wallets.
#[derive(Debug, Clone, Copy, PartialEq, Eq, Structural)]
pub struct FragmentSender {
    pub genesis_hash: Digest,
    pub fee: LinearFee,
}

impl FragmentSender {
    pub fn new(genesis_hash: Digest, fee: LinearFee) -> (r: FragmentSender)
        ensures
            r.genesis_hash == genesis_hash && r.fee == fee,
    {
        FragmentSender { genesis_hash, fee }
    }

    /// Builds a transfer from one wallet to another under this network's
    /// fee schedule, debiting the sender and advancing its counter.
    pub fn send_transaction(&self, from: &mut Wallet, to: &Wallet, value: u64) -> (r: Result<
        Fragment,
        ScenarioError,
    >)
        requires
            old(from).pending_counter < u64::MAX,
        ensures
            match r {
                Ok(f) => {
                    &&& transfer_fee_spec(self.fee) <= u64::MAX
                    &&& old(from).balance >= value + transfer_fee_spec(self.fee)
                    &&& final(from).balance == old(from).balance - value - transfer_fee_spec(
                        self.fee,
                    )
                    &&& final(from).pending_counter == old(from).pending_counter + 1
                    &&& final(from).confirmed_counter == old(from).confirmed_counter
                    &&& final(from).alias == old(from).alias
                    &&& f.content matches FragmentContent::Transfer { from: s, to: t, value: v }
                        && s@ == old(from).alias@ && t@ == to.alias@ && v == value
                    &&& f.genesis_hash == self.genesis_hash
                    &&& f.counter == final(from).pending_counter
                    &&& f.fee == transfer_fee_spec(self.fee)
                },
                Err(e) => {
                    &&& !(transfer_fee_spec(self.fee) <= u64::MAX && old(from).balance >= value
                        + transfer_fee_spec(self.fee))
                    &&& *final(from) == *old(from)
                    &&& e matches ScenarioError::NotEnoughFunds(a) && a@ == old(from).alias@
                },
            },
    {
        from.transaction_to(&self.genesis_hash, &self.fee, &to.alias, value)
    }
}

/// A materialised scenario: the validated topology, the genesis settings,
/// the fragment parameters of the running network, and one live wallet
/// per initial wallet template.
#[derive(Debug, Clone, PartialEq, Eq)]
pub struct Controller {
    pub topology: Topology,
    pub blockchain: Blockchain,
    pub genesis_hash: Digest,
    pub fee: LinearFee,
    pub wallets: Vec<Wallet>,
}

impl Controller {
    /// The fragment sender bound to this network's parameters.
    pub fn fragment_sender(&self) -> (r: FragmentSender)
        ensures
            r.genesis_hash == self.genesis_hash,
            r.fee == self.fee,
    {
        FragmentSender { genesis_hash: self.genesis_hash, fee: self.fee }
    }

    /// A fresh process handle for a node of the topology: exactly the
    /// registered aliases have one.
    pub fn get_node(&self, alias: &String) -> (r: Result<NodeController, ScenarioError>)
        ensures
            match r {
                Ok(h) => {
                    &&& has_alias(self.topology.nodes@, alias@)
                    &&& h.alias@ == alias@
                    &&& h.status is None && h.tip is None
                },
                Err(e) => {
                    &&& !has_alias(self.topology.nodes@, alias@)
                    &&& e matches ScenarioError::NodeNotFound(a) && a@ == alias@
                },
            },
    {
        if self.topology.contains(alias) {
            Ok(NodeController::new(alias.clone()))
        } else {
            Err(ScenarioError::NodeNotFound(alias.clone()))
        }
    }

    /// The live wallet registered under the alias: exactly the aliases of
    /// the initial wallet templates have one.
    pub fn wallet(&self, alias: &String) -> (r: Result<&Wallet, ScenarioError>)
        ensures
            match r {
                Ok(w) => w.alias@ == alias@ && exists|i: int|
                    0 <= i < self.wallets@.len() && self.wallets@[i] == *w,
                Err(e) => {
                    &&& forall|i: int|
                        0 <= i < self.wallets@.len() ==> (#[trigger] self.wallets@[i]).alias@
                            != alias@
                    &&& e matches ScenarioError::WalletNotFound(a) && a@ == alias@
                },
            },
    {
        let n = self.wallets.len();
        let mut i: usize = 0;
        while i < n
            invariant
                0 <= i <= n,
                n == self.wallets@.len(),
                forall|k: int| 0 <= k < i ==> (#[trigger] self.wallets@[k]).alias@ != alias@,
            decreases n - i,
        {
            if self.wallets[i].alias == *alias {
                return Ok(&self.wallets[i]);
            }
            i = i + 1;
        }
        Err(ScenarioError::WalletNotFound(alias.clone()))
    }
}

/// Collects a topology and genesis settings, then materialises the
/// controller for them.
#[derive(Debug, Clone, PartialEq, Eq)]
pub struct ControllerBuilder {
    pub title: String,
    pub topology: Option<Topology>,
    pub blockchain: Option<Blockchain>,
}

impl ControllerBuilder {
    pub fn new(title: &str) -> (r: ControllerBuilder)
        ensures
            r.title@ == title@,
            r.topology is None,
            r.blockchain is None,
    {
        ControllerBuilder { title: title.to_owned(), topology: None, blockchain: None }
    }

    pub fn set_topology(&mut self, topology: Topology)
        ensures
            final(self).topology == Some(topology),
            final(self).title == old(self).title,
            final(self).blockchain == old(self).blockchain,
    {
        self.topology = Some(topology);
    }

    pub fn set_blockchain(&mut self, blockchain: Blockchain)
        ensures
            final(self).blockchain == Some(blockchain),
            final(self).title == old(self).title,
            final(self).topology == old(self).topology,
    {
        self.blockchain = Some(blockchain);
    }

    /// Materialises the controller: one live wallet per initial wallet
    /// template, funded with the template's value, and the fragment
    /// parameters taken from the context.
    ///
    /// Succeeds exactly when a topology and a blockchain were both set;
    /// otherwise fails naming the scenario.
    pub fn build(self, context: &Context) -> (r: Result<Controller, ScenarioError>)
        ensures
            r is Ok <==> self.topology is Some && self.blockchain is Some,
            r matches Ok(c) ==> {
                &&& c.topology == self.topology->0
                &&& c.blockchain == self.blockchain->0
                &&& c.genesis_hash == context.genesis_hash
                &&& c.fee == context.fee
                &&& c.wallets@.len() == self.blockchain->0.wallets@.len()
                &&& forall|i: int|
                    0 <= i < c.wallets@.len() ==> {
                        &&& (#[trigger] c.wallets@[i]).alias@
                            == self.blockchain->0.wallets@[i].alias@
                        &&& c.wallets@[i].balance == self.blockchain->0.wallets@[i].value
                        &&& c.wallets@[i].pending_counter == 0
                        &&& c.wallets@[i].confirmed_counter == 0
                    }
            },
            r matches Err(e) ==> e matches ScenarioError::AssertionFailed(t) && t@ == self.title@,
    {
        let topology = match self.topology {
            Some(t) => t,
            None => {
                return Err(ScenarioError::AssertionFailed(self.title));
            },
        };
        let blockchain = match self.blockchain {
            Some(b) => b,
            None => {
                return Err(ScenarioError::AssertionFailed(self.title));
            },
        };
        let n = blockchain.wallets.len();
        let mut wallets: Vec<Wallet> = Vec::new();
        let mut i: usize = 0;
        while i < n
            invariant
                0 <= i <= n,
                n == blockchain.wallets@.len(),
                wallets@.len() == i,
                forall|k: int|
                    0 <= k < i ==> {
                        &&& (#[trigger] wallets@[k]).alias@ == blockchain.wallets@[k].alias@
                        &&& wallets@[k].balance == blockchain.wallets@[k].value
                        &&& wallets@[k].pending_counter == 0
                        &&& wallets@[k].confirmed_counter == 0
                    },
            decreases n - i,
        {
            let template = &blockchain.wallets[i];
            wallets.push(Wallet::new_account(template.alias.as_str(), template.value));
            i = i + 1;
        }
        Ok(
            Controller {
                topology,
                blockchain,
                genesis_hash: context.genesis_hash,
                fee: context.fee,
                wallets,
            },
        )
    }
}

} // verus!
