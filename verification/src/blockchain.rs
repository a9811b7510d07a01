//! Genesis settings of a scenario: consensus kind, slot timing, leaders
//! and the initial wallets, validated before any node is configured.

use vstd::prelude::*;

use crate::errors::ScenarioError;

verus! {

/// The consensus algorithm the network runs; within this core it only
/// shapes the genesis parameters.
#[derive(Debug, Clone, Copy, PartialEq, Eq, Structural)]
pub enum ConsensusVersion {
    Bft,
    GenesisPraos,
}

/// A fraction in fixed-point milli representation: 1000 stands for 1.0.
#[derive(Debug, Clone, Copy, PartialEq, Eq, Structural)]
pub struct Milli {
    pub value: u64,
}

impl Milli {
    pub fn from_millis(value: u64) -> (r: Milli)
        ensures
            r.value == value,
    {
        Milli { value }
    }
}

/// How many slots one epoch holds; must be positive.
#[derive(Debug, Clone, Copy, PartialEq, Eq, Structural)]
pub struct NumberOfSlotsPerEpoch {
    pub value: u32,
}

impl NumberOfSlotsPerEpoch {
    pub fn new(value: u32) -> (r: Option<NumberOfSlotsPerEpoch>)
        ensures
            match r {
                Some(v) => value >= 1 && v.value == value,
                None => value == 0,
            },
    {
        if value >= 1 {
            Some(NumberOfSlotsPerEpoch { value })
        } else {
            None
        }
    }
}

/// How long one slot lasts, in seconds; must be positive.
#[derive(Debug, Clone, Copy, PartialEq, Eq, Structural)]
pub struct SlotDuration {
    pub value: u8,
}

impl SlotDuration {
    pub fn new(value: u8) -> (r: Option<SlotDuration>)
        ensures
            match r {
                Some(v) => value >= 1 && v.value == value,
                None => value == 0,
            },
    {
        if value >= 1 {
            Some(SlotDuration { value })
        } else {
            None
        }
    }
}

/// The key-evolving-signature rotation interval, in seconds; must be
/// positive.
#[derive(Debug, Clone, Copy, PartialEq, Eq, Structural)]
pub struct KesUpdateSpeed {
    pub value: u32,
}

impl KesUpdateSpeed {
    pub fn new(value: u32) -> (r: Option<KesUpdateSpeed>)
        ensures
            match r {
                Some(v) => value >= 1 && v.value == value,
                None => value == 0,
            },
    {
        if value >= 1 {
            Some(KesUpdateSpeed { value })
        } else {
            None
        }
    }
}

/// The fraction of slots expected to produce a block: a milli fraction in
/// (0, 1].
#[derive(Debug, Clone, Copy, PartialEq, Eq, Structural)]
pub struct ActiveSlotCoefficient {
    pub millis: u64,
}

impl ActiveSlotCoefficient {
    pub fn new(milli: Milli) -> (r: Option<ActiveSlotCoefficient>)
        ensures
            match r {
                Some(v) => 1 <= milli.value <= 1000 && v.millis == milli.value,
                None => !(1 <= milli.value <= 1000),
            },
    {
        if 1 <= milli.value && milli.value <= 1000 {
            Some(ActiveSlotCoefficient { millis: milli.value })
        } else {
            None
        }
    }
}

/// The account flavour of an initial wallet.
#[derive(Debug, Clone, Copy, PartialEq, Eq, Structural)]
pub enum WalletType {
    Account,
    Utxo,
}

/// An initial wallet of the genesis block: an alias, its starting funds,
/// and at most one delegation target.
///
/// A wallet delegates to at most one target: asking for a second target is
/// a scenario-build-time failure, deliberately never deferred to fragment
/// submission.
#[derive(Debug, Clone, PartialEq, Eq)]
pub struct WalletTemplate {
    pub alias: String,
    pub wallet_type: WalletType,
    pub value: u64,
    pub delegate: Option<String>,
}

impl WalletTemplate {
    /// An account wallet with the given starting funds and no delegation.
    pub fn new_account(alias: &str, value: u64) -> (r: WalletTemplate)
        ensures
            r.alias@ == alias@,
            r.wallet_type is Account,
            r.value == value,
            r.delegate is None,
    {
        WalletTemplate {
            alias: alias.to_owned(),
            wallet_type: WalletType::Account,
            value,
            delegate: None,
        }
    }

    /// The delegation target, if one was declared.
    pub fn delegate(&self) -> (r: &Option<String>)
        ensures
            r == &self.delegate,
    {
        &self.delegate
    }

    /// Declares the delegation target.
    ///
    /// Succeeds exactly when no target was declared before; a second
    /// `delegates to` clause fails here, at build time, naming the wallet.
    pub fn set_delegate(&mut self, target: &str) -> (r: Result<(), ScenarioError>)
        ensures
            match r {
                Ok(()) => {
                    &&& old(self).delegate is None
                    &&& final(self).delegate matches Some(t) && t@ == target@
                    &&& final(self).alias == old(self).alias
                    &&& final(self).wallet_type == old(self).wallet_type
                    &&& final(self).value == old(self).value
                },
                Err(e) => {
                    &&& old(self).delegate is Some
                    &&& *final(self) == *old(self)
                    &&& e matches ScenarioError::AssertionFailed(a) && a@ == old(self).alias@
                },
            },
    {
        match &self.delegate {
            Some(_) => Err(ScenarioError::AssertionFailed(self.alias.clone())),
            None => {
                self.delegate = Some(target.to_owned());
                Ok(())
            },
        }
    }
}

/// Some declared wallet carries the alias.
pub open spec fn has_wallet_alias(wallets: Seq<WalletTemplate>, alias: Seq<char>) -> bool {
    exists|i: int| 0 <= i < wallets.len() && wallets[i].alias@ == alias
}

/// The validated genesis settings consumed when each node's starting
/// configuration is materialised.
#[derive(Debug, Clone, PartialEq, Eq)]
pub struct Blockchain {
    pub consensus: ConsensusVersion,
    pub slots_per_epoch: NumberOfSlotsPerEpoch,
    pub slot_duration: SlotDuration,
    pub kes_update_speed: KesUpdateSpeed,
    pub active_slot_coefficient: ActiveSlotCoefficient,
    pub leaders: Vec<String>,
    pub wallets: Vec<WalletTemplate>,
}

impl Blockchain {
    pub fn new(
        consensus: ConsensusVersion,
        slots_per_epoch: NumberOfSlotsPerEpoch,
        slot_duration: SlotDuration,
        kes_update_speed: KesUpdateSpeed,
        active_slot_coefficient: ActiveSlotCoefficient,
    ) -> (r: Blockchain)
        ensures
            r.consensus == consensus,
            r.slots_per_epoch == slots_per_epoch,
            r.slot_duration == slot_duration,
            r.kes_update_speed == kes_update_speed,
            r.active_slot_coefficient == active_slot_coefficient,
            r.leaders@.len() == 0,
            r.wallets@.len() == 0,
    {
        Blockchain {
            consensus,
            slots_per_epoch,
            slot_duration,
            kes_update_speed,
            active_slot_coefficient,
            leaders: Vec::new(),
            wallets: Vec::new(),
        }
    }

    /// Appends one leader alias to the ordered leader set.
    pub fn add_leader(&mut self, alias: &str)
        ensures
            final(self).leaders@.len() == old(self).leaders@.len() + 1,
            forall|k: int|
                0 <= k < old(self).leaders@.len() ==> final(self).leaders@[k] == old(
                    self,
                ).leaders@[k],
            final(self).leaders@.last()@ == alias@,
            final(self).wallets == old(self).wallets,
            final(self).consensus == old(self).consensus,
            final(self).slots_per_epoch == old(self).slots_per_epoch,
            final(self).slot_duration == old(self).slot_duration,
            final(self).kes_update_speed == old(self).kes_update_speed,
            final(self).active_slot_coefficient == old(self).active_slot_coefficient,
    {
        self.leaders.push(alias.to_owned());
    }

    /// Adds one initial wallet; its alias must be new.
    pub fn add_wallet(&mut self, wallet: WalletTemplate) -> (r: Result<(), ScenarioError>)
        ensures
            match r {
                Ok(()) => {
                    &&& !has_wallet_alias(old(self).wallets@, wallet.alias@)
                    &&& final(self).wallets@ == old(self).wallets@.push(wallet)
                    &&& final(self).leaders == old(self).leaders
                    &&& final(self).consensus == old(self).consensus
                    &&& final(self).slots_per_epoch == old(self).slots_per_epoch
                    &&& final(self).slot_duration == old(self).slot_duration
                    &&& final(self).kes_update_speed == old(self).kes_update_speed
                    &&& final(self).active_slot_coefficient == old(self).active_slot_coefficient
                },
                Err(e) => {
                    &&& has_wallet_alias(old(self).wallets@, wallet.alias@)
                    &&& *final(self) == *old(self)
                    &&& e matches ScenarioError::AssertionFailed(a) && a@ == wallet.alias@
                },
            },
    {
        let n = self.wallets.len();
        let mut i: usize = 0;
        while i < n
            invariant
                0 <= i <= n,
                n == self.wallets@.len(),
                forall|k: int| 0 <= k < i ==> self.wallets@[k].alias@ != wallet.alias@,
            decreases n - i,
        {
            if self.wallets[i].alias == wallet.alias {
                return Err(ScenarioError::AssertionFailed(wallet.alias.clone()));
            }
            i = i + 1;
        }
        self.wallets.push(wallet);
        Ok(())
    }

    /// Whether the alias names a declared wallet.
    pub fn has_wallet(&self, alias: &String) -> (r: bool)
        ensures
            r == has_wallet_alias(self.wallets@, alias@),
    {
        let n = self.wallets.len();
        let mut i: usize = 0;
        while i < n
            invariant
                0 <= i <= n,
                n == self.wallets@.len(),
                forall|k: int| 0 <= k < i ==> self.wallets@[k].alias@ != alias@,
            decreases n - i,
        {
            if self.wallets[i].alias == *alias {
                return true;
            }
            i = i + 1;
        }
        false
    }
}

} // verus!
