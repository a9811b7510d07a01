//! Runtime wallets, fee arithmetic, certificates and the expected ledger
//! effects the harness asserts after convergence.
//!
//! Key generation, signing and fragment encoding belong to the node's own
//! libraries and stay outside this core; what the harness needs — and what
//! is verified here — is the bookkeeping: spending counters, balances,
//! exact fees, and the observable state each certificate must produce once
//! it is included in a block.

use vstd::prelude::*;

use crate::errors::ScenarioError;
use crate::fragment::Digest;

verus! {

/// The linear fee schedule of the network: a constant term, a coefficient
/// per transaction input or output, and a surcharge per certificate.
#[derive(Debug, Clone, Copy, PartialEq, Eq, Structural)]
pub struct LinearFee {
    pub constant: u64,
    pub coefficient: u64,
    pub certificate: u64,
}

/// The fee of a one-input, one-output transfer.
pub open spec fn transfer_fee_spec(fee: LinearFee) -> int {
    fee.constant + 2 * fee.coefficient
}

/// The fee of a one-input certificate fragment.
pub open spec fn certificate_fee_spec(fee: LinearFee) -> int {
    fee.constant + fee.coefficient + fee.certificate
}

impl LinearFee {
    pub fn new(constant: u64, coefficient: u64, certificate: u64) -> (r: LinearFee)
        ensures
            r.constant == constant && r.coefficient == coefficient && r.certificate
                == certificate,
    {
        LinearFee { constant, coefficient, certificate }
    }

    /// The fee a one-input, one-output transfer costs, when it fits.
    pub fn transfer_fee(&self) -> (r: Option<u64>)
        ensures
            match r {
                Some(v) => v == transfer_fee_spec(*self),
                None => transfer_fee_spec(*self) > u64::MAX,
            },
    {
        if self.coefficient > u64::MAX / 2 {
            return None;
        }
        let double = 2 * self.coefficient;
        if self.constant > u64::MAX - double {
            return None;
        }
        Some(self.constant + double)
    }

    /// The fee a one-input certificate fragment costs, when it fits.
    pub fn certificate_fee(&self) -> (r: Option<u64>)
        ensures
            match r {
                Some(v) => v == certificate_fee_spec(*self),
                None => certificate_fee_spec(*self) > u64::MAX,
            },
    {
        if self.coefficient > u64::MAX - self.constant {
            return None;
        }
        let base = self.constant + self.coefficient;
        if self.certificate > u64::MAX - base {
            return None;
        }
        Some(base + self.certificate)
    }
}

/// A non-transfer ledger action, identified by the pools it concerns.
#[derive(Debug, Clone, PartialEq, Eq)]
pub enum Certificate {
    /// Registers the pool under its id.
    PoolRegistration { pool_id: Digest },
    /// Delegates the issuing owner's stake to their own pool.
    OwnerDelegation { pool_id: Digest },
    /// Delegates the issuing account's whole stake to one pool.
    FullDelegation { pool_id: Digest },
    /// Splits the issuing account's stake over several pools by weight.
    SplitDelegation { parts: Vec<(Digest, u8)> },
    /// Retires the pool; nodes stop listing it.
    PoolRetirement { pool_id: Digest },
}

/// What a wallet hands the driver for submission: the payload, the
/// spending counter it was signed with, and the fee it pays.
#[derive(Debug, Clone, PartialEq, Eq)]
pub enum FragmentContent {
    Transfer { from: String, to: String, value: u64 },
    Cert { issuer: String, certificate: Certificate },
}

/// A signed, submittable unit of ledger change, bound to the genesis
/// hash of the network it is meant for.
#[derive(Debug, Clone, PartialEq, Eq)]
pub struct Fragment {
    pub content: FragmentContent,
    pub genesis_hash: Digest,
    pub counter: u64,
    pub fee: u64,
}

/// A stake pool derived from an owner wallet: its identity and the alias
/// of the owner whose certificates drive its lifecycle.
#[derive(Debug, Clone, PartialEq, Eq)]
pub struct StakePool {
    pub id: Digest,
    pub owner: String,
}

impl StakePool {
    pub fn new(owner: &str, id: Digest) -> (r: StakePool)
        ensures
            r.owner@ == owner@,
            r.id == id,
    {
        StakePool { id, owner: owner.to_owned() }
    }
}

/// A live account wallet: its expected balance and spending counters.
///
/// Issuing a fragment advances the pending counter and debits the
/// expected balance at once; `confirm_transaction` must be called after
/// the fragment converged before issuing the next state-dependent one.
#[derive(Debug, Clone, PartialEq, Eq)]
pub struct Wallet {
    pub alias: String,
    pub balance: u64,
    pub pending_counter: u64,
    pub confirmed_counter: u64,
}

impl Wallet {
    /// A fresh account wallet with the given starting funds.
    pub fn new_account(alias: &str, balance: u64) -> (r: Wallet)
        ensures
            r.alias@ == alias@,
            r.balance == balance,
            r.pending_counter == 0,
            r.confirmed_counter == 0,
    {
        Wallet { alias: alias.to_owned(), balance, pending_counter: 0, confirmed_counter: 0 }
    }

    /// Marks every issued fragment as confirmed by the ledger.
    pub fn confirm_transaction(&mut self)
        ensures
            final(self).confirmed_counter == old(self).pending_counter,
            final(self).pending_counter == old(self).pending_counter,
            final(self).balance == old(self).balance,
            final(self).alias == old(self).alias,
    {
        self.confirmed_counter = self.pending_counter;
    }

    /// Builds a transfer of `value` to the named account, debiting this
    /// wallet by value plus fee and advancing its spending counter.
    ///
    /// Succeeds exactly when the fee fits and the balance covers value
    /// plus fee; otherwise the wallet is unchanged and the failure names
    /// this wallet.
    pub fn transaction_to(
        &mut self,
        genesis_hash: &Digest,
        fee: &LinearFee,
        to: &String,
        value: u64,
    ) -> (r: Result<Fragment, ScenarioError>)
        requires
            old(self).pending_counter < u64::MAX,
        ensures
            match r {
                Ok(f) => {
                    &&& transfer_fee_spec(*fee) <= u64::MAX
                    &&& old(self).balance >= value + transfer_fee_spec(*fee)
                    &&& final(self).balance == old(self).balance - value - transfer_fee_spec(
                        *fee,
                    )
                    &&& final(self).pending_counter == old(self).pending_counter + 1
                    &&& final(self).confirmed_counter == old(self).confirmed_counter
                    &&& final(self).alias == old(self).alias
                    &&& f.content matches FragmentContent::Transfer { from, to: t, value: v }
                        && from@ == old(self).alias@ && t@ == to@ && v == value
                    &&& f.genesis_hash == *genesis_hash
                    &&& f.counter == final(self).pending_counter
                    &&& f.fee == transfer_fee_spec(*fee)
                },
                Err(e) => {
                    &&& !(transfer_fee_spec(*fee) <= u64::MAX && old(self).balance >= value
                        + transfer_fee_spec(*fee))
                    &&& *final(self) == *old(self)
                    &&& e matches ScenarioError::NotEnoughFunds(a) && a@ == old(self).alias@
                },
            },
    {
        let fee_value = match fee.transfer_fee() {
            Some(v) => v,
            None => {
                return Err(ScenarioError::NotEnoughFunds(self.alias.clone()));
            },
        };
        if self.balance < value || self.balance - value < fee_value {
            return Err(ScenarioError::NotEnoughFunds(self.alias.clone()));
        }
        self.balance = self.balance - value - fee_value;
        self.pending_counter = self.pending_counter + 1;
        Ok(
            Fragment {
                content: FragmentContent::Transfer {
                    from: self.alias.clone(),
                    to: to.clone(),
                    value,
                },
                genesis_hash: *genesis_hash,
                counter: self.pending_counter,
                fee: fee_value,
            },
        )
    }

    /// Builds a certificate fragment, debiting this wallet by the
    /// certificate fee and advancing its spending counter.
    ///
    /// Succeeds exactly when the fee fits and the balance covers it.
    pub fn issue_certificate(
        &mut self,
        genesis_hash: &Digest,
        fee: &LinearFee,
        certificate: Certificate,
    ) -> (r: Result<Fragment, ScenarioError>)
        requires
            old(self).pending_counter < u64::MAX,
        ensures
            match r {
                Ok(f) => {
                    &&& certificate_fee_spec(*fee) <= u64::MAX
                    &&& old(self).balance >= certificate_fee_spec(*fee)
                    &&& final(self).balance == old(self).balance - certificate_fee_spec(*fee)
                    &&& final(self).pending_counter == old(self).pending_counter + 1
                    &&& final(self).confirmed_counter == old(self).confirmed_counter
                    &&& final(self).alias == old(self).alias
                    &&& f.content matches FragmentContent::Cert { issuer, certificate: c }
                        && issuer@ == old(self).alias@ && c == certificate
                    &&& f.genesis_hash == *genesis_hash
                    &&& f.counter == final(self).pending_counter
                    &&& f.fee == certificate_fee_spec(*fee)
                },
                Err(e) => {
                    &&& !(certificate_fee_spec(*fee) <= u64::MAX && old(self).balance
                        >= certificate_fee_spec(*fee))
                    &&& *final(self) == *old(self)
                    &&& e matches ScenarioError::NotEnoughFunds(a) && a@ == old(self).alias@
                },
            },
    {
        let fee_value = match fee.certificate_fee() {
            Some(v) => v,
            None => {
                return Err(ScenarioError::NotEnoughFunds(self.alias.clone()));
            },
        };
        if self.balance < fee_value {
            return Err(ScenarioError::NotEnoughFunds(self.alias.clone()));
        }
        self.balance = self.balance - fee_value;
        self.pending_counter = self.pending_counter + 1;
        Ok(
            Fragment {
                content: FragmentContent::Cert { issuer: self.alias.clone(), certificate },
                genesis_hash: *genesis_hash,
                counter: self.pending_counter,
                fee: fee_value,
            },
        )
    }

    /// A pool-registration certificate for the given pool.
    pub fn issue_pool_registration_cert(&mut self, genesis_hash: &Digest, fee: &LinearFee, pool: &StakePool) -> (r:
        Result<Fragment, ScenarioError>)
        requires
            old(self).pending_counter < u64::MAX,
        ensures
            r matches Ok(f) ==> f.content matches FragmentContent::Cert { issuer, certificate }
                && certificate == (Certificate::PoolRegistration { pool_id: pool.id }),
            certificate_effect(final(self), old(self), genesis_hash, fee, r),
    {
        self.issue_certificate(genesis_hash, fee, Certificate::PoolRegistration { pool_id: pool.id })
    }

    /// An owner-delegation certificate to the given pool.
    pub fn issue_owner_delegation_cert(&mut self, genesis_hash: &Digest, fee: &LinearFee, pool: &StakePool) -> (r:
        Result<Fragment, ScenarioError>)
        requires
            old(self).pending_counter < u64::MAX,
        ensures
            r matches Ok(f) ==> f.content matches FragmentContent::Cert { issuer, certificate }
                && certificate == (Certificate::OwnerDelegation { pool_id: pool.id }),
            certificate_effect(final(self), old(self), genesis_hash, fee, r),
    {
        self.issue_certificate(genesis_hash, fee, Certificate::OwnerDelegation { pool_id: pool.id })
    }

    /// A full-delegation certificate to the given pool.
    pub fn issue_full_delegation_cert(&mut self, genesis_hash: &Digest, fee: &LinearFee, pool: &StakePool) -> (r: Result<
        Fragment,
        ScenarioError,
    >)
        requires
            old(self).pending_counter < u64::MAX,
        ensures
            r matches Ok(f) ==> f.content matches FragmentContent::Cert { issuer, certificate }
                && certificate == (Certificate::FullDelegation { pool_id: pool.id }),
            certificate_effect(final(self), old(self), genesis_hash, fee, r),
    {
        self.issue_certificate(genesis_hash, fee, Certificate::FullDelegation { pool_id: pool.id })
    }

    /// A split-delegation certificate over the given pools and weights.
    pub fn issue_split_delegation_cert(&mut self, genesis_hash: &Digest, fee: &LinearFee, parts: Vec<(Digest, u8)>) -> (r:
        Result<Fragment, ScenarioError>)
        requires
            old(self).pending_counter < u64::MAX,
        ensures
            r matches Ok(f) ==> f.content matches FragmentContent::Cert { issuer, certificate }
                && certificate == (Certificate::SplitDelegation { parts }),
            certificate_effect(final(self), old(self), genesis_hash, fee, r),
    {
        self.issue_certificate(genesis_hash, fee, Certificate::SplitDelegation { parts })
    }

    /// A pool-retirement certificate for the given pool.
    pub fn issue_pool_retire_cert(&mut self, genesis_hash: &Digest, fee: &LinearFee, pool: &StakePool) -> (r: Result<
        Fragment,
        ScenarioError,
    >)
        requires
            old(self).pending_counter < u64::MAX,
        ensures
            r matches Ok(f) ==> f.content matches FragmentContent::Cert { issuer, certificate }
                && certificate == (Certificate::PoolRetirement { pool_id: pool.id }),
            certificate_effect(final(self), old(self), genesis_hash, fee, r),
    {
        self.issue_certificate(genesis_hash, fee, Certificate::PoolRetirement { pool_id: pool.id })
    }
}

/// The bookkeeping every certificate issuance shares: fee debited and
/// counter advanced on success, the wallet untouched on failure.
pub open spec fn certificate_effect(
    wallet: &Wallet,
    before: &Wallet,
    genesis_hash: &Digest,
    fee: &LinearFee,
    r: Result<Fragment, ScenarioError>,
) -> bool {
    match r {
        Ok(f) => {
            &&& certificate_fee_spec(*fee) <= u64::MAX
            &&& before.balance >= certificate_fee_spec(*fee)
            &&& wallet.balance == before.balance - certificate_fee_spec(*fee)
            &&& wallet.pending_counter == before.pending_counter + 1
            &&& wallet.confirmed_counter == before.confirmed_counter
            &&& wallet.alias == before.alias
            &&& f.genesis_hash == *genesis_hash
            &&& f.counter == wallet.pending_counter
            &&& f.fee == certificate_fee_spec(*fee)
            &&& f.content matches FragmentContent::Cert { issuer, certificate } && issuer@
                == before.alias@
        },
        Err(e) => {
            &&& !(certificate_fee_spec(*fee) <= u64::MAX && before.balance
                >= certificate_fee_spec(*fee))
            &&& *wallet == *before
            &&& e matches ScenarioError::NotEnoughFunds(a) && a@ == before.alias@
        },
    }
}

/// The balances a converged transfer must leave behind: the receiver
/// gains exactly the value, the sender loses exactly the value plus fee.
pub fn expected_balances_after_transfer(sender: u64, receiver: u64, value: u64, fee: u64) -> (r:
    Option<(u64, u64)>)
    ensures
        match r {
            Some(b) => {
                &&& sender >= value + fee
                &&& receiver + value <= u64::MAX
                &&& b.0 == sender - value - fee
                &&& b.1 == receiver + value
            },
            None => !(sender >= value + fee && receiver + value <= u64::MAX),
        },
{
    if sender < value {
        return None;
    }
    if sender - value < fee {
        return None;
    }
    if value > u64::MAX - receiver {
        return None;
    }
    Some((sender - value - fee, receiver + value))
}

} // verus!
