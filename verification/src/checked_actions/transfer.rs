//! A checked transfer.
use vstd::prelude::*;

use crate::accounts::{move_funds, spec_move_funds};
use crate::actions::Transfer;
use crate::address::{ensure_base_prefix, spec_ensure_base_prefix};
use crate::error::Error;
use crate::primitive::{denom_id, AddressBytes, Denom};
use crate::state::{SequencerState, StateView};

verus! {

/// The checks a transfer must pass at every stage: the signer is not a bridge account.
pub open spec fn spec_transfer_mutable_checks(v: StateView, signer: Seq<u8>) -> Result<(), Error> {
    if v.is_bridge_account(signer) {
        Err(Error::IsBridgeAccount)
    } else {
        Ok(())
    }
}

/// The checks of constructing a checked transfer: the destination has the base prefix, then
/// the mutable checks.
pub open spec fn spec_transfer_checks(v: StateView, a: Transfer, signer: Seq<u8>) -> Result<(), Error> {
    match spec_ensure_base_prefix(v, a.to.prefix@) {
        Err(e) => Err(e),
        Ok(_) => spec_transfer_mutable_checks(v, signer),
    }
}

/// The state after executing a transfer: the amount moves from the signer to the destination.
pub open spec fn spec_transfer_execute(v: StateView, a: Transfer, signer: Seq<u8>) -> Result<StateView, Error> {
    match spec_transfer_mutable_checks(v, signer) {
        Err(e) => Err(e),
        Ok(_) => spec_move_funds(v, signer, a.to.bytes@, denom_id(a.asset), a.amount),
    }
}

/// A transfer that passed its checks, with its signer.
pub struct CheckedTransfer {
    action: Transfer,
    tx_signer: AddressBytes,
}

impl CheckedTransfer {
    pub closed spec fn action(&self) -> Transfer {
        self.action
    }

    pub closed spec fn tx_signer(&self) -> AddressBytes {
        self.tx_signer
    }

    /// The action that was checked.
    pub fn action_ref(&self) -> (r: &Transfer)
        ensures
            *r == self.action(),
    {
        &self.action
    }

    /// The asset that pays the fee.
    pub fn fee_asset(&self) -> (r: &Denom)
        ensures
            *r == self.action().fee_asset,
    {
        &self.action.fee_asset
    }

    /// Checks a transfer against the state.
    pub fn new(action: Transfer, tx_signer: AddressBytes, state: &SequencerState) -> (r: Result<Self, Error>)
        requires
            state.wf(),
        ensures
            match r {
                Ok(c) => spec_transfer_checks(state@, action, tx_signer@) is Ok && c.action()
                    == action && c.tx_signer() == tx_signer,
                Err(e) => spec_transfer_checks(state@, action, tx_signer@) == Err::<(), Error>(e),
            },
    {
        ensure_base_prefix(state, &action.to)?;
        let checked = CheckedTransfer { action, tx_signer };
        checked.run_mutable_checks(state)?;
        Ok(checked)
    }

    /// Runs the checks that depend on mutable state.
    pub fn run_mutable_checks(&self, state: &SequencerState) -> (r: Result<(), Error>)
        requires
            state.wf(),
        ensures
            r == spec_transfer_mutable_checks(state@, self.tx_signer()@),
    {
        if state.is_a_bridge_account(&self.tx_signer) {
            Err(Error::IsBridgeAccount)
        } else {
            Ok(())
        }
    }

    /// Executes the transfer; on failure the state is unchanged.
    pub fn execute(&self, state: &mut SequencerState) -> (r: Result<(), Error>)
        requires
            old(state).wf(),
        ensures
            final(state).wf(),
            match spec_transfer_execute(old(state)@, self.action(), self.tx_signer()@) {
                Ok(v) => r is Ok && final(state)@ == v,
                Err(e) => r == Err::<(), Error>(e) && final(state)@ == old(state)@,
            },
    {
        self.run_mutable_checks(state)?;
        let asset = self.action.asset.to_ibc_prefixed();
        move_funds(state, &self.tx_signer, &self.action.to.bytes, &asset, self.action.amount)
    }
}

} // verus!
