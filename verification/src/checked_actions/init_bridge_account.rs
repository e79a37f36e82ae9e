//! A checked initialization of a bridge account.
use vstd::prelude::*;

use crate::actions::InitBridgeAccount;
use crate::address::{ensure_base_prefix, spec_ensure_base_prefix};
use crate::error::Error;
use crate::primitive::{denom_id, Address, AddressBytes, Denom};
use crate::state::{SequencerState, StateView};

verus! {

/// An optional address has the base prefix, if present.
pub open spec fn spec_ensure_opt_base_prefix(v: StateView, a: Option<Address>) -> Result<(), Error> {
    match a {
        Some(x) => spec_ensure_base_prefix(v, x.prefix@),
        None => Ok(()),
    }
}

/// The checks at every stage: the signer is not already a bridge account.
pub open spec fn spec_init_bridge_account_mutable_checks(v: StateView, signer: Seq<u8>) -> Result<(), Error> {
    if v.is_bridge_account(signer) {
        Err(Error::BridgeAccountAlreadyExists)
    } else {
        Ok(())
    }
}

/// The checks of constructing the action: the sudo and withdrawer addresses, where given, have
/// the base prefix, then the mutable checks.
pub open spec fn spec_init_bridge_account_checks(v: StateView, a: InitBridgeAccount, signer: Seq<u8>) -> Result<(), Error> {
    match spec_ensure_opt_base_prefix(v, a.sudo_address) {
        Err(e) => Err(e),
        Ok(_) => match spec_ensure_opt_base_prefix(v, a.withdrawer_address) {
            Err(e) => Err(e),
            Ok(_) => spec_init_bridge_account_mutable_checks(v, signer),
        },
    }
}

/// The bytes of an optional address, or the signer's.
pub open spec fn bytes_or_signer(a: Option<Address>, signer: Seq<u8>) -> Seq<u8> {
    match a {
        Some(x) => x.bytes@,
        None => signer,
    }
}

/// The state after executing the action: the signer's account becomes a bridge account for
/// the rollup and asset, with the given sudo and withdrawer addresses, defaulting to itself.
pub open spec fn spec_init_bridge_account_execute(v: StateView, a: InitBridgeAccount, signer: Seq<u8>) -> Result<StateView, Error> {
    match spec_init_bridge_account_mutable_checks(v, signer) {
        Err(e) => Err(e),
        Ok(_) => Ok(StateView {
            bridge_rollup_ids: v.bridge_rollup_ids.insert(signer, a.rollup_id@),
            bridge_assets: v.bridge_assets.insert(signer, denom_id(a.asset)),
            bridge_sudo_addresses: v.bridge_sudo_addresses.insert(
                signer,
                bytes_or_signer(a.sudo_address, signer),
            ),
            bridge_withdrawers: v.bridge_withdrawers.insert(
                signer,
                bytes_or_signer(a.withdrawer_address, signer),
            ),
            ..v
        }),
    }
}

/// An initialization of a bridge account that passed its checks.
pub struct CheckedInitBridgeAccount {
    action: InitBridgeAccount,
    tx_signer: AddressBytes,
}

impl CheckedInitBridgeAccount {
    pub closed spec fn action(&self) -> InitBridgeAccount {
        self.action
    }

    pub closed spec fn tx_signer(&self) -> AddressBytes {
        self.tx_signer
    }

    /// The asset that pays the fee.
    pub fn fee_asset(&self) -> (r: &Denom)
        ensures
            *r == self.action().fee_asset,
    {
        &self.action.fee_asset
    }

    /// Checks the action against the state.
    pub fn new(action: InitBridgeAccount, tx_signer: AddressBytes, state: &SequencerState) -> (r: Result<Self, Error>)
        requires
            state.wf(),
        ensures
            match r {
                Ok(c) => spec_init_bridge_account_checks(state@, action, tx_signer@) is Ok
                    && c.action() == action && c.tx_signer() == tx_signer,
                Err(e) => spec_init_bridge_account_checks(state@, action, tx_signer@)
                    == Err::<(), Error>(e),
            },
    {
        if let Some(sudo_address) = &action.sudo_address {
            ensure_base_prefix(state, sudo_address)?;
        }
        if let Some(withdrawer_address) = &action.withdrawer_address {
            ensure_base_prefix(state, withdrawer_address)?;
        }
        let checked = CheckedInitBridgeAccount { action, tx_signer };
        checked.run_mutable_checks(state)?;
        Ok(checked)
    }

    /// The signer is not already a bridge account.
    pub fn run_mutable_checks(&self, state: &SequencerState) -> (r: Result<(), Error>)
        requires
            state.wf(),
        ensures
            r == spec_init_bridge_account_mutable_checks(state@, self.tx_signer()@),
    {
        if state.is_a_bridge_account(&self.tx_signer) {
            Err(Error::BridgeAccountAlreadyExists)
        } else {
            Ok(())
        }
    }

    /// Executes the action; on failure the state is unchanged.
    pub fn execute(&self, state: &mut SequencerState) -> (r: Result<(), Error>)
        requires
            old(state).wf(),
        ensures
            final(state).wf(),
            match spec_init_bridge_account_execute(old(state)@, self.action(), self.tx_signer()@) {
                Ok(v) => r is Ok && final(state)@ == v,
                Err(e) => r == Err::<(), Error>(e) && final(state)@ == old(state)@,
            },
    {
        self.run_mutable_checks(state)?;
        state.put_bridge_account_rollup_id(self.tx_signer, self.action.rollup_id);
        state.put_bridge_account_ibc_asset(self.tx_signer, self.action.asset.to_ibc_prefixed());
        let sudo = match &self.action.sudo_address {
            Some(a) => a.bytes,
            None => self.tx_signer,
        };
        state.put_bridge_account_sudo_address(self.tx_signer, sudo);
        let withdrawer = match &self.action.withdrawer_address {
            Some(a) => a.bytes,
            None => self.tx_signer,
        };
        state.put_bridge_account_withdrawer_address(self.tx_signer, withdrawer);
        Ok(())
    }
}

} // verus!
