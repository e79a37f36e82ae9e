//! A checked change of the sudo and withdrawer addresses of a bridge account.
use vstd::prelude::*;

use crate::actions::BridgeSudoChange;
use crate::address::{ensure_base_prefix, spec_ensure_base_prefix};
use crate::checked_actions::init_bridge_account::spec_ensure_opt_base_prefix;
use crate::error::Error;
use crate::map::KeyEq;
use crate::primitive::{AddressBytes, Denom};
use crate::state::{SequencerState, StateView};

verus! {

/// The checks at every stage: the signer is the bridge account's sudo address.
pub open spec fn spec_bridge_sudo_change_mutable_checks(v: StateView, a: BridgeSudoChange, signer: Seq<u8>) -> Result<(), Error> {
    if !v.bridge_sudo_addresses.contains_key(a.bridge_address.bytes@) {
        Err(Error::BridgeSudoAddressNotFound)
    } else if v.bridge_sudo_addresses[a.bridge_address.bytes@] != signer {
        Err(Error::NotAuthorized)
    } else {
        Ok(())
    }
}

/// The checks of constructing the action: the bridge address and the new addresses, where
/// given, have the base prefix, then the mutable checks.
pub open spec fn spec_bridge_sudo_change_checks(v: StateView, a: BridgeSudoChange, signer: Seq<u8>) -> Result<(), Error> {
    match spec_ensure_base_prefix(v, a.bridge_address.prefix@) {
        Err(e) => Err(e),
        Ok(_) => match spec_ensure_opt_base_prefix(v, a.new_sudo_address) {
            Err(e) => Err(e),
            Ok(_) => match spec_ensure_opt_base_prefix(v, a.new_withdrawer_address) {
                Err(e) => Err(e),
                Ok(_) => spec_bridge_sudo_change_mutable_checks(v, a, signer),
            },
        },
    }
}

/// The state after executing the action: the given addresses replace the bridge account's.
pub open spec fn spec_bridge_sudo_change_execute(v: StateView, a: BridgeSudoChange, signer: Seq<u8>) -> Result<StateView, Error> {
    match spec_bridge_sudo_change_mutable_checks(v, a, signer) {
        Err(e) => Err(e),
        Ok(_) => {
            let b = a.bridge_address.bytes@;
            let v1 = match a.new_sudo_address {
                Some(s) => StateView {
                    bridge_sudo_addresses: v.bridge_sudo_addresses.insert(b, s.bytes@),
                    ..v
                },
                None => v,
            };
            Ok(
                match a.new_withdrawer_address {
                    Some(w) => StateView {
                        bridge_withdrawers: v1.bridge_withdrawers.insert(b, w.bytes@),
                        ..v1
                    },
                    None => v1,
                },
            )
        },
    }
}

/// A bridge sudo change that passed its checks.
pub struct CheckedBridgeSudoChange {
    action: BridgeSudoChange,
    tx_signer: AddressBytes,
}

impl CheckedBridgeSudoChange {
    pub closed spec fn action(&self) -> BridgeSudoChange {
        self.action
    }

    pub closed spec fn tx_signer(&self) -> AddressBytes {
        self.tx_signer
    }

    /// The asset that pays the fee.
    pub fn fee_asset(&self) -> (r: &Denom)
        ensures
            *r == self.action().fee_asset,
    {
        &self.action.fee_asset
    }

    /// Checks the action against the state.
    pub fn new(action: BridgeSudoChange, tx_signer: AddressBytes, state: &SequencerState) -> (r: Result<Self, Error>)
        requires
            state.wf(),
        ensures
            match r {
                Ok(c) => spec_bridge_sudo_change_checks(state@, action, tx_signer@) is Ok
                    && c.action() == action && c.tx_signer() == tx_signer,
                Err(e) => spec_bridge_sudo_change_checks(state@, action, tx_signer@)
                    == Err::<(), Error>(e),
            },
    {
        ensure_base_prefix(state, &action.bridge_address)?;
        if let Some(a) = &action.new_sudo_address {
            ensure_base_prefix(state, a)?;
        }
        if let Some(a) = &action.new_withdrawer_address {
            ensure_base_prefix(state, a)?;
        }
        let checked = CheckedBridgeSudoChange { action, tx_signer };
        checked.run_mutable_checks(state)?;
        Ok(checked)
    }

    /// The signer is the bridge account's sudo address.
    pub fn run_mutable_checks(&self, state: &SequencerState) -> (r: Result<(), Error>)
        requires
            state.wf(),
        ensures
            r == spec_bridge_sudo_change_mutable_checks(state@, self.action(), self.tx_signer()@),
    {
        match state.get_bridge_account_sudo_address(&self.action.bridge_address.bytes) {
            None => Err(Error::BridgeSudoAddressNotFound),
            Some(sudo) => if sudo.key_eq(&self.tx_signer) {
                Ok(())
            } else {
                Err(Error::NotAuthorized)
            },
        }
    }

    /// Executes the action; on failure the state is unchanged.
    pub fn execute(&self, state: &mut SequencerState) -> (r: Result<(), Error>)
        requires
            old(state).wf(),
        ensures
            final(state).wf(),
            match spec_bridge_sudo_change_execute(old(state)@, self.action(), self.tx_signer()@) {
                Ok(v) => r is Ok && final(state)@ == v,
                Err(e) => r == Err::<(), Error>(e) && final(state)@ == old(state)@,
            },
    {
        self.run_mutable_checks(state)?;
        if let Some(sudo) = &self.action.new_sudo_address {
            state.put_bridge_account_sudo_address(self.action.bridge_address.bytes, sudo.bytes);
        }
        if let Some(w) = &self.action.new_withdrawer_address {
            state.put_bridge_account_withdrawer_address(self.action.bridge_address.bytes, w.bytes);
        }
        Ok(())
    }
}

} // verus!
