//! A checked change of the IBC sudo address.
use vstd::prelude::*;

use crate::actions::IbcSudoChange;
use crate::address::{ensure_base_prefix, spec_ensure_base_prefix};
use crate::authority::{ensure_sudo, spec_ensure_sudo};
use crate::error::Error;
use crate::primitive::AddressBytes;
use crate::state::{SequencerState, StateView};

verus! {

/// The checks of constructing the action: the new address has the base prefix and the signer
/// is the sudo address.
pub open spec fn spec_ibc_sudo_change_checks(v: StateView, a: IbcSudoChange, signer: Seq<u8>) -> Result<(), Error> {
    match spec_ensure_base_prefix(v, a.new_address.prefix@) {
        Err(e) => Err(e),
        Ok(_) => spec_ensure_sudo(v, signer),
    }
}

/// The state after executing the action: the IBC sudo address is replaced.
pub open spec fn spec_ibc_sudo_change_execute(v: StateView, a: IbcSudoChange, signer: Seq<u8>) -> Result<StateView, Error> {
    match spec_ensure_sudo(v, signer) {
        Err(e) => Err(e),
        Ok(_) => Ok(StateView { ibc_sudo_address: Some(a.new_address.bytes@), ..v }),
    }
}

/// A change of the IBC sudo address that passed its checks.
pub struct CheckedIbcSudoChange {
    action: IbcSudoChange,
    tx_signer: AddressBytes,
}

impl CheckedIbcSudoChange {
    pub closed spec fn action(&self) -> IbcSudoChange {
        self.action
    }

    pub closed spec fn tx_signer(&self) -> AddressBytes {
        self.tx_signer
    }

    /// Checks the action against the state.
    pub fn new(action: IbcSudoChange, tx_signer: AddressBytes, state: &SequencerState) -> (r: Result<Self, Error>)
        ensures
            match r {
                Ok(c) => spec_ibc_sudo_change_checks(state@, action, tx_signer@) is Ok
                    && c.action() == action && c.tx_signer() == tx_signer,
                Err(e) => spec_ibc_sudo_change_checks(state@, action, tx_signer@) == Err::<(), Error>(e),
            },
    {
        ensure_base_prefix(state, &action.new_address)?;
        let checked = CheckedIbcSudoChange { action, tx_signer };
        checked.run_mutable_checks(state)?;
        Ok(checked)
    }

    /// The signer is the sudo address.
    pub fn run_mutable_checks(&self, state: &SequencerState) -> (r: Result<(), Error>)
        ensures
            r == spec_ensure_sudo(state@, self.tx_signer()@),
    {
        ensure_sudo(state, &self.tx_signer)
    }

    /// Executes the action; on failure the state is unchanged.
    pub fn execute(&self, state: &mut SequencerState) -> (r: Result<(), Error>)
        ensures
            final(state).wf() == old(state).wf(),
            match spec_ibc_sudo_change_execute(old(state)@, self.action(), self.tx_signer()@) {
                Ok(v) => r is Ok && final(state)@ == v,
                Err(e) => r == Err::<(), Error>(e) && final(state)@ == old(state)@,
            },
    {
        self.run_mutable_checks(state)?;
        state.put_ibc_sudo_address(self.action.new_address.bytes);
        Ok(())
    }
}

} // verus!
