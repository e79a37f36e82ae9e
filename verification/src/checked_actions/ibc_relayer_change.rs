//! A checked change of the set of IBC relayers.
use vstd::prelude::*;

use crate::actions::IbcRelayerChange;
use crate::address::{ensure_base_prefix, spec_ensure_base_prefix};
use crate::authority::{ensure_ibc_sudo, spec_ensure_ibc_sudo};
use crate::error::Error;
use crate::primitive::{Address, AddressBytes};
use crate::state::{SequencerState, StateView};

verus! {

/// The address an IBC relayer change is about.
pub open spec fn relayer_change_address(a: IbcRelayerChange) -> Address {
    match a {
        IbcRelayerChange::Addition(x) => x,
        IbcRelayerChange::Removal(x) => x,
    }
}

/// The checks of constructing the action: the address has the base prefix and the signer is
/// the IBC sudo address.
pub open spec fn spec_ibc_relayer_change_checks(v: StateView, a: IbcRelayerChange, signer: Seq<u8>) -> Result<(), Error> {
    match spec_ensure_base_prefix(v, relayer_change_address(a).prefix@) {
        Err(e) => Err(e),
        Ok(_) => spec_ensure_ibc_sudo(v, signer),
    }
}

/// The state after executing the action: the relayer is added or removed.
pub open spec fn spec_ibc_relayer_change_execute(v: StateView, a: IbcRelayerChange, signer: Seq<u8>) -> Result<StateView, Error> {
    match spec_ensure_ibc_sudo(v, signer) {
        Err(e) => Err(e),
        Ok(_) => match a {
            IbcRelayerChange::Addition(x) => Ok(
                StateView { ibc_relayers: v.ibc_relayers.insert(x.bytes@), ..v },
            ),
            IbcRelayerChange::Removal(x) => Ok(
                StateView { ibc_relayers: v.ibc_relayers.remove(x.bytes@), ..v },
            ),
        },
    }
}

/// A change of the IBC relayers that passed its checks.
pub struct CheckedIbcRelayerChange {
    action: IbcRelayerChange,
    tx_signer: AddressBytes,
}

impl CheckedIbcRelayerChange {
    pub closed spec fn action(&self) -> IbcRelayerChange {
        self.action
    }

    pub closed spec fn tx_signer(&self) -> AddressBytes {
        self.tx_signer
    }

    /// Checks the action against the state.
    pub fn new(action: IbcRelayerChange, tx_signer: AddressBytes, state: &SequencerState) -> (r: Result<Self, Error>)
        ensures
            match r {
                Ok(c) => spec_ibc_relayer_change_checks(state@, action, tx_signer@) is Ok
                    && c.action() == action && c.tx_signer() == tx_signer,
                Err(e) => spec_ibc_relayer_change_checks(state@, action, tx_signer@) == Err::<(), Error>(e),
            },
    {
        match &action {
            IbcRelayerChange::Addition(address) => ensure_base_prefix(state, address)?,
            IbcRelayerChange::Removal(address) => ensure_base_prefix(state, address)?,
        }
        let checked = CheckedIbcRelayerChange { action, tx_signer };
        checked.run_mutable_checks(state)?;
        Ok(checked)
    }

    /// The signer is the IBC sudo address.
    pub fn run_mutable_checks(&self, state: &SequencerState) -> (r: Result<(), Error>)
        ensures
            r == spec_ensure_ibc_sudo(state@, self.tx_signer()@),
    {
        ensure_ibc_sudo(state, &self.tx_signer)
    }

    /// Executes the action; on failure the state is unchanged.
    pub fn execute(&self, state: &mut SequencerState) -> (r: Result<(), Error>)
        requires
            old(state).wf(),
        ensures
            final(state).wf(),
            match spec_ibc_relayer_change_execute(old(state)@, self.action(), self.tx_signer()@) {
                Ok(v) => r is Ok && final(state)@ == v,
                Err(e) => r == Err::<(), Error>(e) && final(state)@ == old(state)@,
            },
    {
        self.run_mutable_checks(state)?;
        match &self.action {
            IbcRelayerChange::Addition(address) => {
                state.put_ibc_relayer_address(address.bytes);
            },
            IbcRelayerChange::Removal(address) => {
                state.delete_ibc_relayer_address(&address.bytes);
            },
        }
        Ok(())
    }
}

} // verus!
