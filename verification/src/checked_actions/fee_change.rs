//! A checked change of the fees of one kind of action.
use vstd::prelude::*;

use crate::actions::FeeChange;
use crate::authority::{ensure_sudo, spec_ensure_sudo};
use crate::error::Error;
use crate::primitive::AddressBytes;
use crate::state::{SequencerState, StateView};

verus! {

/// The state after executing the action: the fee components of the kind are replaced.
pub open spec fn spec_fee_change_execute(v: StateView, a: FeeChange, signer: Seq<u8>) -> Result<StateView, Error> {
    match spec_ensure_sudo(v, signer) {
        Err(e) => Err(e),
        Ok(_) => Ok(StateView { fees: v.fees.insert(a.kind, a.fees), ..v }),
    }
}

/// A change of fees that passed its checks.
pub struct CheckedFeeChange {
    action: FeeChange,
    tx_signer: AddressBytes,
}

impl CheckedFeeChange {
    pub closed spec fn action(&self) -> FeeChange {
        self.action
    }

    pub closed spec fn tx_signer(&self) -> AddressBytes {
        self.tx_signer
    }

    /// Checks the action against the state: the signer is the sudo address.
    pub fn new(action: FeeChange, tx_signer: AddressBytes, state: &SequencerState) -> (r: Result<Self, Error>)
        ensures
            match r {
                Ok(c) => spec_ensure_sudo(state@, tx_signer@) is Ok && c.action() == action
                    && c.tx_signer() == tx_signer,
                Err(e) => spec_ensure_sudo(state@, tx_signer@) == Err::<(), Error>(e),
            },
    {
        let checked = CheckedFeeChange { action, tx_signer };
        checked.run_mutable_checks(state)?;
        Ok(checked)
    }

    /// The signer is the sudo address.
    pub fn run_mutable_checks(&self, state: &SequencerState) -> (r: Result<(), Error>)
        ensures
            r == spec_ensure_sudo(state@, self.tx_signer()@),
    {
        ensure_sudo(state, &self.tx_signer)
    }

    /// Executes the action; on failure the state is unchanged.
    pub fn execute(&self, state: &mut SequencerState) -> (r: Result<(), Error>)
        requires
            old(state).wf(),
        ensures
            final(state).wf(),
            match spec_fee_change_execute(old(state)@, self.action(), self.tx_signer()@) {
                Ok(v) => r is Ok && final(state)@ == v,
                Err(e) => r == Err::<(), Error>(e) && final(state)@ == old(state)@,
            },
    {
        self.run_mutable_checks(state)?;
        state.put_fees(self.action.kind, self.action.fees);
        Ok(())
    }
}

} // verus!
