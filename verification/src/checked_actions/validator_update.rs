//! A checked validator update.
use vstd::prelude::*;

use crate::actions::ValidatorUpdate;
use crate::authority::{ensure_sudo, spec_ensure_sudo};
use crate::error::Error;
use crate::primitive::AddressBytes;
use crate::state::{SequencerState, StateView};

verus! {

/// The checks at every stage: the signer is the sudo address, and a removal (power zero) must
/// name an existing validator that is not the only one.
pub open spec fn spec_validator_update_mutable_checks(v: StateView, a: ValidatorUpdate, signer: Seq<u8>) -> Result<(), Error> {
    match spec_ensure_sudo(v, signer) {
        Err(e) => Err(e),
        Ok(_) => if a.power == 0 {
            if !v.validator_set.contains_key(a.verification_key@) {
                Err(Error::ValidatorNotFound)
            } else if v.validator_set.dom().len() == 1 {
                Err(Error::LastValidator)
            } else {
                Ok(())
            }
        } else {
            Ok(())
        },
    }
}

/// The state after executing the update: it is recorded among the pending validator updates.
pub open spec fn spec_validator_update_execute(v: StateView, a: ValidatorUpdate, signer: Seq<u8>) -> Result<StateView, Error> {
    match spec_validator_update_mutable_checks(v, a, signer) {
        Err(e) => Err(e),
        Ok(_) => Ok(StateView {
            validator_updates: v.validator_updates.insert(a.verification_key@, a.power),
            ..v
        }),
    }
}

/// A validator update that passed its checks.
pub struct CheckedValidatorUpdate {
    action: ValidatorUpdate,
    tx_signer: AddressBytes,
}

impl CheckedValidatorUpdate {
    pub closed spec fn action(&self) -> ValidatorUpdate {
        self.action
    }

    pub closed spec fn tx_signer(&self) -> AddressBytes {
        self.tx_signer
    }

    /// Checks the update against the state.
    pub fn new(action: ValidatorUpdate, tx_signer: AddressBytes, state: &SequencerState) -> (r: Result<Self, Error>)
        requires
            state.wf(),
        ensures
            match r {
                Ok(c) => spec_validator_update_mutable_checks(state@, action, tx_signer@) is Ok
                    && c.action() == action && c.tx_signer() == tx_signer,
                Err(e) => spec_validator_update_mutable_checks(state@, action, tx_signer@)
                    == Err::<(), Error>(e),
            },
    {
        let checked = CheckedValidatorUpdate { action, tx_signer };
        checked.run_mutable_checks(state)?;
        Ok(checked)
    }

    /// Runs the checks that depend on mutable state.
    pub fn run_mutable_checks(&self, state: &SequencerState) -> (r: Result<(), Error>)
        requires
            state.wf(),
        ensures
            r == spec_validator_update_mutable_checks(state@, self.action(), self.tx_signer()@),
    {
        ensure_sudo(state, &self.tx_signer)?;
        if self.action.power == 0 {
            if state.validator_power(&self.action.verification_key).is_none() {
                return Err(Error::ValidatorNotFound);
            }
            if state.validator_count() == 1 {
                return Err(Error::LastValidator);
            }
        }
        Ok(())
    }

    /// Executes the update; on failure the state is unchanged.
    pub fn execute(&self, state: &mut SequencerState) -> (r: Result<(), Error>)
        requires
            old(state).wf(),
        ensures
            final(state).wf(),
            match spec_validator_update_execute(old(state)@, self.action(), self.tx_signer()@) {
                Ok(v) => r is Ok && final(state)@ == v,
                Err(e) => r == Err::<(), Error>(e) && final(state)@ == old(state)@,
            },
    {
        self.run_mutable_checks(state)?;
        state.push_validator_update(self.action.verification_key, self.action.power);
        Ok(())
    }
}

} // verus!
