//! A checked IBC relay: an IBC message sent by a registered relayer.
use vstd::prelude::*;

use crate::actions::IbcRelay;
use crate::error::Error;
use crate::primitive::AddressBytes;
use crate::state::{SequencerState, StateView};

verus! {

/// The checks at every stage: the signer is a registered IBC relayer.
pub open spec fn spec_ibc_relay_mutable_checks(v: StateView, signer: Seq<u8>) -> Result<(), Error> {
    if v.ibc_relayers.contains(signer) {
        Ok(())
    } else {
        Err(Error::NotAuthorized)
    }
}

/// The checks of constructing the action, given whether the message passed the IBC
/// component's stateless checks.
pub open spec fn spec_ibc_relay_checks(v: StateView, stateless_check_passed: bool, signer: Seq<u8>) -> Result<(), Error> {
    if !stateless_check_passed {
        Err(Error::IbcStatelessCheckFailed)
    } else {
        spec_ibc_relay_mutable_checks(v, signer)
    }
}

/// An IBC relay that passed its checks.
pub struct CheckedIbcRelay {
    action: IbcRelay,
    tx_signer: AddressBytes,
}

impl CheckedIbcRelay {
    pub closed spec fn action(&self) -> IbcRelay {
        self.action
    }

    pub closed spec fn tx_signer(&self) -> AddressBytes {
        self.tx_signer
    }

    /// Checks the action against the state; `stateless_check_passed` is whether the IBC
    /// component accepted the message without looking at the state.
    pub fn new(action: IbcRelay, stateless_check_passed: bool, tx_signer: AddressBytes, state: &SequencerState) -> (r: Result<Self, Error>)
        requires
            state.wf(),
        ensures
            match r {
                Ok(c) => spec_ibc_relay_checks(state@, stateless_check_passed, tx_signer@) is Ok
                    && c.action() == action && c.tx_signer() == tx_signer,
                Err(e) => spec_ibc_relay_checks(state@, stateless_check_passed, tx_signer@)
                    == Err::<(), Error>(e),
            },
    {
        if !stateless_check_passed {
            return Err(Error::IbcStatelessCheckFailed);
        }
        let checked = CheckedIbcRelay { action, tx_signer };
        checked.run_mutable_checks(state)?;
        Ok(checked)
    }

    /// The signer is a registered IBC relayer.
    pub fn run_mutable_checks(&self, state: &SequencerState) -> (r: Result<(), Error>)
        requires
            state.wf(),
        ensures
            r == spec_ibc_relay_mutable_checks(state@, self.tx_signer()@),
    {
        if state.is_ibc_relayer(&self.tx_signer) {
            Ok(())
        } else {
            Err(Error::NotAuthorized)
        }
    }

    /// The message to hand to the IBC component.
    pub fn action_ref(&self) -> (r: &IbcRelay)
        ensures
            *r == self.action(),
    {
        &self.action
    }

    /// Checks the relay again before the IBC component executes the message; the state this
    /// library holds is unchanged.
    pub fn execute(&self, state: &mut SequencerState) -> (r: Result<(), Error>)
        requires
            old(state).wf(),
        ensures
            *final(state) == *old(state),
            r == spec_ibc_relay_mutable_checks(old(state)@, self.tx_signer()@),
    {
        self.run_mutable_checks(state)
    }
}

} // verus!
