//! A checked change of the assets allowed to pay fees.
use vstd::prelude::*;

use crate::actions::FeeAssetChange;
use crate::authority::{ensure_sudo, spec_ensure_sudo};
use crate::error::Error;
use crate::primitive::{denom_id, AddressBytes};
use crate::state::{SequencerState, StateView};

verus! {

/// The state after executing the action: the asset is allowed, or disallowed unless it is the
/// last allowed one.
pub open spec fn spec_fee_asset_change_execute(v: StateView, a: FeeAssetChange, signer: Seq<u8>) -> Result<StateView, Error> {
    match spec_ensure_sudo(v, signer) {
        Err(e) => Err(e),
        Ok(_) => match a {
            FeeAssetChange::Addition(d) => Ok(
                StateView { allowed_fee_assets: v.allowed_fee_assets.insert(denom_id(d)), ..v },
            ),
            FeeAssetChange::Removal(d) => if v.allowed_fee_assets.remove(denom_id(d))
                == Set::<Seq<u8>>::empty() {
                Err(Error::LastFeeAsset)
            } else {
                Ok(StateView { allowed_fee_assets: v.allowed_fee_assets.remove(denom_id(d)), ..v })
            },
        },
    }
}

/// A change of the fee assets that passed its checks.
pub struct CheckedFeeAssetChange {
    action: FeeAssetChange,
    tx_signer: AddressBytes,
}

impl CheckedFeeAssetChange {
    pub closed spec fn action(&self) -> FeeAssetChange {
        self.action
    }

    pub closed spec fn tx_signer(&self) -> AddressBytes {
        self.tx_signer
    }

    /// Checks the action against the state: the signer is the sudo address.
    pub fn new(action: FeeAssetChange, tx_signer: AddressBytes, state: &SequencerState) -> (r: Result<Self, Error>)
        ensures
            match r {
                Ok(c) => spec_ensure_sudo(state@, tx_signer@) is Ok && c.action() == action
                    && c.tx_signer() == tx_signer,
                Err(e) => spec_ensure_sudo(state@, tx_signer@) == Err::<(), Error>(e),
            },
    {
        let checked = CheckedFeeAssetChange { action, tx_signer };
        checked.run_mutable_checks(state)?;
        Ok(checked)
    }

    /// The signer is the sudo address.
    pub fn run_mutable_checks(&self, state: &SequencerState) -> (r: Result<(), Error>)
        ensures
            r == spec_ensure_sudo(state@, self.tx_signer()@),
    {
        ensure_sudo(state, &self.tx_signer)
    }

    /// Executes the action; on failure the state is unchanged.
    pub fn execute(&self, state: &mut SequencerState) -> (r: Result<(), Error>)
        requires
            old(state).wf(),
        ensures
            final(state).wf(),
            match spec_fee_asset_change_execute(old(state)@, self.action(), self.tx_signer()@) {
                Ok(v) => r is Ok && final(state)@ == v,
                Err(e) => r == Err::<(), Error>(e) && final(state)@ == old(state)@,
            },
    {
        self.run_mutable_checks(state)?;
        match &self.action {
            FeeAssetChange::Addition(asset) => {
                state.put_allowed_fee_asset(asset.to_ibc_prefixed());
                Ok(())
            },
            FeeAssetChange::Removal(asset) => {
                let id = asset.to_ibc_prefixed();
                let had = state.is_allowed_fee_asset(&id);
                let ghost before = state@;
                state.delete_allowed_fee_asset(&id);
                if state.no_allowed_fee_assets() {
                    if had {
                        state.put_allowed_fee_asset(id);
                        assert(state@.allowed_fee_assets =~= before.allowed_fee_assets);
                    } else {
                        assert(state@.allowed_fee_assets =~= before.allowed_fee_assets);
                    }
                    assert(state@ == before);
                    Err(Error::LastFeeAsset)
                } else {
                    Ok(())
                }
            },
        }
    }
}

} // verus!
