//! Actions handled in one step, checked and executed together, paying their fees as they go.
use vstd::prelude::*;

use crate::actions::{FeeAssetChange, IbcRelayerChange, InitBridgeAccount, RollupDataSubmission, Transfer};
use crate::address::{ensure_base_prefix, spec_ensure_base_prefix};
use crate::checked_actions::fee_asset_change::{spec_fee_asset_change_execute, CheckedFeeAssetChange};
use crate::checked_actions::ibc_relayer_change::{
    spec_ibc_relayer_change_checks,
    spec_ibc_relayer_change_execute,
    CheckedIbcRelayerChange,
};
use crate::checked_actions::init_bridge_account::{bytes_or_signer, spec_ensure_opt_base_prefix};
use crate::error::Error;
use crate::fees::{calculate_fee, spec_fee};
use crate::map::KeyEq;
use crate::primitive::{denom_id, AddressBytes};
use crate::state::{FeeKind, SequencerState, StateView};

verus! {

/// The state with `amount` taken from an account's balance; fails if the balance is smaller.
pub open spec fn spec_decrease(v: StateView, account: Seq<u8>, asset: Seq<u8>, amount: u128) -> Result<StateView, Error> {
    if v.balance(account, asset) < amount {
        Err(Error::InsufficientFunds)
    } else {
        Ok(v.with_balance(account, asset, (v.balance(account, asset) - amount) as u128))
    }
}

/// The state with `amount` added to an account's balance; fails on overflow.
pub open spec fn spec_increase(v: StateView, account: Seq<u8>, asset: Seq<u8>, amount: u128) -> Result<StateView, Error> {
    if v.balance(account, asset) + amount > u128::MAX {
        Err(Error::BalanceOverflow)
    } else {
        Ok(v.with_balance(account, asset, (v.balance(account, asset) + amount) as u128))
    }
}

/// The state with `amount` added to the block's fees in an asset; fails on overflow.
pub open spec fn spec_increase_block_fees(v: StateView, asset: Seq<u8>, amount: u128) -> Result<StateView, Error> {
    if v.block_fee(asset) + amount > u128::MAX {
        Err(Error::BalanceOverflow)
    } else {
        Ok(StateView { block_fees: v.block_fees.insert(asset, (v.block_fee(asset) + amount) as u128), ..v })
    }
}

/// The checks of a transfer handled in one step: the destination has the base prefix, the fee
/// asset is allowed, a transfer fee is set, and the sender holds the amount and the fee (their
/// sum, if they are in the same asset).
pub open spec fn spec_check_transfer(v: StateView, a: Transfer, from: Seq<u8>) -> Result<(), Error> {
    let fee_asset = denom_id(a.fee_asset);
    let asset = denom_id(a.asset);
    match spec_ensure_base_prefix(v, a.to.prefix@) {
        Err(e) => Err(e),
        Ok(_) => if !v.allowed_fee_assets.contains(fee_asset) {
            Err(Error::FeeAssetNotAllowed)
        } else if !v.fees.contains_key(FeeKind::Transfer) {
            Err(Error::FeesNotFound)
        } else {
            let fee = v.fees[FeeKind::Transfer].base;
            if fee_asset == asset {
                if a.amount + fee > u128::MAX {
                    Err(Error::BalanceOverflow)
                } else if v.balance(from, fee_asset) < a.amount + fee {
                    Err(Error::InsufficientFunds)
                } else {
                    Ok(())
                }
            } else if v.balance(from, fee_asset) < fee {
                Err(Error::InsufficientFunds)
            } else if v.balance(from, asset) < a.amount {
                Err(Error::InsufficientFunds)
            } else {
                Ok(())
            }
        },
    }
}

/// The state after executing a transfer in one step: the transfer fee goes into the block's
/// fees; the sender pays the amount and the fee, the destination receives the amount.
pub open spec fn spec_execute_transfer(v: StateView, a: Transfer, from: Seq<u8>) -> Result<StateView, Error> {
    let fee_asset = denom_id(a.fee_asset);
    let asset = denom_id(a.asset);
    let to = a.to.bytes@;
    if !v.fees.contains_key(FeeKind::Transfer) {
        Err(Error::FeesNotFound)
    } else {
        let fee = v.fees[FeeKind::Transfer].base;
        match spec_increase_block_fees(v, fee_asset, fee) {
            Err(e) => Err(e),
            Ok(v1) => if fee_asset == asset {
                match spec_decrease(v1, from, asset, (a.amount + fee) as u128) {
                    Err(e) => Err(e),
                    Ok(v2) => spec_increase(v2, to, asset, a.amount),
                }
            } else {
                match spec_decrease(v1, from, asset, a.amount) {
                    Err(e) => Err(e),
                    Ok(v2) => match spec_increase(v2, to, asset, a.amount) {
                        Err(e) => Err(e),
                        Ok(v3) => spec_decrease(v3, from, fee_asset, fee),
                    },
                }
            },
        }
    }
}

/// The checks of a transfer handled in one step.
pub fn check_transfer(action: &Transfer, from: &AddressBytes, state: &SequencerState) -> (r: Result<(), Error>)
    requires
        state.wf(),
    ensures
        r == spec_check_transfer(state@, *action, from@),
{
    ensure_base_prefix(state, &action.to)?;
    let fee_asset = action.fee_asset.to_ibc_prefixed();
    if !state.is_allowed_fee_asset(&fee_asset) {
        return Err(Error::FeeAssetNotAllowed);
    }
    let fee = match state.get_fees(FeeKind::Transfer) {
        Some(c) => c.base,
        None => return Err(Error::FeesNotFound),
    };
    let from_fee_balance = state.get_account_balance(from, &fee_asset);
    let asset = action.asset.to_ibc_prefixed();
    if fee_asset.key_eq(&asset) {
        let payment_amount = match action.amount.checked_add(fee) {
            Some(p) => p,
            None => return Err(Error::BalanceOverflow),
        };
        if from_fee_balance < payment_amount {
            return Err(Error::InsufficientFunds);
        }
    } else {
        if from_fee_balance < fee {
            return Err(Error::InsufficientFunds);
        }
        let from_transfer_balance = state.get_account_balance(from, &asset);
        if from_transfer_balance < action.amount {
            return Err(Error::InsufficientFunds);
        }
    }
    Ok(())
}

/// Executes a transfer in one step, paying its fee; on failure the state is unchanged.
pub fn execute_transfer(action: &Transfer, from: &AddressBytes, state: &mut SequencerState) -> (r: Result<(), Error>)
    requires
        old(state).wf(),
        old(state)@.fees.contains_key(FeeKind::Transfer) && denom_id(action.fee_asset) == denom_id(
            action.asset,
        ) ==> action.amount + old(state)@.fees[FeeKind::Transfer].base <= u128::MAX,
    ensures
        final(state).wf(),
        match spec_execute_transfer(old(state)@, *action, from@) {
            Ok(v) => r is Ok && final(state)@ == v,
            Err(e) => r == Err::<(), Error>(e) && final(state)@ == old(state)@,
        },
{
    let fee = match state.get_fees(FeeKind::Transfer) {
        Some(c) => c.base,
        None => return Err(Error::FeesNotFound),
    };
    let fee_asset = action.fee_asset.to_ibc_prefixed();
    let asset = action.asset.to_ibc_prefixed();
    let mut work = state.dup();
    work.increase_block_fees(fee_asset, fee)?;
    if fee_asset.key_eq(&asset) {
        let payment_amount = action.amount + fee;
        work.decrease_balance(*from, asset, payment_amount)?;
        work.increase_balance(action.to.bytes, asset, action.amount)?;
    } else {
        work.decrease_balance(*from, asset, action.amount)?;
        work.increase_balance(action.to.bytes, asset, action.amount)?;
        work.decrease_balance(*from, fee_asset, fee)?;
    }
    *state = work;
    Ok(())
}

/// The state after a transfer handled in one step: the sender is not a bridge account, the
/// transfer passes its checks and executes.
pub open spec fn spec_transfer_check_and_execute(v: StateView, a: Transfer, from: Seq<u8>) -> Result<StateView, Error> {
    if v.is_bridge_account(from) {
        Err(Error::IsBridgeAccount)
    } else {
        match spec_check_transfer(v, a, from) {
            Err(e) => Err(e),
            Ok(_) => spec_execute_transfer(v, a, from),
        }
    }
}

impl Transfer {
    /// Checks and executes the transfer from `from`; on failure the state is unchanged.
    pub fn check_and_execute(&self, from: &AddressBytes, state: &mut SequencerState) -> (r: Result<(), Error>)
        requires
            old(state).wf(),
        ensures
            final(state).wf(),
            match spec_transfer_check_and_execute(old(state)@, *self, from@) {
                Ok(v) => r is Ok && final(state)@ == v,
                Err(e) => r == Err::<(), Error>(e) && final(state)@ == old(state)@,
            },
    {
        if state.is_a_bridge_account(from) {
            return Err(Error::IsBridgeAccount);
        }
        check_transfer(self, from, state)?;
        execute_transfer(self, from, state)
    }
}

/// The base fee of a rollup data submission.
pub fn get_sequence_action_base_fee(state: &SequencerState) -> (r: Result<u128, Error>)
    requires
        state.wf(),
    ensures
        match r {
            Ok(f) => state@.fees.contains_key(FeeKind::RollupDataSubmission) && f == state@.fees[FeeKind::RollupDataSubmission].base,
            Err(e) => !state@.fees.contains_key(FeeKind::RollupDataSubmission) && e == Error::FeesNotFound,
        },
{
    match state.get_fees(FeeKind::RollupDataSubmission) {
        Some(c) => Ok(c.base),
        None => Err(Error::FeesNotFound),
    }
}

/// The fee per byte of data of a rollup data submission.
pub fn get_sequence_action_byte_cost_multiplier(state: &SequencerState) -> (r: Result<u128, Error>)
    requires
        state.wf(),
    ensures
        match r {
            Ok(f) => state@.fees.contains_key(FeeKind::RollupDataSubmission) && f == state@.fees[FeeKind::RollupDataSubmission].multiplier,
            Err(e) => !state@.fees.contains_key(FeeKind::RollupDataSubmission) && e == Error::FeesNotFound,
        },
{
    match state.get_fees(FeeKind::RollupDataSubmission) {
        Some(c) => Ok(c.multiplier),
        None => Err(Error::FeesNotFound),
    }
}

/// The fee of a rollup data submission of `len` bytes, by the stored fee components.
pub open spec fn spec_fee_from_state(v: StateView, len: nat) -> Result<u128, Error> {
    if !v.fees.contains_key(FeeKind::RollupDataSubmission) {
        Err(Error::FeesNotFound)
    } else {
        let c = v.fees[FeeKind::RollupDataSubmission];
        let fee = spec_fee(len as int, c.multiplier as int, c.base as int);
        if fee > u128::MAX {
            Err(Error::FeeOverflow)
        } else {
            Ok(fee as u128)
        }
    }
}

/// Calculates the fee of a rollup data submission of `data` from the stored fee components.
pub fn calculate_fee_from_state(data: &[u8], state: &SequencerState) -> (r: Result<u128, Error>)
    requires
        state.wf(),
    ensures
        r == spec_fee_from_state(state@, data@.len()),
{
    let base_fee = get_sequence_action_base_fee(state)?;
    let fee_per_byte = get_sequence_action_byte_cost_multiplier(state)?;
    match calculate_fee(data, fee_per_byte, base_fee) {
        Some(f) => Ok(f),
        None => Err(Error::FeeOverflow),
    }
}

/// The state after a rollup data submission handled in one step: the fee asset is allowed, the
/// sender holds the fee, which moves into the block's fees.
pub open spec fn spec_sequence_check_and_execute(v: StateView, a: RollupDataSubmission, from: Seq<u8>) -> Result<StateView, Error> {
    let fee_asset = denom_id(a.fee_asset);
    if !v.allowed_fee_assets.contains(fee_asset) {
        Err(Error::FeeAssetNotAllowed)
    } else {
        match spec_fee_from_state(v, a.data@.len()) {
            Err(e) => Err(e),
            Ok(fee) => if v.balance(from, fee_asset) < fee {
                Err(Error::InsufficientFunds)
            } else {
                match spec_increase_block_fees(v, fee_asset, fee) {
                    Err(e) => Err(e),
                    Ok(v1) => spec_decrease(v1, from, fee_asset, fee),
                }
            },
        }
    }
}

impl RollupDataSubmission {
    /// The data must not be empty.
    pub fn check_stateless(&self) -> (r: Result<(), Error>)
        ensures
            r == (if self.data@.len() == 0 {
                Err(Error::EmptyData)
            } else {
                Ok::<(), Error>(())
            }),
    {
        if self.data.len() == 0 {
            Err(Error::EmptyData)
        } else {
            Ok(())
        }
    }

    /// Checks the submission from `from` and charges its fee; on failure the state is unchanged.
    pub fn check_and_execute(&self, from: &AddressBytes, state: &mut SequencerState) -> (r: Result<(), Error>)
        requires
            old(state).wf(),
        ensures
            final(state).wf(),
            match spec_sequence_check_and_execute(old(state)@, *self, from@) {
                Ok(v) => r is Ok && final(state)@ == v,
                Err(e) => r == Err::<(), Error>(e) && final(state)@ == old(state)@,
            },
    {
        let fee_asset = self.fee_asset.to_ibc_prefixed();
        if !state.is_allowed_fee_asset(&fee_asset) {
            return Err(Error::FeeAssetNotAllowed);
        }
        let curr_balance = state.get_account_balance(from, &fee_asset);
        let fee = calculate_fee_from_state(self.data.as_slice(), state)?;
        if curr_balance < fee {
            return Err(Error::InsufficientFunds);
        }
        let mut work = state.dup();
        work.increase_block_fees(fee_asset, fee)?;
        work.decrease_balance(*from, fee_asset, fee)?;
        *state = work;
        Ok(())
    }
}

/// The state after initializing a bridge account in one step: the withdrawer and sudo
/// addresses, where given, have the base prefix; the fee asset is allowed; an initialization
/// fee is set; the sender is not already a bridge account and holds the fee; the account
/// becomes a bridge account and pays the fee.
pub open spec fn spec_init_bridge_account_check_and_execute(v: StateView, a: InitBridgeAccount, from: Seq<u8>) -> Result<StateView, Error> {
    let fee_asset = denom_id(a.fee_asset);
    match spec_ensure_opt_base_prefix(v, a.withdrawer_address) {
        Err(e) => Err(e),
        Ok(_) => match spec_ensure_opt_base_prefix(v, a.sudo_address) {
            Err(e) => Err(e),
            Ok(_) => if !v.allowed_fee_assets.contains(fee_asset) {
                Err(Error::FeeAssetNotAllowed)
            } else if !v.fees.contains_key(FeeKind::InitBridgeAccount) {
                Err(Error::FeesNotFound)
            } else if v.is_bridge_account(from) {
                Err(Error::BridgeAccountAlreadyExists)
            } else {
                let fee = v.fees[FeeKind::InitBridgeAccount].base;
                if v.balance(from, fee_asset) < fee {
                    Err(Error::InsufficientFunds)
                } else {
                    let v1 = StateView {
                        bridge_rollup_ids: v.bridge_rollup_ids.insert(from, a.rollup_id@),
                        bridge_assets: v.bridge_assets.insert(from, denom_id(a.asset)),
                        bridge_sudo_addresses: v.bridge_sudo_addresses.insert(
                            from,
                            bytes_or_signer(a.sudo_address, from),
                        ),
                        bridge_withdrawers: v.bridge_withdrawers.insert(
                            from,
                            bytes_or_signer(a.withdrawer_address, from),
                        ),
                        ..v
                    };
                    spec_decrease(v1, from, fee_asset, fee)
                }
            },
        },
    }
}

impl InitBridgeAccount {
    /// Checks and executes the initialization for `from`; on failure the state is unchanged.
    pub fn check_and_execute(&self, from: &AddressBytes, state: &mut SequencerState) -> (r: Result<(), Error>)
        requires
            old(state).wf(),
        ensures
            final(state).wf(),
            match spec_init_bridge_account_check_and_execute(old(state)@, *self, from@) {
                Ok(v) => r is Ok && final(state)@ == v,
                Err(e) => r == Err::<(), Error>(e) && final(state)@ == old(state)@,
            },
    {
        if let Some(withdrawer_address) = &self.withdrawer_address {
            ensure_base_prefix(state, withdrawer_address)?;
        }
        if let Some(sudo_address) = &self.sudo_address {
            ensure_base_prefix(state, sudo_address)?;
        }
        let fee_asset = self.fee_asset.to_ibc_prefixed();
        if !state.is_allowed_fee_asset(&fee_asset) {
            return Err(Error::FeeAssetNotAllowed);
        }
        let fee = match state.get_fees(FeeKind::InitBridgeAccount) {
            Some(c) => c.base,
            None => return Err(Error::FeesNotFound),
        };
        if state.is_a_bridge_account(from) {
            return Err(Error::BridgeAccountAlreadyExists);
        }
        let balance = state.get_account_balance(from, &fee_asset);
        if balance < fee {
            return Err(Error::InsufficientFunds);
        }
        state.put_bridge_account_rollup_id(*from, self.rollup_id);
        state.put_bridge_account_ibc_asset(*from, self.asset.to_ibc_prefixed());
        let sudo = match &self.sudo_address {
            Some(a) => a.bytes,
            None => *from,
        };
        state.put_bridge_account_sudo_address(*from, sudo);
        let withdrawer = match &self.withdrawer_address {
            Some(a) => a.bytes,
            None => *from,
        };
        state.put_bridge_account_withdrawer_address(*from, withdrawer);
        let paid = state.decrease_balance(*from, fee_asset, fee);
        assert(paid is Ok);
        Ok(())
    }
}

impl FeeAssetChange {
    /// Checks that `from` is the sudo address and changes the allowed fee assets; on failure
    /// the state is unchanged.
    pub fn check_and_execute(self, from: &AddressBytes, state: &mut SequencerState) -> (r: Result<(), Error>)
        requires
            old(state).wf(),
        ensures
            final(state).wf(),
            match spec_fee_asset_change_execute(old(state)@, self, from@) {
                Ok(v) => r is Ok && final(state)@ == v,
                Err(e) => r == Err::<(), Error>(e) && final(state)@ == old(state)@,
            },
    {
        let checked = CheckedFeeAssetChange::new(self, *from, state)?;
        checked.execute(state)
    }
}

impl IbcRelayerChange {
    /// Checks that the address has the base prefix and that `from` is the IBC sudo address, and
    /// registers or unregisters the relayer; on failure the state is unchanged.
    pub fn check_and_execute(self, from: &AddressBytes, state: &mut SequencerState) -> (r: Result<(), Error>)
        requires
            old(state).wf(),
        ensures
            final(state).wf(),
            match spec_ibc_relayer_change_checks(old(state)@, self, from@) {
                Err(e) => r == Err::<(), Error>(e) && final(state)@ == old(state)@,
                Ok(_) => match spec_ibc_relayer_change_execute(old(state)@, self, from@) {
                    Ok(v) => r is Ok && final(state)@ == v,
                    Err(e) => r == Err::<(), Error>(e) && final(state)@ == old(state)@,
                },
            },
    {
        let checked = CheckedIbcRelayerChange::new(self, *from, state)?;
        checked.execute(state)
    }
}

} // verus!
