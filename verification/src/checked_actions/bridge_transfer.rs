//! A checked bridge transfer: funds moved from one bridge account into another and deposited
//! into its rollup; an unlock from the source and a lock into the destination at once.
use vstd::prelude::*;

use crate::accounts::{move_funds, spec_move_funds};
use crate::actions::{BridgeLock, BridgeTransfer, BridgeUnlock};
use crate::checked_actions::bridge_lock::{
    spec_deposit,
    spec_ibc_asset,
    spec_lock_target_checks,
    CheckedBridgeLockImpl,
};
use crate::checked_actions::bridge_unlock::{
    spec_record_withdrawal_event,
    spec_unlock_address_checks,
    spec_unlock_mutable_checks,
    spec_unlock_stateless_checks,
    CheckedBridgeUnlockImpl,
};
use crate::error::Error;
use crate::primitive::{AddressBytes, Denom, IbcPrefixed, TransactionId};
use crate::state::{DepositView, SequencerState, StateView};

verus! {

/// The checks of constructing a bridge transfer: those of an unlock with an empty memo from the
/// source bridge account, then those of a lock of the source's asset into the destination.
pub open spec fn spec_bridge_transfer_checks(v: StateView, t: BridgeTransfer, signer: Seq<u8>) -> Result<(), Error> {
    match spec_unlock_stateless_checks(t.amount, Seq::empty(), t.rollup_withdrawal_event_id@, t.rollup_block_number) {
        Err(e) => Err(e),
        Ok(_) => match spec_unlock_address_checks(v, t.to, t.bridge_address) {
            Err(e) => Err(e),
            Ok(asset) => match spec_unlock_mutable_checks(
                v,
                false,
                t.to.bytes@,
                t.bridge_address.bytes@,
                t.rollup_withdrawal_event_id@,
                signer,
            ) {
                Err(e) => Err(e),
                Ok(_) => spec_lock_target_checks(v, t.to, asset, spec_ibc_asset(v, asset), false, signer),
            },
        },
    }
}

/// The deposit that a bridge transfer creates.
pub open spec fn spec_bridge_transfer_deposit(v: StateView, t: BridgeTransfer, tx_id: Seq<u8>, position: u64) -> DepositView {
    let asset = v.bridge_assets[t.bridge_address.bytes@];
    spec_deposit(
        v,
        t.to.bytes@,
        t.amount,
        spec_ibc_asset(v, asset)->Some_0,
        t.destination_chain_address@,
        tx_id,
        position,
    )
}

/// The state after a bridge transfer: the unlock checks pass again, the amount of the asset
/// moves from the source to the destination, the deposit and the withdrawal event are recorded.
pub open spec fn spec_bridge_transfer_execute(
    v: StateView,
    from: Seq<u8>,
    to: Seq<u8>,
    asset: Seq<u8>,
    amount: u128,
    event_id: Seq<char>,
    block: u64,
    signer: Seq<u8>,
    deposit: DepositView,
) -> Result<StateView, Error> {
    match spec_unlock_mutable_checks(v, false, to, from, event_id, signer) {
        Err(e) => Err(e),
        Ok(_) => match spec_move_funds(v, from, to, asset, amount) {
            Err(e) => Err(e),
            Ok(v1) => Ok(
                spec_record_withdrawal_event(
                    StateView { deposits: v1.deposits.push(deposit), ..v1 },
                    from,
                    event_id,
                    block,
                ),
            ),
        },
    }
}

/// A bridge transfer that passed its checks.
pub struct CheckedBridgeTransfer {
    checked_bridge_unlock: CheckedBridgeUnlockImpl<false>,
    checked_bridge_lock: CheckedBridgeLockImpl<false>,
}

impl CheckedBridgeTransfer {
    /// The source bridge account.
    pub closed spec fn from(&self) -> Seq<u8> {
        self.checked_bridge_unlock.action().bridge_address.bytes@
    }

    /// The destination bridge account.
    pub closed spec fn to(&self) -> Seq<u8> {
        self.checked_bridge_unlock.action().to.bytes@
    }

    /// The asset of the source bridge account.
    pub closed spec fn asset(&self) -> Seq<u8> {
        self.checked_bridge_unlock.asset()
    }

    pub closed spec fn amount(&self) -> u128 {
        self.checked_bridge_unlock.action().amount
    }

    pub closed spec fn event_id(&self) -> Seq<char> {
        self.checked_bridge_unlock.action().rollup_withdrawal_event_id@
    }

    pub closed spec fn block(&self) -> u64 {
        self.checked_bridge_unlock.action().rollup_block_number
    }

    pub closed spec fn signer(&self) -> Seq<u8> {
        self.checked_bridge_unlock.tx_signer()@
    }

    pub closed spec fn deposit(&self) -> DepositView {
        self.checked_bridge_lock.deposit()
    }

    pub closed spec fn spec_fee_asset(&self) -> Denom {
        self.checked_bridge_lock.action().fee_asset
    }

    /// The asset and the amount that leave the source bridge account.
    pub fn transfer_asset_and_amount(&self) -> (r: (IbcPrefixed, u128))
        ensures
            r.0@ == self.asset(),
            r.1 == self.amount(),
    {
        (self.checked_bridge_unlock.bridge_account_ibc_asset(), self.checked_bridge_unlock.action_ref().amount)
    }

    /// The asset that pays the fee.
    pub fn fee_asset(&self) -> (r: &Denom)
        ensures
            *r == self.spec_fee_asset(),
    {
        &self.checked_bridge_lock.action_ref().fee_asset
    }

    /// Checks the action against the state and builds its deposit.
    pub fn new(action: BridgeTransfer, tx_signer: AddressBytes, tx_id: TransactionId, position_in_tx: u64, state: &SequencerState) -> (r: Result<Self, Error>)
        requires
            state.wf(),
        ensures
            match r {
                Ok(c) => spec_bridge_transfer_checks(state@, action, tx_signer@) is Ok && c.from()
                    == action.bridge_address.bytes@ && c.to() == action.to.bytes@ && c.asset()
                    == state@.bridge_assets[action.bridge_address.bytes@] && c.amount()
                    == action.amount && c.event_id() == action.rollup_withdrawal_event_id@
                    && c.block() == action.rollup_block_number && c.signer() == tx_signer@
                    && c.spec_fee_asset() == action.fee_asset
                    && c.deposit() == spec_bridge_transfer_deposit(
                    state@,
                    action,
                    tx_id@,
                    position_in_tx,
                ),
                Err(e) => spec_bridge_transfer_checks(state@, action, tx_signer@) == Err::<(), Error>(e),
            },
    {
        let BridgeTransfer {
            to,
            amount,
            fee_asset,
            destination_chain_address,
            bridge_address,
            rollup_block_number,
            rollup_withdrawal_event_id,
        } = action;
        let lock_to = to.dup();
        let unlock_fee_asset = match &fee_asset {
            Denom::TracePrefixed(p) => Denom::TracePrefixed(crate::map::Dup::dup(p)),
            Denom::IbcPrefixed(id) => Denom::IbcPrefixed(*id),
        };
        let bridge_unlock = BridgeUnlock {
            to,
            amount,
            memo: String::new(),
            rollup_withdrawal_event_id,
            rollup_block_number,
            fee_asset: unlock_fee_asset,
            bridge_address,
        };
        let checked_bridge_unlock = CheckedBridgeUnlockImpl::<false>::new(bridge_unlock, tx_signer, state)?;
        let asset = checked_bridge_unlock.bridge_account_ibc_asset();
        let bridge_lock = BridgeLock {
            to: lock_to,
            amount,
            asset: Denom::IbcPrefixed(asset),
            fee_asset,
            destination_chain_address,
        };
        let checked_bridge_lock = CheckedBridgeLockImpl::<false>::new(
            bridge_lock,
            tx_signer,
            tx_id,
            position_in_tx,
            state,
        )?;
        let checked = CheckedBridgeTransfer { checked_bridge_unlock, checked_bridge_lock };
        checked.run_mutable_checks(state)?;
        Ok(checked)
    }

    /// Runs the mutable checks of the unlock half; the lock half has none.
    pub fn run_mutable_checks(&self, state: &SequencerState) -> (r: Result<(), Error>)
        requires
            state.wf(),
        ensures
            r == spec_unlock_mutable_checks(state@, false, self.to(), self.from(), self.event_id(), self.signer()),
    {
        self.checked_bridge_unlock.run_mutable_checks(state)?;
        self.checked_bridge_lock.run_mutable_checks(state)
    }

    /// Executes the transfer; on failure the state is unchanged.
    pub fn execute(&self, state: &mut SequencerState) -> (r: Result<(), Error>)
        requires
            old(state).wf(),
        ensures
            final(state).wf(),
            match spec_bridge_transfer_execute(
                old(state)@,
                self.from(),
                self.to(),
                self.asset(),
                self.amount(),
                self.event_id(),
                self.block(),
                self.signer(),
                self.deposit(),
            ) {
                Ok(v) => r is Ok && final(state)@ == v,
                Err(e) => r == Err::<(), Error>(e) && final(state)@ == old(state)@,
            },
    {
        self.run_mutable_checks(state)?;
        let unlock = self.checked_bridge_unlock.action_ref();
        let asset = self.checked_bridge_unlock.bridge_account_ibc_asset();
        move_funds(state, &unlock.bridge_address.bytes, &unlock.to.bytes, &asset, unlock.amount)?;
        self.checked_bridge_lock.record_deposit(state);
        self.checked_bridge_unlock.record_withdrawal_event(state);
        Ok(())
    }
}

} // verus!
