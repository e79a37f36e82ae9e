//! A checked bridge lock: funds locked into a bridge account and deposited into its rollup.
use vstd::prelude::*;

use crate::accounts::{move_funds, spec_move_funds};
use crate::actions::BridgeLock;
use crate::address::{ensure_base_prefix, spec_ensure_base_prefix};
use crate::error::Error;
use crate::map::{Dup, KeyEq};
use crate::primitive::{denom_id, Address, AddressBytes, Denom, TraceView, TransactionId};
use crate::state::{Deposit, DepositView, SequencerState, StateView};

verus! {

/// The trace-prefixed denomination stored for an asset ID, if any.
pub open spec fn spec_ibc_asset(v: StateView, id: Seq<u8>) -> Option<TraceView> {
    if v.ibc_assets.contains_key(id) {
        Some(v.ibc_assets[id])
    } else {
        None
    }
}

/// The trace-prefixed denomination recorded in a deposit of `asset`: the asset itself if it is
/// trace-prefixed, else the denomination stored for its ID.
pub open spec fn spec_deposit_asset(v: StateView, asset: Denom) -> Option<TraceView> {
    match asset {
        Denom::TracePrefixed(t) => Some(t@),
        Denom::IbcPrefixed(id) => spec_ibc_asset(v, id@),
    }
}

/// The checks at every stage: for a pure lock, the signer is not a bridge account.
pub open spec fn spec_bridge_lock_mutable_checks(v: StateView, pure_lock: bool, signer: Seq<u8>) -> Result<(), Error> {
    if pure_lock && v.is_bridge_account(signer) {
        Err(Error::IsBridgeAccount)
    } else {
        Ok(())
    }
}

/// The checks of a lock into `to` of the asset with ID `asset_id`, recorded in the deposit as
/// `deposit_asset`: the destination has the base prefix, is a bridge account for the asset and
/// has a rollup, and the asset has a trace-prefixed denomination; then the mutable checks.
pub open spec fn spec_lock_target_checks(v: StateView, to: Address, asset_id: Seq<u8>, deposit_asset: Option<TraceView>, pure_lock: bool, signer: Seq<u8>) -> Result<(), Error> {
    let dest = to.bytes@;
    match spec_ensure_base_prefix(v, to.prefix@) {
        Err(e) => Err(e),
        Ok(_) => if !v.bridge_assets.contains_key(dest) {
            Err(Error::NotBridgeAccount)
        } else if v.bridge_assets[dest] != asset_id {
            Err(Error::AssetNotAllowedForBridge)
        } else if !v.bridge_rollup_ids.contains_key(dest) {
            Err(Error::NotBridgeAccount)
        } else if deposit_asset is None {
            Err(Error::IbcAssetNotFound)
        } else {
            spec_bridge_lock_mutable_checks(v, pure_lock, signer)
        },
    }
}

/// The checks of constructing a lock.
pub open spec fn spec_bridge_lock_checks(v: StateView, a: BridgeLock, pure_lock: bool, signer: Seq<u8>) -> Result<(), Error> {
    spec_lock_target_checks(v, a.to, denom_id(a.asset), spec_deposit_asset(v, a.asset), pure_lock, signer)
}

/// The deposit of `amount` into the rollup of bridge account `to`.
pub open spec fn spec_deposit(v: StateView, to: Seq<u8>, amount: u128, asset: TraceView, destination: Seq<char>, tx_id: Seq<u8>, position: u64) -> DepositView {
    DepositView {
        bridge_address: to,
        rollup_id: v.bridge_rollup_ids[to],
        amount: amount,
        asset: asset,
        destination_chain_address: destination,
        source_transaction_id: tx_id,
        source_action_index: position,
    }
}

/// The deposit that a lock creates.
pub open spec fn spec_bridge_lock_deposit(v: StateView, a: BridgeLock, tx_id: Seq<u8>, position: u64) -> DepositView {
    spec_deposit(
        v,
        a.to.bytes@,
        a.amount,
        spec_deposit_asset(v, a.asset)->Some_0,
        a.destination_chain_address@,
        tx_id,
        position,
    )
}

/// The state after a pure lock: the amount moves from the signer to the bridge account, and
/// the deposit is recorded.
pub open spec fn spec_bridge_lock_execute(v: StateView, a: BridgeLock, signer: Seq<u8>, deposit: DepositView) -> Result<StateView, Error> {
    match spec_bridge_lock_mutable_checks(v, true, signer) {
        Err(e) => Err(e),
        Ok(_) => match spec_move_funds(v, signer, a.to.bytes@, denom_id(a.asset), a.amount) {
            Err(e) => Err(e),
            Ok(v1) => Ok(StateView { deposits: v1.deposits.push(deposit), ..v1 }),
        },
    }
}

/// A bridge lock that passed its checks, with the deposit it creates. With `PURE_LOCK` false it
/// holds the checks of the lock half of a bridge transfer, whose source need not be the signer.
pub struct CheckedBridgeLockImpl<const PURE_LOCK: bool> {
    action: BridgeLock,
    tx_signer: AddressBytes,
    tx_id: TransactionId,
    position_in_tx: u64,
    deposit: Deposit,
}

/// A bridge lock from the signer's own account.
pub type CheckedBridgeLock = CheckedBridgeLockImpl<true>;

impl<const PURE_LOCK: bool> CheckedBridgeLockImpl<PURE_LOCK> {
    pub closed spec fn action(&self) -> BridgeLock {
        self.action
    }

    pub closed spec fn tx_signer(&self) -> AddressBytes {
        self.tx_signer
    }

    pub closed spec fn spec_tx_id(&self) -> TransactionId {
        self.tx_id
    }

    pub closed spec fn spec_position_in_tx(&self) -> u64 {
        self.position_in_tx
    }

    pub closed spec fn deposit(&self) -> DepositView {
        self.deposit@
    }

    /// Checks the action against the state and builds its deposit.
    pub fn new(action: BridgeLock, tx_signer: AddressBytes, tx_id: TransactionId, position_in_tx: u64, state: &SequencerState) -> (r: Result<Self, Error>)
        requires
            state.wf(),
        ensures
            match r {
                Ok(c) => spec_bridge_lock_checks(state@, action, PURE_LOCK, tx_signer@) is Ok
                    && c.action() == action && c.tx_signer() == tx_signer && c.spec_tx_id()
                    == tx_id && c.spec_position_in_tx() == position_in_tx && c.deposit()
                    == spec_bridge_lock_deposit(state@, action, tx_id@, position_in_tx),
                Err(e) => spec_bridge_lock_checks(state@, action, PURE_LOCK, tx_signer@)
                    == Err::<(), Error>(e),
            },
    {
        ensure_base_prefix(state, &action.to)?;
        let allowed_asset = match state.get_bridge_account_ibc_asset(&action.to.bytes) {
            Some(a) => a,
            None => return Err(Error::NotBridgeAccount),
        };
        if !allowed_asset.key_eq(&action.asset.to_ibc_prefixed()) {
            return Err(Error::AssetNotAllowedForBridge);
        }
        let rollup_id = match state.get_bridge_account_rollup_id(&action.to.bytes) {
            Some(id) => id,
            None => return Err(Error::NotBridgeAccount),
        };
        let deposit_asset = match &action.asset {
            Denom::TracePrefixed(t) => t.dup(),
            Denom::IbcPrefixed(id) => match state.map_ibc_to_trace_prefixed_asset(id) {
                Some(t) => t.dup(),
                None => return Err(Error::IbcAssetNotFound),
            },
        };
        let deposit = Deposit {
            bridge_address: action.to.bytes,
            rollup_id,
            amount: action.amount,
            asset: deposit_asset,
            destination_chain_address: action.destination_chain_address.clone(),
            source_transaction_id: tx_id,
            source_action_index: position_in_tx,
        };
        let checked = CheckedBridgeLockImpl { action, tx_signer, tx_id, position_in_tx, deposit };
        checked.run_mutable_checks(state)?;
        Ok(checked)
    }

    /// For a pure lock, the signer is not a bridge account.
    pub fn run_mutable_checks(&self, state: &SequencerState) -> (r: Result<(), Error>)
        requires
            state.wf(),
        ensures
            r == spec_bridge_lock_mutable_checks(state@, PURE_LOCK, self.tx_signer()@),
    {
        if PURE_LOCK && state.is_a_bridge_account(&self.tx_signer) {
            Err(Error::IsBridgeAccount)
        } else {
            Ok(())
        }
    }

    /// Records the deposit in the state.
    pub fn record_deposit(&self, state: &mut SequencerState)
        ensures
            final(state).wf() == old(state).wf(),
            final(state)@ == (StateView {
                deposits: old(state)@.deposits.push(self.deposit()),
                ..old(state)@
            }),
    {
        state.push_deposit(self.deposit.dup());
    }

    /// The action that was checked.
    pub fn action_ref(&self) -> (r: &BridgeLock)
        ensures
            *r == self.action(),
    {
        &self.action
    }

    /// The ID of the transaction that holds the action.
    pub fn tx_id(&self) -> (r: TransactionId)
        ensures
            r == self.spec_tx_id(),
    {
        self.tx_id
    }

    /// The index of the action in its transaction.
    pub fn position_in_tx(&self) -> (r: u64)
        ensures
            r == self.spec_position_in_tx(),
    {
        self.position_in_tx
    }
}

impl CheckedBridgeLockImpl<true> {
    /// Executes the lock; on failure the state is unchanged.
    pub fn execute(&self, state: &mut SequencerState) -> (r: Result<(), Error>)
        requires
            old(state).wf(),
        ensures
            final(state).wf(),
            match spec_bridge_lock_execute(old(state)@, self.action(), self.tx_signer()@, self.deposit()) {
                Ok(v) => r is Ok && final(state)@ == v,
                Err(e) => r == Err::<(), Error>(e) && final(state)@ == old(state)@,
            },
    {
        self.run_mutable_checks(state)?;
        let asset = self.action.asset.to_ibc_prefixed();
        move_funds(state, &self.tx_signer, &self.action.to.bytes, &asset, self.action.amount)?;
        self.record_deposit(state);
        Ok(())
    }
}

} // verus!
