//! A checked bridge unlock: funds withdrawn from a bridge account by its withdrawer.
use vstd::prelude::*;
use vstd::utf8::encode_utf8;

use crate::accounts::{move_funds, spec_move_funds};
use crate::actions::BridgeUnlock;
use crate::address::{ensure_base_prefix, spec_ensure_base_prefix};
use crate::error::Error;
use crate::map::KeyEq;
use crate::primitive::{Address, AddressBytes, IbcPrefixed};
use crate::state::{SequencerState, StateView};

verus! {

/// The longest memo of an unlock, in bytes.
pub const MAX_UNLOCK_MEMO_BYTES: usize = 64;

/// The longest rollup withdrawal event ID, in bytes.
pub const MAX_WITHDRAWAL_EVENT_ID_BYTES: usize = 256;

/// The length of a string in UTF-8 bytes, as `str::len` reports it.
pub open spec fn byte_len(s: Seq<char>) -> usize {
    encode_utf8(s).len() as usize
}

/// The checks that need no state: a positive amount, a memo of at most 64 bytes, a non-empty
/// event ID of at most 256 bytes and a positive rollup block number.
pub open spec fn spec_unlock_stateless_checks(amount: u128, memo: Seq<char>, event_id: Seq<char>, block: u64) -> Result<(), Error> {
    if amount == 0 {
        Err(Error::ZeroAmount)
    } else if byte_len(memo) > MAX_UNLOCK_MEMO_BYTES {
        Err(Error::MemoTooLong)
    } else if event_id.len() == 0 {
        Err(Error::EmptyWithdrawalEventId)
    } else if byte_len(event_id) > MAX_WITHDRAWAL_EVENT_ID_BYTES {
        Err(Error::WithdrawalEventIdTooLong)
    } else if block == 0 {
        Err(Error::ZeroRollupBlockNumber)
    } else {
        Ok(())
    }
}

/// The checks of the addresses: both have the base prefix and the source is a bridge account;
/// gives the asset of the bridge account.
pub open spec fn spec_unlock_address_checks(v: StateView, to: Address, bridge: Address) -> Result<Seq<u8>, Error> {
    match spec_ensure_base_prefix(v, to.prefix@) {
        Err(e) => Err(e),
        Ok(_) => match spec_ensure_base_prefix(v, bridge.prefix@) {
            Err(e) => Err(e),
            Ok(_) => if v.bridge_assets.contains_key(bridge.bytes@) {
                Ok(v.bridge_assets[bridge.bytes@])
            } else {
                Err(Error::NotBridgeAccount)
            },
        },
    }
}

/// The checks at every stage: for a pure unlock the destination is not a bridge account; the
/// bridge account has a withdrawer, which is the signer; the event ID was not used before.
pub open spec fn spec_unlock_mutable_checks(v: StateView, pure_unlock: bool, to: Seq<u8>, bridge: Seq<u8>, event_id: Seq<char>, signer: Seq<u8>) -> Result<(), Error> {
    if pure_unlock && v.is_bridge_account(to) {
        Err(Error::IsBridgeAccount)
    } else if !v.bridge_withdrawers.contains_key(bridge) {
        Err(Error::BridgeWithdrawerNotFound)
    } else if v.bridge_withdrawers[bridge] != signer {
        Err(Error::NotAuthorized)
    } else if v.withdrawal_events.contains_key((bridge, event_id)) {
        Err(Error::WithdrawalEventAlreadyUsed)
    } else {
        Ok(())
    }
}

/// The checks of constructing the action: the stateless checks, the address checks, then the
/// mutable checks.
pub open spec fn spec_bridge_unlock_checks(v: StateView, a: BridgeUnlock, pure_unlock: bool, signer: Seq<u8>) -> Result<(), Error> {
    match spec_unlock_stateless_checks(a.amount, a.memo@, a.rollup_withdrawal_event_id@, a.rollup_block_number) {
        Err(e) => Err(e),
        Ok(_) => match spec_unlock_address_checks(v, a.to, a.bridge_address) {
            Err(e) => Err(e),
            Ok(_) => spec_unlock_mutable_checks(
                v,
                pure_unlock,
                a.to.bytes@,
                a.bridge_address.bytes@,
                a.rollup_withdrawal_event_id@,
                signer,
            ),
        },
    }
}

/// The state with a withdrawal event recorded for a bridge account.
pub open spec fn spec_record_withdrawal_event(v: StateView, bridge: Seq<u8>, event_id: Seq<char>, block: u64) -> StateView {
    StateView { withdrawal_events: v.withdrawal_events.insert((bridge, event_id), block), ..v }
}

/// The state after a pure unlock: the amount of the bridge asset moves from the bridge account
/// to the destination, and the withdrawal event is recorded.
pub open spec fn spec_bridge_unlock_execute(v: StateView, a: BridgeUnlock, asset: Seq<u8>, signer: Seq<u8>) -> Result<StateView, Error> {
    let bridge = a.bridge_address.bytes@;
    match spec_unlock_mutable_checks(v, true, a.to.bytes@, bridge, a.rollup_withdrawal_event_id@, signer) {
        Err(e) => Err(e),
        Ok(_) => match spec_move_funds(v, bridge, a.to.bytes@, asset, a.amount) {
            Err(e) => Err(e),
            Ok(v1) => Ok(spec_record_withdrawal_event(v1, bridge, a.rollup_withdrawal_event_id@, a.rollup_block_number)),
        },
    }
}

/// A bridge unlock that passed its checks, with the asset of its bridge account. With
/// `PURE_UNLOCK` false it holds the checks of the unlock half of a bridge transfer, whose
/// destination is itself a bridge account.
pub struct CheckedBridgeUnlockImpl<const PURE_UNLOCK: bool> {
    action: BridgeUnlock,
    tx_signer: AddressBytes,
    bridge_account_ibc_asset: IbcPrefixed,
}

/// A bridge unlock to an account that is not a bridge account.
pub type CheckedBridgeUnlock = CheckedBridgeUnlockImpl<true>;

impl<const PURE_UNLOCK: bool> CheckedBridgeUnlockImpl<PURE_UNLOCK> {
    pub closed spec fn action(&self) -> BridgeUnlock {
        self.action
    }

    pub closed spec fn tx_signer(&self) -> AddressBytes {
        self.tx_signer
    }

    pub closed spec fn asset(&self) -> Seq<u8> {
        self.bridge_account_ibc_asset@
    }

    /// Checks the action against the state.
    pub fn new(action: BridgeUnlock, tx_signer: AddressBytes, state: &SequencerState) -> (r: Result<Self, Error>)
        requires
            state.wf(),
        ensures
            match r {
                Ok(c) => spec_bridge_unlock_checks(state@, action, PURE_UNLOCK, tx_signer@) is Ok
                    && c.action() == action && c.tx_signer() == tx_signer && c.asset()
                    == state@.bridge_assets[action.bridge_address.bytes@],
                Err(e) => spec_bridge_unlock_checks(state@, action, PURE_UNLOCK, tx_signer@)
                    == Err::<(), Error>(e),
            },
    {
        if action.amount == 0 {
            return Err(Error::ZeroAmount);
        }
        if action.memo.as_str().len() > MAX_UNLOCK_MEMO_BYTES {
            return Err(Error::MemoTooLong);
        }
        if action.rollup_withdrawal_event_id.as_str().is_empty() {
            return Err(Error::EmptyWithdrawalEventId);
        }
        if action.rollup_withdrawal_event_id.as_str().len() > MAX_WITHDRAWAL_EVENT_ID_BYTES {
            return Err(Error::WithdrawalEventIdTooLong);
        }
        if action.rollup_block_number == 0 {
            return Err(Error::ZeroRollupBlockNumber);
        }
        ensure_base_prefix(state, &action.to)?;
        ensure_base_prefix(state, &action.bridge_address)?;
        let bridge_account_ibc_asset = match state.get_bridge_account_ibc_asset(&action.bridge_address.bytes) {
            Some(a) => a,
            None => return Err(Error::NotBridgeAccount),
        };
        let checked = CheckedBridgeUnlockImpl { action, tx_signer, bridge_account_ibc_asset };
        checked.run_mutable_checks(state)?;
        Ok(checked)
    }

    /// Runs the checks that depend on mutable state.
    pub fn run_mutable_checks(&self, state: &SequencerState) -> (r: Result<(), Error>)
        requires
            state.wf(),
        ensures
            r == spec_unlock_mutable_checks(
                state@,
                PURE_UNLOCK,
                self.action().to.bytes@,
                self.action().bridge_address.bytes@,
                self.action().rollup_withdrawal_event_id@,
                self.tx_signer()@,
            ),
    {
        if PURE_UNLOCK && state.is_a_bridge_account(&self.action.to.bytes) {
            return Err(Error::IsBridgeAccount);
        }
        let withdrawer = match state.get_bridge_account_withdrawer_address(&self.action.bridge_address.bytes) {
            Some(w) => w,
            None => return Err(Error::BridgeWithdrawerNotFound),
        };
        if !self.tx_signer.key_eq(&withdrawer) {
            return Err(Error::NotAuthorized);
        }
        if state.get_withdrawal_event_block_for_bridge_account(
            &self.action.bridge_address.bytes,
            &self.action.rollup_withdrawal_event_id,
        ).is_some() {
            return Err(Error::WithdrawalEventAlreadyUsed);
        }
        Ok(())
    }

    /// Records the withdrawal event of the action in the state.
    pub fn record_withdrawal_event(&self, state: &mut SequencerState)
        requires
            old(state).wf(),
        ensures
            final(state).wf(),
            final(state)@ == spec_record_withdrawal_event(
                old(state)@,
                self.action().bridge_address.bytes@,
                self.action().rollup_withdrawal_event_id@,
                self.action().rollup_block_number,
            ),
    {
        state.put_withdrawal_event_block_for_bridge_account(
            self.action.bridge_address.bytes,
            self.action.rollup_withdrawal_event_id.clone(),
            self.action.rollup_block_number,
        );
    }

    /// The action that was checked.
    pub fn action_ref(&self) -> (r: &BridgeUnlock)
        ensures
            *r == self.action(),
    {
        &self.action
    }

    /// The signer of the transaction.
    pub fn signer(&self) -> (r: AddressBytes)
        ensures
            r == self.tx_signer(),
    {
        self.tx_signer
    }

    /// The asset of the bridge account.
    pub fn bridge_account_ibc_asset(&self) -> (r: IbcPrefixed)
        ensures
            r@ == self.asset(),
    {
        self.bridge_account_ibc_asset
    }
}

impl CheckedBridgeUnlockImpl<true> {
    /// Executes the unlock; on failure the state is unchanged.
    pub fn execute(&self, state: &mut SequencerState) -> (r: Result<(), Error>)
        requires
            old(state).wf(),
        ensures
            final(state).wf(),
            match spec_bridge_unlock_execute(old(state)@, self.action(), self.asset(), self.tx_signer()@) {
                Ok(v) => r is Ok && final(state)@ == v,
                Err(e) => r == Err::<(), Error>(e) && final(state)@ == old(state)@,
            },
    {
        self.run_mutable_checks(state)?;
        move_funds(
            state,
            &self.action.bridge_address.bytes,
            &self.action.to.bytes,
            &self.bridge_account_ibc_asset,
            self.action.amount,
        )?;
        self.record_withdrawal_event(state);
        Ok(())
    }
}

} // verus!
