//! Any checked action: construction from an action, execution and fee payment.
use vstd::prelude::*;

use crate::actions::Action;
use crate::authority::{spec_ensure_ibc_sudo, spec_ensure_sudo};
use crate::checked_actions::bridge_lock::{
    spec_bridge_lock_checks,
    spec_bridge_lock_execute,
    spec_bridge_lock_mutable_checks,
    CheckedBridgeLock,
};
use crate::checked_actions::bridge_sudo_change::{
    spec_bridge_sudo_change_checks,
    spec_bridge_sudo_change_execute,
    spec_bridge_sudo_change_mutable_checks,
    CheckedBridgeSudoChange,
};
use crate::checked_actions::bridge_transfer::{
    spec_bridge_transfer_checks,
    spec_bridge_transfer_execute,
    CheckedBridgeTransfer,
};
use crate::checked_actions::bridge_unlock::{
    spec_bridge_unlock_checks,
    spec_bridge_unlock_execute,
    spec_unlock_mutable_checks,
    CheckedBridgeUnlock,
};
use crate::checked_actions::fee_asset_change::{spec_fee_asset_change_execute, CheckedFeeAssetChange};
use crate::checked_actions::fee_change::{spec_fee_change_execute, CheckedFeeChange};
use crate::checked_actions::ibc_relay::{spec_ibc_relay_checks, spec_ibc_relay_mutable_checks, CheckedIbcRelay};
use crate::checked_actions::ibc_relayer_change::{
    spec_ibc_relayer_change_checks,
    spec_ibc_relayer_change_execute,
    CheckedIbcRelayerChange,
};
use crate::checked_actions::ibc_sudo_change::{
    spec_ibc_sudo_change_checks,
    spec_ibc_sudo_change_execute,
    CheckedIbcSudoChange,
};
use crate::checked_actions::ics20_withdrawal::{
    spec_ics20_withdrawal_checks,
    spec_ics20_mutable_checks,
    spec_ics20_withdrawal_execute,
    spec_packet,
    spec_rollup_event,
    spec_sender,
    spec_withdrawal_address,
    CheckedIcs20Withdrawal,
};
use crate::checked_actions::init_bridge_account::{
    spec_init_bridge_account_checks,
    spec_init_bridge_account_execute,
    spec_init_bridge_account_mutable_checks,
    CheckedInitBridgeAccount,
};
use crate::checked_actions::markets_change::{spec_markets_change_execute, CheckedMarketsChange};
use crate::checked_actions::recover_ibc_client::{
    spec_recover_ibc_client_checks,
    CheckedRecoverIbcClient,
    ClientInfo,
};
use crate::checked_actions::rollup_data_submission::CheckedRollupDataSubmission;
use crate::checked_actions::sudo_address_change::{
    spec_sudo_address_change_checks,
    spec_sudo_address_change_execute,
    CheckedSudoAddressChange,
};
use crate::checked_actions::transfer::{
    spec_transfer_checks,
    spec_transfer_execute,
    spec_transfer_mutable_checks,
    CheckedTransfer,
};
use crate::checked_actions::validator_update::{
    spec_validator_update_execute,
    spec_validator_update_mutable_checks,
    CheckedValidatorUpdate,
};
use crate::checked_actions::bridge_lock::spec_bridge_lock_deposit;
use crate::checked_actions::bridge_transfer::spec_bridge_transfer_deposit;
use crate::error::Error;
use crate::fees::{calculate_fee, spec_fee};
use crate::primitive::{denom_id, AddressBytes, Denom, IbcPrefixed, TransactionId};
use crate::state::{FeeKind, SequencerState, StateView};

verus! {

/// What the IBC component reports on an action while it executes.
pub enum IbcReport {
    /// Nothing is reported.
    Nothing,
    /// Whether the action's IBC part succeeded: the send check of a withdrawal's packet, or the
    /// execution of a relayed message.
    Passed(bool),
    /// The client to recover and its substitute.
    Clients(ClientInfo, ClientInfo),
}

/// The report says that the IBC part succeeded.
pub open spec fn report_passed(r: IbcReport) -> bool {
    r matches IbcReport::Passed(true)
}

/// Any action that passed its checks.
pub enum CheckedAction {
    RollupDataSubmission(CheckedRollupDataSubmission),
    Transfer(CheckedTransfer),
    ValidatorUpdate(CheckedValidatorUpdate),
    SudoAddressChange(CheckedSudoAddressChange),
    IbcRelay(CheckedIbcRelay),
    IbcSudoChange(CheckedIbcSudoChange),
    Ics20Withdrawal(CheckedIcs20Withdrawal),
    IbcRelayerChange(CheckedIbcRelayerChange),
    FeeAssetChange(CheckedFeeAssetChange),
    InitBridgeAccount(CheckedInitBridgeAccount),
    BridgeLock(CheckedBridgeLock),
    BridgeUnlock(CheckedBridgeUnlock),
    BridgeSudoChange(CheckedBridgeSudoChange),
    BridgeTransfer(CheckedBridgeTransfer),
    FeeChange(CheckedFeeChange),
    RecoverIbcClient(CheckedRecoverIbcClient),
    MarketsChange(CheckedMarketsChange),
}

/// The checks of an action at position `index` of the transaction `tx_id` signed by `signer`.
pub open spec fn spec_action_checks(v: StateView, a: Action, signer: AddressBytes, tx_id: Seq<u8>, index: u64) -> Result<(), Error> {
    let s = signer@;
    match a {
        Action::RollupDataSubmission(x) => if x.data@.len() == 0 {
            Err(Error::EmptyData)
        } else {
            Ok(())
        },
        Action::Transfer(x) => spec_transfer_checks(v, x, s),
        Action::ValidatorUpdate(x) => spec_validator_update_mutable_checks(v, x, s),
        Action::SudoAddressChange(x) => spec_sudo_address_change_checks(v, x, s),
        Action::Ibc(_, passed) => spec_ibc_relay_checks(v, passed, s),
        Action::IbcSudoChange(x) => spec_ibc_sudo_change_checks(v, x, s),
        Action::Ics20Withdrawal(x, memo) => spec_ics20_withdrawal_checks(v, x, memo, s),
        Action::IbcRelayerChange(x) => spec_ibc_relayer_change_checks(v, x, s),
        Action::FeeAssetChange(_) => spec_ensure_sudo(v, s),
        Action::InitBridgeAccount(x) => spec_init_bridge_account_checks(v, x, s),
        Action::BridgeLock(x) => spec_bridge_lock_checks(v, x, true, s),
        Action::BridgeUnlock(x) => spec_bridge_unlock_checks(v, x, true, s),
        Action::BridgeSudoChange(x) => spec_bridge_sudo_change_checks(v, x, s),
        Action::BridgeTransfer(x) => spec_bridge_transfer_checks(v, x, s),
        Action::FeeChange(_) => spec_ensure_sudo(v, s),
        Action::RecoverIbcClient(_, subject, substitute) => spec_recover_ibc_client_checks(
            v,
            s,
            subject,
            substitute,
        ),
        Action::MarketsChange(_) => spec_ensure_sudo(v, s),
    }
}

/// `c` is the checked form of the action `a` at position `index` of the transaction `tx_id`
/// signed by `signer`, checked against the state `v`.
pub open spec fn converted(c: CheckedAction, a: Action, v: StateView, signer: AddressBytes, tx_id: Seq<u8>, index: u64) -> bool {
    match a {
        Action::RollupDataSubmission(x) => c matches CheckedAction::RollupDataSubmission(y)
            && y.action() == x,
        Action::Transfer(x) => c matches CheckedAction::Transfer(y) && y.action() == x
            && y.tx_signer() == signer,
        Action::ValidatorUpdate(x) => c matches CheckedAction::ValidatorUpdate(y) && y.action()
            == x && y.tx_signer() == signer,
        Action::SudoAddressChange(x) => c matches CheckedAction::SudoAddressChange(y)
            && y.action() == x && y.tx_signer() == signer,
        Action::Ibc(x, _) => c matches CheckedAction::IbcRelay(y) && y.action() == x
            && y.tx_signer() == signer,
        Action::IbcSudoChange(x) => c matches CheckedAction::IbcSudoChange(y) && y.action() == x
            && y.tx_signer() == signer,
        Action::Ics20Withdrawal(x, memo) => c matches CheckedAction::Ics20Withdrawal(y)
            && y.amount() == x.amount && y.denom() == x.denom && y.spec_fee_asset()
            == x.fee_asset && y.withdrawal_address() == spec_withdrawal_address(x, signer@)
            && y.rollup_event() == spec_rollup_event(x, memo) && y.signer() == signer@
            && y.packet() == spec_packet(x, spec_sender(v, x)->Ok_0),
        Action::IbcRelayerChange(x) => c matches CheckedAction::IbcRelayerChange(y) && y.action()
            == x && y.tx_signer() == signer,
        Action::FeeAssetChange(x) => c matches CheckedAction::FeeAssetChange(y) && y.action() == x
            && y.tx_signer() == signer,
        Action::InitBridgeAccount(x) => c matches CheckedAction::InitBridgeAccount(y)
            && y.action() == x && y.tx_signer() == signer,
        Action::BridgeLock(x) => c matches CheckedAction::BridgeLock(y) && y.action() == x
            && y.tx_signer() == signer && y.spec_tx_id()@ == tx_id && y.spec_position_in_tx()
            == index && y.deposit() == spec_bridge_lock_deposit(v, x, tx_id, index),
        Action::BridgeUnlock(x) => c matches CheckedAction::BridgeUnlock(y) && y.action() == x
            && y.tx_signer() == signer && y.asset() == v.bridge_assets[x.bridge_address.bytes@],
        Action::BridgeSudoChange(x) => c matches CheckedAction::BridgeSudoChange(y)
            && y.action() == x && y.tx_signer() == signer,
        Action::BridgeTransfer(x) => c matches CheckedAction::BridgeTransfer(y) && y.from()
            == x.bridge_address.bytes@ && y.to() == x.to.bytes@ && y.asset()
            == v.bridge_assets[x.bridge_address.bytes@] && y.amount() == x.amount && y.event_id()
            == x.rollup_withdrawal_event_id@ && y.block() == x.rollup_block_number && y.signer()
            == signer@ && y.spec_fee_asset() == x.fee_asset && y.deposit()
            == spec_bridge_transfer_deposit(v, x, tx_id, index),
        Action::FeeChange(x) => c matches CheckedAction::FeeChange(y) && y.action() == x
            && y.tx_signer() == signer,
        Action::RecoverIbcClient(x, _, _) => c matches CheckedAction::RecoverIbcClient(y)
            && y.action() == x && y.tx_signer() == signer,
        Action::MarketsChange(x) => c matches CheckedAction::MarketsChange(y) && y.action() == x
            && y.tx_signer() == signer,
    }
}

/// The checks of a checked action that depend on mutable state, given what the IBC component
/// reports.
pub open spec fn spec_action_mutable_checks(v: StateView, c: CheckedAction, report: IbcReport) -> Result<(), Error> {
    match c {
        CheckedAction::RollupDataSubmission(_) => Ok(()),
        CheckedAction::Transfer(x) => spec_transfer_mutable_checks(v, x.tx_signer()@),
        CheckedAction::ValidatorUpdate(x) => spec_validator_update_mutable_checks(
            v,
            x.action(),
            x.tx_signer()@,
        ),
        CheckedAction::SudoAddressChange(x) => spec_ensure_sudo(v, x.tx_signer()@),
        CheckedAction::IbcRelay(x) => spec_ibc_relay_mutable_checks(v, x.tx_signer()@),
        CheckedAction::IbcSudoChange(x) => spec_ensure_sudo(v, x.tx_signer()@),
        CheckedAction::Ics20Withdrawal(x) => spec_ics20_mutable_checks(
            v,
            x.rollup_event(),
            x.withdrawal_address(),
            x.signer(),
        ),
        CheckedAction::IbcRelayerChange(x) => spec_ensure_ibc_sudo(v, x.tx_signer()@),
        CheckedAction::FeeAssetChange(x) => spec_ensure_sudo(v, x.tx_signer()@),
        CheckedAction::InitBridgeAccount(x) => spec_init_bridge_account_mutable_checks(v, x.tx_signer()@),
        CheckedAction::BridgeLock(x) => spec_bridge_lock_mutable_checks(v, true, x.tx_signer()@),
        CheckedAction::BridgeUnlock(x) => spec_unlock_mutable_checks(
            v,
            true,
            x.action().to.bytes@,
            x.action().bridge_address.bytes@,
            x.action().rollup_withdrawal_event_id@,
            x.tx_signer()@,
        ),
        CheckedAction::BridgeSudoChange(x) => spec_bridge_sudo_change_mutable_checks(
            v,
            x.action(),
            x.tx_signer()@,
        ),
        CheckedAction::BridgeTransfer(x) => spec_unlock_mutable_checks(
            v,
            false,
            x.to(),
            x.from(),
            x.event_id(),
            x.signer(),
        ),
        CheckedAction::FeeChange(x) => spec_ensure_sudo(v, x.tx_signer()@),
        CheckedAction::RecoverIbcClient(x) => match report {
            IbcReport::Clients(subject, substitute) => spec_recover_ibc_client_checks(
                v,
                x.tx_signer()@,
                subject,
                substitute,
            ),
            _ => Err(Error::ClientStateNotFound),
        },
        CheckedAction::MarketsChange(x) => spec_ensure_sudo(v, x.tx_signer()@),
    }
}

/// The state after executing a checked action, given what the IBC component reports.
pub open spec fn spec_action_execute(v: StateView, c: CheckedAction, report: IbcReport) -> Result<StateView, Error> {
    match c {
        CheckedAction::RollupDataSubmission(_) => Ok(v),
        CheckedAction::Transfer(x) => spec_transfer_execute(v, x.action(), x.tx_signer()@),
        CheckedAction::ValidatorUpdate(x) => spec_validator_update_execute(v, x.action(), x.tx_signer()@),
        CheckedAction::SudoAddressChange(x) => spec_sudo_address_change_execute(
            v,
            x.action(),
            x.tx_signer()@,
        ),
        CheckedAction::IbcRelay(x) => match spec_ibc_relay_mutable_checks(v, x.tx_signer()@) {
            Err(e) => Err(e),
            Ok(_) => if report_passed(report) {
                Ok(v)
            } else {
                Err(Error::IbcExecutionFailed)
            },
        },
        CheckedAction::IbcSudoChange(x) => spec_ibc_sudo_change_execute(v, x.action(), x.tx_signer()@),
        CheckedAction::Ics20Withdrawal(x) => spec_ics20_withdrawal_execute(
            v,
            x.amount(),
            x.denom(),
            x.withdrawal_address(),
            x.rollup_event(),
            x.packet().source_port,
            x.packet().source_channel,
            x.signer(),
            report_passed(report),
        ),
        CheckedAction::IbcRelayerChange(x) => spec_ibc_relayer_change_execute(
            v,
            x.action(),
            x.tx_signer()@,
        ),
        CheckedAction::FeeAssetChange(x) => spec_fee_asset_change_execute(v, x.action(), x.tx_signer()@),
        CheckedAction::InitBridgeAccount(x) => spec_init_bridge_account_execute(
            v,
            x.action(),
            x.tx_signer()@,
        ),
        CheckedAction::BridgeLock(x) => spec_bridge_lock_execute(
            v,
            x.action(),
            x.tx_signer()@,
            x.deposit(),
        ),
        CheckedAction::BridgeUnlock(x) => spec_bridge_unlock_execute(
            v,
            x.action(),
            x.asset(),
            x.tx_signer()@,
        ),
        CheckedAction::BridgeSudoChange(x) => spec_bridge_sudo_change_execute(
            v,
            x.action(),
            x.tx_signer()@,
        ),
        CheckedAction::BridgeTransfer(x) => spec_bridge_transfer_execute(
            v,
            x.from(),
            x.to(),
            x.asset(),
            x.amount(),
            x.event_id(),
            x.block(),
            x.signer(),
            x.deposit(),
        ),
        CheckedAction::FeeChange(x) => spec_fee_change_execute(v, x.action(), x.tx_signer()@),
        CheckedAction::RecoverIbcClient(x) => match report {
            IbcReport::Clients(subject, substitute) => match spec_recover_ibc_client_checks(
                v,
                x.tx_signer()@,
                subject,
                substitute,
            ) {
                Err(e) => Err(e),
                Ok(_) => Ok(v),
            },
            _ => Err(Error::ClientStateNotFound),
        },
        CheckedAction::MarketsChange(x) => spec_markets_change_execute(v, x.action(), x.tx_signer()@),
    }
}

/// The fee that an action pays: its kind, the asset it pays in and the length of its payload.
/// Actions without a fee asset pay none.
pub open spec fn spec_action_fee(c: CheckedAction) -> Option<(FeeKind, Denom, nat)> {
    match c {
        CheckedAction::RollupDataSubmission(x) => Some(
            (FeeKind::RollupDataSubmission, x.action().fee_asset, x.action().data@.len()),
        ),
        CheckedAction::Transfer(x) => Some((FeeKind::Transfer, x.action().fee_asset, 0)),
        CheckedAction::Ics20Withdrawal(x) => Some((FeeKind::Ics20Withdrawal, x.spec_fee_asset(), 0)),
        CheckedAction::InitBridgeAccount(x) => Some(
            (FeeKind::InitBridgeAccount, x.action().fee_asset, 0),
        ),
        CheckedAction::BridgeLock(x) => Some((FeeKind::BridgeLock, x.action().fee_asset, 0)),
        CheckedAction::BridgeUnlock(x) => Some((FeeKind::BridgeUnlock, x.action().fee_asset, 0)),
        CheckedAction::BridgeSudoChange(x) => Some(
            (FeeKind::BridgeSudoChange, x.action().fee_asset, 0),
        ),
        CheckedAction::BridgeTransfer(x) => Some((FeeKind::BridgeTransfer, x.spec_fee_asset(), 0)),
        _ => None,
    }
}

/// The asset and the amount that an action moves out of an account, if it moves any.
pub open spec fn spec_asset_and_amount(c: CheckedAction) -> Option<(Seq<u8>, u128)> {
    match c {
        CheckedAction::Transfer(x) => Some((denom_id(x.action().asset), x.action().amount)),
        CheckedAction::Ics20Withdrawal(x) => Some((denom_id(x.denom()), x.amount())),
        CheckedAction::BridgeLock(x) => Some((denom_id(x.action().asset), x.action().amount)),
        CheckedAction::BridgeUnlock(x) => Some((x.asset(), x.action().amount)),
        CheckedAction::BridgeTransfer(x) => Some((x.asset(), x.amount())),
        _ => None,
    }
}

/// The state after `payer` pays the fee of a kind of action in `asset` for a payload of `len`
/// bytes: the asset is allowed for fees, the kind has fee components, the fee fits in `u128`,
/// the payer holds it, and it moves from the payer's balance into the block's fees.
pub open spec fn spec_pay_fee(v: StateView, payer: Seq<u8>, kind: FeeKind, asset: Denom, len: nat) -> Result<StateView, Error> {
    let id = denom_id(asset);
    if !v.allowed_fee_assets.contains(id) {
        Err(Error::FeeAssetNotAllowed)
    } else if !v.fees.contains_key(kind) {
        Err(Error::FeesNotFound)
    } else {
        let fee = spec_fee(len as int, v.fees[kind].multiplier as int, v.fees[kind].base as int);
        if fee > u128::MAX {
            Err(Error::FeeOverflow)
        } else if v.balance(payer, id) < fee {
            Err(Error::InsufficientFunds)
        } else if v.block_fee(id) + fee > u128::MAX {
            Err(Error::BalanceOverflow)
        } else {
            let paid = v.with_balance(payer, id, (v.balance(payer, id) - fee) as u128);
            Ok(StateView { block_fees: paid.block_fees.insert(id, (v.block_fee(id) + fee) as u128), ..paid })
        }
    }
}

/// The state after executing a checked action and paying its fee from `payer`.
#[verifier::opaque]
pub open spec fn spec_execute_and_pay_fees(v: StateView, c: CheckedAction, payer: Seq<u8>, report: IbcReport) -> Result<StateView, Error> {
    match spec_action_execute(v, c, report) {
        Err(e) => Err(e),
        Ok(v1) => match spec_action_fee(c) {
            None => Ok(v1),
            Some((kind, asset, len)) => spec_pay_fee(v1, payer, kind, asset, len),
        },
    }
}

/// `payer` pays the fee of a kind of action in `asset` for `payload`; on failure the state is
/// unchanged.
pub fn pay_fee(state: &mut SequencerState, payer: &AddressBytes, kind: FeeKind, asset: &Denom, payload: &[u8]) -> (r: Result<(), Error>)
    requires
        old(state).wf(),
    ensures
        final(state).wf(),
        match spec_pay_fee(old(state)@, payer@, kind, *asset, payload@.len()) {
            Ok(v) => r is Ok && final(state)@ == v,
            Err(e) => r == Err::<(), Error>(e) && final(state)@ == old(state)@,
        },
{
    let id = asset.to_ibc_prefixed();
    if !state.is_allowed_fee_asset(&id) {
        return Err(Error::FeeAssetNotAllowed);
    }
    let components = match state.get_fees(kind) {
        Some(c) => c,
        None => return Err(Error::FeesNotFound),
    };
    let fee = match calculate_fee(payload, components.multiplier, components.base) {
        Some(f) => f,
        None => return Err(Error::FeeOverflow),
    };
    let balance = state.get_account_balance(payer, &id);
    if balance < fee {
        return Err(Error::InsufficientFunds);
    }
    let collected = state.get_block_fees(&id);
    if collected > u128::MAX - fee {
        return Err(Error::BalanceOverflow);
    }
    state.put_account_balance(*payer, id, balance - fee);
    let r = state.increase_block_fees(id, fee);
    assert(r is Ok);
    Ok(())
}

impl CheckedAction {
    /// Checks an action at position `index` of the transaction `tx_id` signed by `tx_signer`.
    pub fn new(action: Action, tx_signer: AddressBytes, tx_id: TransactionId, index: u64, state: &SequencerState) -> (r: Result<Self, Error>)
        requires
            state.wf(),
        ensures
            match r {
                Ok(c) => spec_action_checks(state@, action, tx_signer, tx_id@, index) is Ok
                    && converted(c, action, state@, tx_signer, tx_id@, index),
                Err(e) => spec_action_checks(state@, action, tx_signer, tx_id@, index) == Err::<(), Error>(e),
            },
    {
        match action {
            Action::RollupDataSubmission(a) => Ok(
                CheckedAction::RollupDataSubmission(CheckedRollupDataSubmission::new(a)?),
            ),
            Action::Transfer(a) => Ok(CheckedAction::Transfer(CheckedTransfer::new(a, tx_signer, state)?)),
            Action::ValidatorUpdate(a) => Ok(
                CheckedAction::ValidatorUpdate(CheckedValidatorUpdate::new(a, tx_signer, state)?),
            ),
            Action::SudoAddressChange(a) => Ok(
                CheckedAction::SudoAddressChange(CheckedSudoAddressChange::new(a, tx_signer, state)?),
            ),
            Action::Ibc(a, passed) => Ok(
                CheckedAction::IbcRelay(CheckedIbcRelay::new(a, passed, tx_signer, state)?),
            ),
            Action::IbcSudoChange(a) => Ok(
                CheckedAction::IbcSudoChange(CheckedIbcSudoChange::new(a, tx_signer, state)?),
            ),
            Action::Ics20Withdrawal(a, memo) => Ok(
                CheckedAction::Ics20Withdrawal(CheckedIcs20Withdrawal::new(a, memo, tx_signer, state)?),
            ),
            Action::IbcRelayerChange(a) => Ok(
                CheckedAction::IbcRelayerChange(CheckedIbcRelayerChange::new(a, tx_signer, state)?),
            ),
            Action::FeeAssetChange(a) => Ok(
                CheckedAction::FeeAssetChange(CheckedFeeAssetChange::new(a, tx_signer, state)?),
            ),
            Action::InitBridgeAccount(a) => Ok(
                CheckedAction::InitBridgeAccount(CheckedInitBridgeAccount::new(a, tx_signer, state)?),
            ),
            Action::BridgeLock(a) => Ok(
                CheckedAction::BridgeLock(CheckedBridgeLock::new(a, tx_signer, tx_id, index, state)?),
            ),
            Action::BridgeUnlock(a) => Ok(
                CheckedAction::BridgeUnlock(CheckedBridgeUnlock::new(a, tx_signer, state)?),
            ),
            Action::BridgeSudoChange(a) => Ok(
                CheckedAction::BridgeSudoChange(CheckedBridgeSudoChange::new(a, tx_signer, state)?),
            ),
            Action::BridgeTransfer(a) => Ok(
                CheckedAction::BridgeTransfer(
                    CheckedBridgeTransfer::new(a, tx_signer, tx_id, index, state)?,
                ),
            ),
            Action::FeeChange(a) => Ok(CheckedAction::FeeChange(CheckedFeeChange::new(a, tx_signer, state)?)),
            Action::RecoverIbcClient(a, subject, substitute) => Ok(
                CheckedAction::RecoverIbcClient(
                    CheckedRecoverIbcClient::new(a, tx_signer, state, &subject, &substitute)?,
                ),
            ),
            Action::MarketsChange(a) => Ok(
                CheckedAction::MarketsChange(CheckedMarketsChange::new(a, tx_signer, state)?),
            ),
        }
    }

    /// The asset and the amount that the action moves out of an account, if it moves any.
    pub fn asset_and_amount_to_transfer(&self) -> (r: Option<(IbcPrefixed, u128)>)
        ensures
            match spec_asset_and_amount(*self) {
                Some((a, n)) => r is Some && r->Some_0.0@ == a && r->Some_0.1 == n,
                None => r is None,
            },
    {
        match self {
            CheckedAction::Transfer(c) => Some(
                (c.action_ref().asset.to_ibc_prefixed(), c.action_ref().amount),
            ),
            CheckedAction::Ics20Withdrawal(c) => Some(c.transfer_asset_and_amount()),
            CheckedAction::BridgeLock(c) => Some(
                (c.action_ref().asset.to_ibc_prefixed(), c.action_ref().amount),
            ),
            CheckedAction::BridgeUnlock(c) => Some(
                (c.bridge_account_ibc_asset(), c.action_ref().amount),
            ),
            CheckedAction::BridgeTransfer(c) => Some(c.transfer_asset_and_amount()),
            _ => None,
        }
    }

    /// Runs the checks of the action that depend on mutable state.
    pub fn run_mutable_checks(&self, state: &SequencerState, report: &IbcReport) -> (r: Result<(), Error>)
        requires
            state.wf(),
        ensures
            r == spec_action_mutable_checks(state@, *self, *report),
    {
        match self {
            CheckedAction::RollupDataSubmission(_) => Ok(()),
            CheckedAction::Transfer(c) => c.run_mutable_checks(state),
            CheckedAction::ValidatorUpdate(c) => c.run_mutable_checks(state),
            CheckedAction::SudoAddressChange(c) => c.run_mutable_checks(state),
            CheckedAction::IbcRelay(c) => c.run_mutable_checks(state),
            CheckedAction::IbcSudoChange(c) => c.run_mutable_checks(state),
            CheckedAction::Ics20Withdrawal(c) => c.run_mutable_checks(state),
            CheckedAction::IbcRelayerChange(c) => c.run_mutable_checks(state),
            CheckedAction::FeeAssetChange(c) => c.run_mutable_checks(state),
            CheckedAction::InitBridgeAccount(c) => c.run_mutable_checks(state),
            CheckedAction::BridgeLock(c) => c.run_mutable_checks(state),
            CheckedAction::BridgeUnlock(c) => c.run_mutable_checks(state),
            CheckedAction::BridgeSudoChange(c) => c.run_mutable_checks(state),
            CheckedAction::BridgeTransfer(c) => c.run_mutable_checks(state),
            CheckedAction::FeeChange(c) => c.run_mutable_checks(state),
            CheckedAction::RecoverIbcClient(c) => match report {
                IbcReport::Clients(subject, substitute) => c.run_mutable_checks(state, subject, substitute),
                _ => Err(Error::ClientStateNotFound),
            },
            CheckedAction::MarketsChange(c) => c.run_mutable_checks(state),
        }
    }

    /// Executes the action, given what the IBC component reports; on failure the state is
    /// unchanged.
    pub fn execute(&self, state: &mut SequencerState, report: &IbcReport) -> (r: Result<(), Error>)
        requires
            old(state).wf(),
        ensures
            final(state).wf(),
            match spec_action_execute(old(state)@, *self, *report) {
                Ok(v) => r is Ok && final(state)@ == v,
                Err(e) => r == Err::<(), Error>(e) && final(state)@ == old(state)@,
            },
    {
        match self {
            CheckedAction::RollupDataSubmission(_) => Ok(()),
            CheckedAction::Transfer(c) => c.execute(state),
            CheckedAction::ValidatorUpdate(c) => c.execute(state),
            CheckedAction::SudoAddressChange(c) => c.execute(state),
            CheckedAction::IbcRelay(c) => {
                c.execute(state)?;
                match report {
                    IbcReport::Passed(true) => Ok(()),
                    _ => Err(Error::IbcExecutionFailed),
                }
            },
            CheckedAction::IbcSudoChange(c) => c.execute(state),
            CheckedAction::Ics20Withdrawal(c) => {
                let passed = match report {
                    IbcReport::Passed(b) => *b,
                    _ => false,
                };
                c.execute(state, passed)
            },
            CheckedAction::IbcRelayerChange(c) => c.execute(state),
            CheckedAction::FeeAssetChange(c) => c.execute(state),
            CheckedAction::InitBridgeAccount(c) => c.execute(state),
            CheckedAction::BridgeLock(c) => c.execute(state),
            CheckedAction::BridgeUnlock(c) => c.execute(state),
            CheckedAction::BridgeSudoChange(c) => c.execute(state),
            CheckedAction::BridgeTransfer(c) => c.execute(state),
            CheckedAction::FeeChange(c) => c.execute(state),
            CheckedAction::RecoverIbcClient(c) => match report {
                IbcReport::Clients(subject, substitute) => {
                    c.execute(state, subject, substitute)?;
                    Ok(())
                },
                _ => Err(Error::ClientStateNotFound),
            },
            CheckedAction::MarketsChange(c) => c.execute(state),
        }
    }

    /// Executes the action, then `tx_signer` pays its fee; on failure the state is unchanged.
    pub fn execute_and_pay_fees(&self, state: &mut SequencerState, tx_signer: &AddressBytes, report: &IbcReport) -> (r: Result<(), Error>)
        requires
            old(state).wf(),
        ensures
            final(state).wf(),
            match spec_execute_and_pay_fees(old(state)@, *self, tx_signer@, *report) {
                Ok(v) => r is Ok && final(state)@ == v,
                Err(e) => r == Err::<(), Error>(e) && final(state)@ == old(state)@,
            },
    {
        reveal(spec_execute_and_pay_fees);
        let mut work = state.dup();
        self.execute(&mut work, report)?;
        let empty: Vec<u8> = Vec::new();
        let paid = match self {
            CheckedAction::RollupDataSubmission(c) => pay_fee(
                &mut work,
                tx_signer,
                FeeKind::RollupDataSubmission,
                &c.action_ref().fee_asset,
                c.action_ref().data.as_slice(),
            ),
            CheckedAction::Transfer(c) => pay_fee(&mut work, tx_signer, FeeKind::Transfer, c.fee_asset(), empty.as_slice()),
            CheckedAction::Ics20Withdrawal(c) => pay_fee(
                &mut work,
                tx_signer,
                FeeKind::Ics20Withdrawal,
                c.fee_asset(),
                empty.as_slice(),
            ),
            CheckedAction::InitBridgeAccount(c) => pay_fee(
                &mut work,
                tx_signer,
                FeeKind::InitBridgeAccount,
                c.fee_asset(),
                empty.as_slice(),
            ),
            CheckedAction::BridgeLock(c) => pay_fee(
                &mut work,
                tx_signer,
                FeeKind::BridgeLock,
                &c.action_ref().fee_asset,
                empty.as_slice(),
            ),
            CheckedAction::BridgeUnlock(c) => pay_fee(
                &mut work,
                tx_signer,
                FeeKind::BridgeUnlock,
                &c.action_ref().fee_asset,
                empty.as_slice(),
            ),
            CheckedAction::BridgeSudoChange(c) => pay_fee(
                &mut work,
                tx_signer,
                FeeKind::BridgeSudoChange,
                c.fee_asset(),
                empty.as_slice(),
            ),
            CheckedAction::BridgeTransfer(c) => pay_fee(
                &mut work,
                tx_signer,
                FeeKind::BridgeTransfer,
                c.fee_asset(),
                empty.as_slice(),
            ),
            _ => Ok(()),
        };
        paid?;
        *state = work;
        Ok(())
    }
}

} // verus!
