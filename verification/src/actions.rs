//! The actions a transaction can carry.
use vstd::prelude::*;

use crate::primitive::{Address, Denom, RollupId};
use crate::checked_actions::recover_ibc_client::ClientInfo;
use crate::state::{FeeComponents, FeeKind, Market};

verus! {

/// Sends `amount` of `asset` to `to`.
pub struct Transfer {
    pub to: Address,
    pub asset: Denom,
    pub amount: u128,
    pub fee_asset: Denom,
}

/// Replaces the sudo address.
pub struct SudoAddressChange {
    pub new_address: Address,
}

/// Replaces the IBC sudo address.
pub struct IbcSudoChange {
    pub new_address: Address,
}

/// Registers or unregisters an IBC relayer.
pub enum IbcRelayerChange {
    Addition(Address),
    Removal(Address),
}

/// Allows or disallows an asset to pay fees.
pub enum FeeAssetChange {
    Addition(Denom),
    Removal(Denom),
}

/// Replaces the fee components of one kind of action.
pub struct FeeChange {
    pub kind: FeeKind,
    pub fees: FeeComponents,
}

/// Turns the signer's account into a bridge account for a rollup.
pub struct InitBridgeAccount {
    pub rollup_id: RollupId,
    pub asset: Denom,
    pub fee_asset: Denom,
    pub sudo_address: Option<Address>,
    pub withdrawer_address: Option<Address>,
}

/// Locks funds into a bridge account, depositing them into its rollup.
pub struct BridgeLock {
    pub to: Address,
    pub amount: u128,
    pub asset: Denom,
    pub fee_asset: Denom,
    pub destination_chain_address: String,
}

/// Withdraws funds from a bridge account.
pub struct BridgeUnlock {
    pub to: Address,
    pub amount: u128,
    pub memo: String,
    pub rollup_withdrawal_event_id: String,
    pub rollup_block_number: u64,
    pub fee_asset: Denom,
    pub bridge_address: Address,
}

/// Replaces the sudo and withdrawer addresses of a bridge account.
pub struct BridgeSudoChange {
    pub bridge_address: Address,
    pub new_sudo_address: Option<Address>,
    pub new_withdrawer_address: Option<Address>,
    pub fee_asset: Denom,
}

/// Moves funds from one bridge account into another.
pub struct BridgeTransfer {
    pub to: Address,
    pub amount: u128,
    pub fee_asset: Denom,
    pub destination_chain_address: String,
    pub bridge_address: Address,
    pub rollup_block_number: u64,
    pub rollup_withdrawal_event_id: String,
}

/// An IBC message to relay, in its encoded form; the IBC component handles it.
pub struct IbcRelay {
    pub raw: Vec<u8>,
}

/// Replaces an expired or frozen IBC client by an active substitute.
pub struct RecoverIbcClient {
    pub client_id: String,
    pub replacement_client_id: String,
}

/// Changes the power of a validator; power zero removes it.
pub struct ValidatorUpdate {
    pub power: u64,
    pub verification_key: [u8; 32],
}

/// Submits data for a rollup.
pub struct RollupDataSubmission {
    pub rollup_id: RollupId,
    pub data: Vec<u8>,
    pub fee_asset: Denom,
}

/// Creates, removes or updates price-feed markets.
pub enum MarketsChange {
    Creation(Vec<Market>),
    Removal(Vec<Market>),
    Update(Vec<Market>),
}

/// The memo of an ICS20 withdrawal from a bridge account.
pub struct Ics20WithdrawalFromRollup {
    pub rollup_block_number: u64,
    pub rollup_withdrawal_event_id: String,
    pub rollup_return_address: String,
    pub memo: String,
}

/// A height on a counterparty chain: its revision and the height within it.
#[derive(Debug, Clone, Copy, PartialEq, Eq, Structural)]
pub struct IbcHeight {
    pub revision_number: u64,
    pub revision_height: u64,
}

/// Withdraws funds to another chain over IBC.
pub struct Ics20Withdrawal {
    pub amount: u128,
    pub denom: Denom,
    pub destination_chain_address: String,
    pub return_address: Address,
    pub timeout_height: IbcHeight,
    pub timeout_time: u64,
    pub source_channel: String,
    pub fee_asset: Denom,
    pub memo: String,
    pub bridge_address: Option<Address>,
    pub use_compat_address: bool,
}

/// An action of a transaction, with what components outside this library reported on it
/// when it was received.
pub enum Action {
    RollupDataSubmission(RollupDataSubmission),
    Transfer(Transfer),
    ValidatorUpdate(ValidatorUpdate),
    SudoAddressChange(SudoAddressChange),
    /// An IBC message, with whether it passed the IBC component's stateless checks.
    Ibc(IbcRelay, bool),
    IbcSudoChange(IbcSudoChange),
    /// A withdrawal, with what parsing its memo as a withdrawal from a rollup gave, if it parsed.
    Ics20Withdrawal(Ics20Withdrawal, Option<Ics20WithdrawalFromRollup>),
    IbcRelayerChange(IbcRelayerChange),
    FeeAssetChange(FeeAssetChange),
    InitBridgeAccount(InitBridgeAccount),
    BridgeLock(BridgeLock),
    BridgeUnlock(BridgeUnlock),
    BridgeSudoChange(BridgeSudoChange),
    BridgeTransfer(BridgeTransfer),
    FeeChange(FeeChange),
    /// A recovery, with what the IBC component reports of the client and of its substitute.
    RecoverIbcClient(RecoverIbcClient, ClientInfo, ClientInfo),
    MarketsChange(MarketsChange),
}

} // verus!
