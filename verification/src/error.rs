//! Errors of state access, actions and transactions.
use vstd::prelude::*;

verus! {

/// Why a read, a check or an execution failed.
#[derive(Debug, Clone, Copy, PartialEq, Eq, Structural)]
pub enum Error {
    /// No base address prefix is stored.
    BasePrefixNotFound,
    /// An address has a prefix other than the stored base prefix.
    AddressPrefixMismatch,
    /// A prefix is not a valid human-readable address prefix.
    InvalidPrefix,
    /// No sudo address is stored.
    SudoAddressNotFound,
    /// No IBC sudo address is stored.
    IbcSudoAddressNotFound,
    /// The transaction signer is not the address authorized for the action.
    NotAuthorized,
    /// The account is a bridge account, which the action does not allow.
    IsBridgeAccount,
    /// The account is not a bridge account.
    NotBridgeAccount,
    /// The bridge account already exists.
    BridgeAccountAlreadyExists,
    /// The bridge account has no sudo address.
    BridgeSudoAddressNotFound,
    /// The bridge account has no withdrawer address.
    BridgeWithdrawerNotFound,
    /// The bridge account has no asset.
    BridgeAssetNotFound,
    /// The asset does not match the bridge account's asset.
    AssetNotAllowedForBridge,
    /// An IBC-prefixed asset has no trace-prefixed entry.
    IbcAssetNotFound,
    /// The rollup withdrawal event was already used.
    WithdrawalEventAlreadyUsed,
    /// The fee asset is not allowed.
    FeeAssetNotAllowed,
    /// The account balance does not cover the amount.
    InsufficientFunds,
    /// A balance or sum would exceed `u128::MAX`.
    BalanceOverflow,
    /// A fee computation overflowed.
    FeeOverflow,
    /// No fee components are stored for the action.
    FeesNotFound,
    /// Removing the last allowed fee asset is not allowed.
    LastFeeAsset,
    /// The amount must be greater than zero.
    ZeroAmount,
    /// The memo is longer than allowed.
    MemoTooLong,
    /// The rollup withdrawal event ID is empty.
    EmptyWithdrawalEventId,
    /// The rollup withdrawal event ID is longer than allowed.
    WithdrawalEventIdTooLong,
    /// The rollup block number must be greater than zero.
    ZeroRollupBlockNumber,
    /// The rollup return address is empty.
    EmptyRollupReturnAddress,
    /// The rollup return address is longer than allowed.
    RollupReturnAddressTooLong,
    /// The timeout time must be non-zero.
    ZeroTimeoutTime,
    /// The payload data is empty.
    EmptyData,
    /// Removing a validator that is not in the set.
    ValidatorNotFound,
    /// Removing the only validator.
    LastValidator,
    /// No market map is stored.
    MarketMapNotFound,
    /// A market for the ticker already exists.
    MarketAlreadyExists,
    /// No market exists for the ticker.
    MarketNotFound,
    /// The market map is empty.
    MarketMapEmpty,
    /// No block height is stored.
    BlockHeightNotFound,
    /// No native asset is stored.
    NativeAssetNotFound,
    /// A stored value that was looked up does not exist.
    NotFound,
    /// The transaction bytes do not decode as a signed transaction.
    TransactionDecodeFailed,
    /// A signer that is a bridge account must set the bridge address.
    SignerIsBridgeWithoutBridgeAddress,
    /// The memo of a withdrawal from a bridge account does not parse.
    InvalidMemo,
    /// No block timestamp is stored.
    BlockTimestampNotFound,
    /// The IBC packet failed its send check.
    IbcPacketCheckFailed,
    /// No IBC compatible address prefix is stored.
    IbcCompatPrefixNotFound,
    /// An address cannot be written in its bech32 text form.
    AddressEncodingFailed,
    /// The database was initialized before.
    DatabaseAlreadyInitialized,
    /// The IBC component failed to execute a relayed message.
    IbcExecutionFailed,
    /// An IBC message failed its stateless checks.
    IbcStatelessCheckFailed,
    /// The IBC client to recover is active.
    ClientActive,
    /// The substitute IBC client is not active.
    SubstituteClientNotActive,
    /// An IBC client has no stored state.
    ClientStateNotFound,
    /// The substitute IBC client is not at a higher height than the client to recover.
    SubstituteHeightNotHigher,
    /// The substitute IBC client's trust level differs from the recovered client's.
    TrustLevelMismatch,
    /// The substitute IBC client's unbonding period differs from the recovered client's.
    UnbondingPeriodMismatch,
    /// The substitute IBC client's maximum clock drift differs from the recovered client's.
    MaxClockDriftMismatch,
    /// The substitute IBC client's proof specifications differ from the recovered client's.
    ProofSpecsMismatch,
    /// The substitute IBC client's upgrade path differs from the recovered client's.
    UpgradePathMismatch,
}

} // verus!
