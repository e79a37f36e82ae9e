use astria_sequencer::actions::{
    BridgeLock,
    BridgeTransfer,
    BridgeUnlock,
    FeeAssetChange,
    FeeChange,
    IbcHeight,
    IbcRelayerChange,
    IbcSudoChange,
    Ics20Withdrawal,
    Ics20WithdrawalFromRollup,
    InitBridgeAccount,
    MarketsChange,
    SudoAddressChange,
    Transfer,
    ValidatorUpdate,
};
use astria_sequencer::checked_actions::bridge_lock::CheckedBridgeLock;
use astria_sequencer::checked_actions::bridge_transfer::CheckedBridgeTransfer;
use astria_sequencer::checked_actions::bridge_unlock::CheckedBridgeUnlock;
use astria_sequencer::checked_actions::fee_asset_change::CheckedFeeAssetChange;
use astria_sequencer::checked_actions::fee_change::CheckedFeeChange;
use astria_sequencer::checked_actions::ibc_relayer_change::CheckedIbcRelayerChange;
use astria_sequencer::checked_actions::ibc_sudo_change::CheckedIbcSudoChange;
use astria_sequencer::checked_actions::ics20_withdrawal::{is_source, CheckedIcs20Withdrawal};
use astria_sequencer::checked_actions::init_bridge_account::CheckedInitBridgeAccount;
use astria_sequencer::checked_actions::markets_change::CheckedMarketsChange;
use astria_sequencer::checked_actions::sudo_address_change::CheckedSudoAddressChange;
use astria_sequencer::checked_actions::transfer::CheckedTransfer;
use astria_sequencer::checked_actions::validator_update::CheckedValidatorUpdate;
use astria_sequencer::error::Error;
use astria_sequencer::map::AssocMap;
use astria_sequencer::primitive::{Address, Denom, TracePrefixed, TraceSegment};
use astria_sequencer::state::{FeeComponents, FeeKind, Market, SequencerState};

const SUDO: [u8; 20] = [7; 20];
const SIGNER: [u8; 20] = [1; 20];
const BRIDGE: [u8; 20] = [50; 20];

fn nria() -> TracePrefixed {
    TracePrefixed { trace: vec![], base_denom: "nria".to_string() }
}

fn nria_denom() -> Denom {
    Denom::TracePrefixed(nria())
}

fn nria_id() -> [u8; 32] {
    nria_denom().to_ibc_prefixed()
}

fn address(bytes: [u8; 20]) -> Address {
    Address { bytes, prefix: "astria".to_string() }
}

fn fixture() -> SequencerState {
    let mut state = SequencerState::new();
    state.set_base_prefix("astria".to_string());
    state.set_ibc_compat_prefix("astriacompat".to_string());
    state.put_sudo_address(SUDO);
    state.put_ibc_sudo_address(SUDO);
    state.put_ibc_asset(nria());
    state.put_allowed_fee_asset(nria_id());
    state.put_block_height(10);
    state.put_block_timestamp(1_000);
    state
}

fn with_bridge(mut state: SequencerState) -> SequencerState {
    state.put_bridge_account_rollup_id(BRIDGE, [3; 32]);
    state.put_bridge_account_ibc_asset(BRIDGE, nria_id());
    state.put_bridge_account_withdrawer_address(BRIDGE, SIGNER);
    state.put_bridge_account_sudo_address(BRIDGE, SIGNER);
    state
}

fn withdrawal(bridge_address: Option<Address>, memo: &str) -> Ics20Withdrawal {
    Ics20Withdrawal {
        amount: 100,
        denom: nria_denom(),
        destination_chain_address: "test-chain".to_string(),
        return_address: address(SIGNER),
        timeout_height: IbcHeight { revision_number: 10, revision_height: 1 },
        timeout_time: 100_000_000_000,
        source_channel: "channel-0".to_string(),
        fee_asset: nria_denom(),
        memo: memo.to_string(),
        bridge_address,
        use_compat_address: false,
    }
}

fn rollup_withdrawal() -> Ics20WithdrawalFromRollup {
    Ics20WithdrawalFromRollup {
        rollup_block_number: 2,
        rollup_withdrawal_event_id: "event-1".to_string(),
        rollup_return_address: "abc".to_string(),
        memo: "a memo".to_string(),
    }
}

#[test]
fn todo() {
    // The original test of this name is a placeholder; here: a plain withdrawal checks.
    let mut state = fixture();
    state.put_account_balance(SIGNER, nria_id(), 1_000);
    assert!(CheckedIcs20Withdrawal::new(withdrawal(None, ""), None, SIGNER, &state).is_ok());
}

#[test]
fn ics20_withdrawal_escrows_or_debits_bridge() {
    // Without a bridge address the signer's funds leave, and are escrowed on the channel.
    let mut state = fixture();
    state.put_account_balance(SIGNER, nria_id(), 1_000);
    let checked = CheckedIcs20Withdrawal::new(withdrawal(None, ""), None, SIGNER, &state).ok().unwrap();
    assert_eq!(checked.execute(&mut state, true), Ok(()));
    assert_eq!(state.get_account_balance(&SIGNER, &nria_id()), 900);
    assert_eq!(state.get_ibc_channel_balance(&"channel-0".to_string(), &nria_id()), 100);

    // With a bridge address the bridge account's funds leave, and the event is recorded.
    let mut state = with_bridge(fixture());
    state.put_account_balance(BRIDGE, nria_id(), 1_000);
    state.put_account_balance(SIGNER, nria_id(), 1_000);
    let checked = CheckedIcs20Withdrawal::new(
        withdrawal(Some(address(BRIDGE)), "{}"),
        Some(rollup_withdrawal()),
        SIGNER,
        &state,
    )
    .ok()
    .unwrap();
    assert_eq!(checked.execute(&mut state, true), Ok(()));
    assert_eq!(state.get_account_balance(&BRIDGE, &nria_id()), 900);
    assert_eq!(state.get_account_balance(&SIGNER, &nria_id()), 1_000);
    assert_eq!(
        state.get_withdrawal_event_block_for_bridge_account(&BRIDGE, &"event-1".to_string()),
        Some(2)
    );
    // The same event cannot be withdrawn again.
    assert_eq!(checked.execute(&mut state, true), Err(Error::WithdrawalEventAlreadyUsed));
}

#[test]
fn ics20_withdrawal_construction_errors() {
    let state = fixture();
    let mut action = withdrawal(None, "");
    action.timeout_time = 0;
    assert_eq!(CheckedIcs20Withdrawal::new(action, None, SIGNER, &state).err(), Some(Error::ZeroTimeoutTime));
    let mut action = withdrawal(None, "");
    action.amount = 0;
    assert_eq!(CheckedIcs20Withdrawal::new(action, None, SIGNER, &state).err(), Some(Error::ZeroAmount));
    let mut action = withdrawal(None, "");
    action.return_address.prefix = "other".to_string();
    assert_eq!(
        CheckedIcs20Withdrawal::new(action, None, SIGNER, &state).err(),
        Some(Error::AddressPrefixMismatch)
    );
    let state = with_bridge(fixture());
    assert_eq!(
        CheckedIcs20Withdrawal::new(withdrawal(Some(address(BRIDGE)), "not json"), None, SIGNER, &state).err(),
        Some(Error::InvalidMemo)
    );
    let mut memo = rollup_withdrawal();
    memo.rollup_return_address = String::new();
    assert_eq!(
        CheckedIcs20Withdrawal::new(withdrawal(Some(address(BRIDGE)), "{}"), Some(memo), SIGNER, &state).err(),
        Some(Error::EmptyRollupReturnAddress)
    );
    let mut memo = rollup_withdrawal();
    memo.rollup_block_number = 0;
    assert_eq!(
        CheckedIcs20Withdrawal::new(withdrawal(Some(address(BRIDGE)), "{}"), Some(memo), SIGNER, &state).err(),
        Some(Error::ZeroRollupBlockNumber)
    );
    assert_eq!(
        CheckedIcs20Withdrawal::new(withdrawal(Some(address(BRIDGE)), "{}"), Some(rollup_withdrawal()), [9; 20], &state)
            .err(),
        Some(Error::NotAuthorized)
    );
    // A bridge account must name itself as the source.
    assert_eq!(
        CheckedIcs20Withdrawal::new(withdrawal(None, ""), None, BRIDGE, &state).err(),
        Some(Error::SignerIsBridgeWithoutBridgeAddress)
    );
}

#[test]
fn ics20_withdrawal_packet_and_failed_check() {
    let mut state = fixture();
    state.put_account_balance(SIGNER, nria_id(), 1_000);
    let checked = CheckedIcs20Withdrawal::new(withdrawal(None, "hello"), None, SIGNER, &state).ok().unwrap();
    let packet = checked.ibc_packet();
    assert_eq!(packet.source_port, "transfer");
    assert_eq!(packet.source_channel, "channel-0");
    assert_eq!(packet.timeout_timestamp, 100_000_000_000);
    assert_eq!(packet.data.amount, "100");
    assert_eq!(packet.data.denom, "nria");
    assert_eq!(packet.data.receiver, "test-chain");
    assert_eq!(packet.data.memo, "hello");
    assert!(packet.data.sender.starts_with("astria1"));
    assert_eq!(checked.execute(&mut state, false), Err(Error::IbcPacketCheckFailed));
    assert_eq!(state.get_account_balance(&SIGNER, &nria_id()), 1_000);
    let mut poor = fixture();
    assert_eq!(checked.execute(&mut poor, true), Err(Error::InsufficientFunds));
}

#[test]
fn ics20_withdrawal_compat_sender_uses_compat_prefix() {
    let state = fixture();
    let mut action = withdrawal(None, "");
    action.use_compat_address = true;
    let checked = CheckedIcs20Withdrawal::new(action, None, SIGNER, &state).ok().unwrap();
    assert!(checked.ibc_packet().data.sender.starts_with("astriacompat1"));
    let mut state = SequencerState::new();
    state.set_base_prefix("astria".to_string());
    let mut action = withdrawal(None, "");
    action.use_compat_address = true;
    assert_eq!(
        CheckedIcs20Withdrawal::new(action, None, SIGNER, &state).err(),
        Some(Error::IbcCompatPrefixNotFound)
    );
}

#[test]
fn is_source_follows_trace() {
    let port = "transfer".to_string();
    let channel = "channel-0".to_string();
    assert!(is_source(&port, &channel, &nria_denom()));
    let returning = Denom::TracePrefixed(TracePrefixed {
        trace: vec![TraceSegment { port: "transfer".to_string(), channel: "channel-0".to_string() }],
        base_denom: "utia".to_string(),
    });
    assert!(!is_source(&port, &channel, &returning));
    assert!(!is_source(&port, &channel, &Denom::IbcPrefixed([1; 32])));
}

#[test]
fn transfer_moves_funds() {
    let mut state = fixture();
    state.put_account_balance(SIGNER, nria_id(), 100);
    let action = Transfer { to: address([2; 20]), asset: nria_denom(), amount: 40, fee_asset: nria_denom() };
    let checked = CheckedTransfer::new(action, SIGNER, &state).ok().unwrap();
    assert_eq!(checked.execute(&mut state), Ok(()));
    assert_eq!(state.get_account_balance(&SIGNER, &nria_id()), 60);
    assert_eq!(state.get_account_balance(&[2; 20], &nria_id()), 40);
    assert_eq!(checked.execute(&mut state), Ok(()));
    assert_eq!(checked.execute(&mut state), Err(Error::InsufficientFunds));
    assert_eq!(state.get_account_balance(&SIGNER, &nria_id()), 20);
}

#[test]
fn transfer_checks_prefix_and_bridge() {
    let state = with_bridge(fixture());
    let mut to = address([2; 20]);
    to.prefix = "other".to_string();
    let action = Transfer { to, asset: nria_denom(), amount: 1, fee_asset: nria_denom() };
    assert_eq!(CheckedTransfer::new(action, SIGNER, &state).err(), Some(Error::AddressPrefixMismatch));
    let action = Transfer { to: address([2; 20]), asset: nria_denom(), amount: 1, fee_asset: nria_denom() };
    assert_eq!(CheckedTransfer::new(action, BRIDGE, &state).err(), Some(Error::IsBridgeAccount));
    let action = Transfer { to: address([2; 20]), asset: nria_denom(), amount: 1, fee_asset: nria_denom() };
    assert_eq!(
        CheckedTransfer::new(action, SIGNER, &SequencerState::new()).err(),
        Some(Error::BasePrefixNotFound)
    );
}

fn lock(amount: u128) -> BridgeLock {
    BridgeLock {
        to: address(BRIDGE),
        amount,
        asset: nria_denom(),
        fee_asset: nria_denom(),
        destination_chain_address: "rollup-address".to_string(),
    }
}

#[test]
fn bridge_lock_deposits() {
    let mut state = with_bridge(fixture());
    state.put_account_balance(SIGNER, nria_id(), 100);
    let checked = CheckedBridgeLock::new(lock(30), SIGNER, [4; 32], 2, &state).ok().unwrap();
    assert_eq!(checked.tx_id(), [4; 32]);
    assert_eq!(checked.position_in_tx(), 2);
    assert_eq!(checked.execute(&mut state), Ok(()));
    assert_eq!(state.get_account_balance(&SIGNER, &nria_id()), 70);
    assert_eq!(state.get_account_balance(&BRIDGE, &nria_id()), 30);
    let state = fixture();
    assert_eq!(
        CheckedBridgeLock::new(lock(30), SIGNER, [4; 32], 2, &state).err(),
        Some(Error::NotBridgeAccount)
    );
    let state = with_bridge(fixture());
    let mut wrong_asset = lock(30);
    wrong_asset.asset = Denom::IbcPrefixed([8; 32]);
    assert_eq!(
        CheckedBridgeLock::new(wrong_asset, SIGNER, [4; 32], 2, &state).err(),
        Some(Error::AssetNotAllowedForBridge)
    );
    assert_eq!(CheckedBridgeLock::new(lock(30), BRIDGE, [4; 32], 2, &state).err(), Some(Error::IsBridgeAccount));
}

fn unlock(event_id: &str) -> BridgeUnlock {
    BridgeUnlock {
        to: address([2; 20]),
        amount: 10,
        memo: "rollup memo".to_string(),
        rollup_withdrawal_event_id: event_id.to_string(),
        rollup_block_number: 5,
        fee_asset: nria_denom(),
        bridge_address: address(BRIDGE),
    }
}

#[test]
fn bridge_unlock_uses_event_once() {
    let mut state = with_bridge(fixture());
    state.put_account_balance(BRIDGE, nria_id(), 100);
    let checked = CheckedBridgeUnlock::new(unlock("a-rollup-defined-hash"), SIGNER, &state).ok().unwrap();
    assert_eq!(checked.execute(&mut state), Ok(()));
    assert_eq!(state.get_account_balance(&BRIDGE, &nria_id()), 90);
    assert_eq!(state.get_account_balance(&[2; 20], &nria_id()), 10);
    assert_eq!(checked.execute(&mut state), Err(Error::WithdrawalEventAlreadyUsed));
    assert_eq!(
        CheckedBridgeUnlock::new(unlock("a-rollup-defined-hash"), SIGNER, &state).err(),
        Some(Error::WithdrawalEventAlreadyUsed)
    );
}

#[test]
fn bridge_unlock_stateless_checks() {
    let state = with_bridge(fixture());
    let mut a = unlock("x");
    a.amount = 0;
    assert_eq!(CheckedBridgeUnlock::new(a, SIGNER, &state).err(), Some(Error::ZeroAmount));
    let mut a = unlock("x");
    a.memo = "m".repeat(65);
    assert_eq!(CheckedBridgeUnlock::new(a, SIGNER, &state).err(), Some(Error::MemoTooLong));
    assert_eq!(CheckedBridgeUnlock::new(unlock(""), SIGNER, &state).err(), Some(Error::EmptyWithdrawalEventId));
    assert_eq!(
        CheckedBridgeUnlock::new(unlock(&"e".repeat(257)), SIGNER, &state).err(),
        Some(Error::WithdrawalEventIdTooLong)
    );
    let mut a = unlock("x");
    a.rollup_block_number = 0;
    assert_eq!(CheckedBridgeUnlock::new(a, SIGNER, &state).err(), Some(Error::ZeroRollupBlockNumber));
    assert_eq!(CheckedBridgeUnlock::new(unlock("x"), [9; 20], &state).err(), Some(Error::NotAuthorized));
}

#[test]
fn bridge_transfer_moves_between_bridges() {
    let mut state = with_bridge(fixture());
    let other = [60u8; 20];
    state.put_bridge_account_rollup_id(other, [5; 32]);
    state.put_bridge_account_ibc_asset(other, nria_id());
    state.put_account_balance(BRIDGE, nria_id(), 100);
    let action = BridgeTransfer {
        to: address(other),
        amount: 25,
        fee_asset: nria_denom(),
        destination_chain_address: "rollup".to_string(),
        bridge_address: address(BRIDGE),
        rollup_block_number: 10,
        rollup_withdrawal_event_id: "a-rollup-defined-hash".to_string(),
    };
    let checked = CheckedBridgeTransfer::new(action, SIGNER, [10; 32], 11, &state).ok().unwrap();
    assert_eq!(checked.transfer_asset_and_amount(), (nria_id(), 25));
    assert_eq!(checked.execute(&mut state), Ok(()));
    assert_eq!(state.get_account_balance(&BRIDGE, &nria_id()), 75);
    assert_eq!(state.get_account_balance(&other, &nria_id()), 25);
    assert_eq!(checked.execute(&mut state), Err(Error::WithdrawalEventAlreadyUsed));
}

#[test]
fn init_bridge_account_then_again_fails() {
    let mut state = fixture();
    let action = InitBridgeAccount {
        rollup_id: [3; 32],
        asset: nria_denom(),
        fee_asset: nria_denom(),
        sudo_address: None,
        withdrawer_address: Some(address([4; 20])),
    };
    let checked = CheckedInitBridgeAccount::new(action, SIGNER, &state).ok().unwrap();
    assert_eq!(checked.execute(&mut state), Ok(()));
    assert!(state.is_a_bridge_account(&SIGNER));
    assert_eq!(state.get_bridge_account_sudo_address(&SIGNER), Some(SIGNER));
    assert_eq!(state.get_bridge_account_withdrawer_address(&SIGNER), Some([4; 20]));
    assert_eq!(checked.execute(&mut state), Err(Error::BridgeAccountAlreadyExists));
}

#[test]
fn sudo_changes_need_sudo() {
    let mut state = fixture();
    let action = SudoAddressChange { new_address: address([8; 20]) };
    assert_eq!(CheckedSudoAddressChange::new(action, SIGNER, &state).err(), Some(Error::NotAuthorized));
    let action = SudoAddressChange { new_address: address([8; 20]) };
    let checked = CheckedSudoAddressChange::new(action, SUDO, &state).ok().unwrap();
    assert_eq!(checked.execute(&mut state), Ok(()));
    assert_eq!(state.sudo_address(), Some([8; 20]));
    assert_eq!(checked.execute(&mut state), Err(Error::NotAuthorized));
    let action = IbcSudoChange { new_address: address([9; 20]) };
    let checked = CheckedIbcSudoChange::new(action, [8; 20], &state).ok().unwrap();
    assert_eq!(checked.execute(&mut state), Ok(()));
    assert_eq!(state.ibc_sudo_address(), Some([9; 20]));
}

#[test]
fn fee_changes() {
    let mut state = fixture();
    let action = FeeChange { kind: FeeKind::Transfer, fees: FeeComponents { base: 3, multiplier: 1 } };
    let checked = CheckedFeeChange::new(action, SUDO, &state).ok().unwrap();
    assert_eq!(checked.execute(&mut state), Ok(()));
    assert_eq!(state.get_fees(FeeKind::Transfer), Some(FeeComponents { base: 3, multiplier: 1 }));

    let checked = CheckedFeeAssetChange::new(FeeAssetChange::Removal(nria_denom()), SUDO, &state).ok().unwrap();
    assert_eq!(checked.execute(&mut state), Err(Error::LastFeeAsset));
    assert!(state.is_allowed_fee_asset(&nria_id()));
    let other = Denom::IbcPrefixed([6; 32]);
    let checked = CheckedFeeAssetChange::new(FeeAssetChange::Addition(other), SUDO, &state).ok().unwrap();
    assert_eq!(checked.execute(&mut state), Ok(()));
    let checked = CheckedFeeAssetChange::new(FeeAssetChange::Removal(nria_denom()), SUDO, &state).ok().unwrap();
    assert_eq!(checked.execute(&mut state), Ok(()));
    assert!(!state.is_allowed_fee_asset(&nria_id()));
    assert!(state.is_allowed_fee_asset(&[6; 32]));
}

#[test]
fn relayer_changes() {
    let mut state = fixture();
    let checked = CheckedIbcRelayerChange::new(IbcRelayerChange::Addition(address([5; 20])), SUDO, &state).ok().unwrap();
    assert_eq!(checked.execute(&mut state), Ok(()));
    assert!(state.is_ibc_relayer(&[5; 20]));
    let checked = CheckedIbcRelayerChange::new(IbcRelayerChange::Removal(address([5; 20])), SUDO, &state).ok().unwrap();
    assert_eq!(checked.execute(&mut state), Ok(()));
    assert!(!state.is_ibc_relayer(&[5; 20]));
    assert_eq!(
        CheckedIbcRelayerChange::new(IbcRelayerChange::Addition(address([5; 20])), SIGNER, &state).err(),
        Some(Error::NotAuthorized)
    );
}

#[test]
fn validator_updates() {
    let mut state = fixture();
    state.put_validator([1; 32], 10);
    let removal = ValidatorUpdate { power: 0, verification_key: [1; 32] };
    assert_eq!(CheckedValidatorUpdate::new(removal, SUDO, &state).err(), Some(Error::LastValidator));
    let removal = ValidatorUpdate { power: 0, verification_key: [2; 32] };
    assert_eq!(CheckedValidatorUpdate::new(removal, SUDO, &state).err(), Some(Error::ValidatorNotFound));
    let update = ValidatorUpdate { power: 5, verification_key: [2; 32] };
    let checked = CheckedValidatorUpdate::new(update, SUDO, &state).ok().unwrap();
    assert_eq!(checked.execute(&mut state), Ok(()));
    let updates = state.get_validator_updates();
    assert_eq!(updates.get(&[2; 32]), Some(&5));
}

fn market(pair: &str, decimals: u64) -> Market {
    Market { currency_pair: pair.to_string(), decimals, min_provider_count: 1, enabled: true }
}

#[test]
fn markets_change_create_update_remove() {
    let mut state = fixture();
    let checked = CheckedMarketsChange::new(MarketsChange::Creation(vec![market("BTC/USD", 8)]), SUDO, &state).ok().unwrap();
    assert_eq!(checked.execute(&mut state), Err(Error::MarketMapNotFound));
    state.put_market_map(AssocMap::new());
    assert_eq!(checked.execute(&mut state), Ok(()));
    assert_eq!(checked.execute(&mut state), Err(Error::MarketAlreadyExists));
    let update = CheckedMarketsChange::new(MarketsChange::Update(vec![market("BTC/USD", 9)]), SUDO, &state).ok().unwrap();
    assert_eq!(update.execute(&mut state), Ok(()));
    assert_eq!(state.get_market_map().unwrap().get(&"BTC/USD".to_string()).unwrap().decimals, 9);
    let missing = CheckedMarketsChange::new(MarketsChange::Update(vec![market("ETH/USD", 9)]), SUDO, &state).ok().unwrap();
    assert_eq!(missing.execute(&mut state), Err(Error::MarketNotFound));
    let removal = CheckedMarketsChange::new(MarketsChange::Removal(vec![market("BTC/USD", 0)]), SUDO, &state).ok().unwrap();
    assert_eq!(removal.execute(&mut state), Ok(()));
    assert_eq!(state.get_market_map().unwrap().len(), 0);
    assert_eq!(update.execute(&mut state), Err(Error::MarketMapEmpty));
    assert_eq!(
        CheckedMarketsChange::new(MarketsChange::Removal(vec![]), SIGNER, &state).err(),
        Some(Error::NotAuthorized)
    );
}
