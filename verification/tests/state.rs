use astria_sequencer::actions::{FeeAssetChange, IbcRelayerChange, InitBridgeAccount, RollupDataSubmission, Transfer, ValidatorUpdate};
use astria_sequencer::address::{
    ensure_base_prefix_cached,
    get_base_prefix,
    put_base_prefix,
    try_base_prefixed,
    try_construct_dummy_address_from_prefix,
};
use astria_sequencer::cache::{Cached, StateCache};
use astria_sequencer::components::{
    accounts_init_chain,
    authority_begin_block,
    authority_end_block,
    authority_init_chain,
    get_ics20_withdrawal_base_fee,
    ibc_init_chain,
};
use astria_sequencer::error::Error;
use astria_sequencer::handlers::{check_transfer, execute_transfer};
use astria_sequencer::primitive::{Address, Denom, TracePrefixed};
use astria_sequencer::state::{FeeComponents, FeeKind, SequencerBlock, SequencerState};
use sha2::Digest;

fn nria() -> TracePrefixed {
    TracePrefixed { trace: vec![], base_denom: "nria".to_string() }
}

fn nria_denom() -> Denom {
    Denom::TracePrefixed(nria())
}

fn nria_id() -> [u8; 32] {
    nria_denom().to_ibc_prefixed()
}

fn address(byte: u8) -> Address {
    Address { bytes: [byte; 20], prefix: "astria".to_string() }
}

fn block(height: u64, hash: u8) -> SequencerBlock {
    SequencerBlock { height, block_hash: [hash; 32], rollup_ids: vec![[1; 32], [2; 32]], data: vec![height as u8] }
}

#[test]
fn asset_id_is_sha256_of_denom_text() {
    let expected: [u8; 32] = sha2::Sha256::digest(b"nria").into();
    assert_eq!(nria_id(), expected);
    let traced = Denom::TracePrefixed(TracePrefixed {
        trace: vec![astria_sequencer::primitive::TraceSegment {
            port: "transfer".to_string(),
            channel: "channel-0".to_string(),
        }],
        base_denom: "utia".to_string(),
    });
    let expected: [u8; 32] = sha2::Sha256::digest(b"transfer/channel-0/utia").into();
    assert_eq!(traced.to_ibc_prefixed(), expected);
    assert_eq!(traced.to_text(), "transfer/channel-0/utia");
    assert_eq!(Denom::IbcPrefixed([0xab; 32]).to_text(), format!("ibc/{}", "ab".repeat(32)));
}

#[test]
fn put_sequencer_block() {
    let mut state = SequencerState::new();
    state.put_sequencer_block(block(2, 7));
    let stored = state.get_sequencer_block_by_height(2).ok().unwrap();
    assert_eq!(stored.block_hash, [7; 32]);
    assert_eq!(stored.data, vec![2]);
    state.put_sequencer_block(block(3, 8));
    assert_eq!(state.get_sequencer_block_by_height(2).ok().unwrap().block_hash, [7; 32]);
    assert_eq!(state.get_sequencer_block_by_height(3).ok().unwrap().block_hash, [8; 32]);
    assert_eq!(state.get_block_hash_by_height(3), Ok([8; 32]));
    assert_eq!(state.get_rollup_ids_by_block_hash(&[8; 32]), Ok(vec![[1; 32], [2; 32]]));
    assert_eq!(state.get_sequencer_block_by_height(4).err(), Some(Error::NotFound));
    assert_eq!(state.get_rollup_ids_by_block_hash(&[9; 32]).err(), Some(Error::NotFound));
}

#[test]
fn put_sequencer_block_update() {
    let mut state = SequencerState::new();
    state.put_sequencer_block(block(2, 7));
    state.put_sequencer_block(block(2, 9));
    assert_eq!(state.get_sequencer_block_by_height(2).ok().unwrap().block_hash, [9; 32]);
    assert!(state.get_sequencer_block_by_hash(&[7; 32]).is_ok());
}

#[test]
fn storage_version_read_after_write() {
    let mut state = SequencerState::new();
    assert_eq!(state.get_storage_version_by_height(10), Err(Error::NotFound));
    state.put_storage_version_by_height(10, 42);
    assert_eq!(state.get_storage_version_by_height(10), Ok(42));
    state.put_storage_version_by_height(10, 43);
    assert_eq!(state.get_storage_version_by_height(10), Ok(43));
}

#[test]
fn cache_layers() {
    let mut cache = StateCache::new();
    let key = b"k".to_vec();
    cache.put(key.clone(), Cached::Balance(5));
    assert!(matches!(cache.get(&key), Some(Cached::Balance(5))));
    cache.new_delta();
    assert!(cache.get(&key).is_none());
    cache.put(key.clone(), Cached::Balance(6));
    assert!(matches!(cache.get(&key), Some(Cached::Balance(6))));
    cache.new_delta_delta();
    cache.delete(key.clone());
    assert!(cache.get(&key).is_none());
    assert!(cache.discard_changes());
    assert!(matches!(cache.get(&key), Some(Cached::Balance(6))));
    cache.apply_delta();
    assert!(matches!(cache.get(&key), Some(Cached::Balance(6))));
    assert!(!cache.discard_changes());
}

#[test]
fn cache_apply_delta_delta_keeps_newest() {
    let mut cache = StateCache::new();
    let key = b"k".to_vec();
    cache.new_delta();
    cache.put(key.clone(), Cached::Nonce(1));
    cache.new_delta_delta();
    cache.put(key.clone(), Cached::Nonce(2));
    cache.apply_delta_delta();
    assert!(matches!(cache.get(&key), Some(Cached::Nonce(2))));
    assert!(cache.discard_changes());
    assert!(cache.get(&key).is_none());
}

#[test]
fn base_prefix_through_cache() {
    let mut state = SequencerState::new();
    let mut cache = StateCache::new();
    assert_eq!(get_base_prefix(&state, &mut cache).err(), Some(Error::BasePrefixNotFound));
    assert_eq!(put_base_prefix(&mut state, "Mixed", &mut cache), Err(Error::InvalidPrefix));
    assert_eq!(put_base_prefix(&mut state, "astria", &mut cache), Ok(()));
    assert_eq!(get_base_prefix(&state, &mut cache), Ok("astria".to_string()));
    assert_eq!(ensure_base_prefix_cached(&state, &address(1), &mut cache), Ok(()));
    let mut other = address(1);
    other.prefix = "osmo".to_string();
    assert_eq!(ensure_base_prefix_cached(&state, &other, &mut cache), Err(Error::AddressPrefixMismatch));
    let built = try_base_prefixed(&state, &[4; 20], &mut cache).ok().unwrap();
    assert_eq!(built.bytes, [4; 20]);
    assert_eq!(built.prefix, "astria");
    assert_eq!(try_base_prefixed(&state, &[4; 19], &mut cache).err(), Some(Error::InvalidPrefix));
    assert_eq!(try_construct_dummy_address_from_prefix(""), Err(Error::InvalidPrefix));
    assert_eq!(try_construct_dummy_address_from_prefix("astria"), Ok(()));
}

#[test]
fn genesis_components() {
    let mut state = SequencerState::new();
    authority_init_chain(
        &mut state,
        [7; 20],
        &vec![
            ValidatorUpdate { power: 10, verification_key: [1; 32] },
            ValidatorUpdate { power: 20, verification_key: [2; 32] },
        ],
    );
    assert_eq!(state.sudo_address(), Some([7; 20]));
    assert_eq!(state.validator_count(), 2);
    assert_eq!(accounts_init_chain(&mut state, &vec![([1; 20], 100)]), Err(Error::NativeAssetNotFound));
    assert_eq!(accounts_init_chain(&mut state, &vec![]), Ok(()));
    state.put_native_asset(nria());
    assert_eq!(accounts_init_chain(&mut state, &vec![([1; 20], 100), ([2; 20], 5)]), Ok(()));
    assert_eq!(state.get_account_balance(&[1; 20], &nria_id()), 100);
    assert_eq!(state.get_account_balance(&[2; 20], &nria_id()), 5);
    ibc_init_chain(&mut state, [8; 20], &vec![[3; 20]], 24);
    assert_eq!(state.ibc_sudo_address(), Some([8; 20]));
    assert!(state.is_ibc_relayer(&[3; 20]));
    assert_eq!(get_ics20_withdrawal_base_fee(&state), Ok(24));
}

#[test]
fn validator_set_updates_at_block_edges() {
    let mut state = SequencerState::new();
    authority_init_chain(
        &mut state,
        [7; 20],
        &vec![
            ValidatorUpdate { power: 10, verification_key: [1; 32] },
            ValidatorUpdate { power: 20, verification_key: [2; 32] },
        ],
    );
    state.push_validator_update([1; 32], 0);
    state.push_validator_update([3; 32], 30);
    authority_end_block(&mut state);
    assert_eq!(state.validator_power(&[1; 32]), None);
    assert_eq!(state.validator_power(&[2; 32]), Some(20));
    assert_eq!(state.validator_power(&[3; 32]), Some(30));
    let hash: [u8; 32] = sha2::Sha256::digest([2u8; 32]).into();
    let mut address = [0u8; 20];
    address.copy_from_slice(&hash[..20]);
    authority_begin_block(&mut state, &vec![address]);
    assert_eq!(state.validator_power(&[2; 32]), None);
    assert_eq!(state.validator_power(&[3; 32]), Some(30));
    // the updates of the block stay until they are cleared
    state.push_validator_update([4; 32], 40);
    assert_eq!(state.get_validator_updates().len(), 3);
    state.clear_validator_updates();
    assert_eq!(state.get_validator_updates().len(), 0);
}

fn handler_state() -> SequencerState {
    let mut state = SequencerState::new();
    state.set_base_prefix("astria".to_string());
    state.put_sudo_address([7; 20]);
    state.put_ibc_sudo_address([7; 20]);
    state.put_allowed_fee_asset(nria_id());
    state.put_fees(FeeKind::Transfer, FeeComponents { base: 3, multiplier: 0 });
    state.put_fees(FeeKind::RollupDataSubmission, FeeComponents { base: 2, multiplier: 1 });
    state.put_fees(FeeKind::InitBridgeAccount, FeeComponents { base: 9, multiplier: 0 });
    state.put_account_balance([1; 20], nria_id(), 100);
    state
}

#[test]
fn transfer_handled_in_one_step() {
    let mut state = handler_state();
    let action = Transfer { to: address(2), asset: nria_denom(), amount: 50, fee_asset: nria_denom() };
    assert_eq!(check_transfer(&action, &[1; 20], &state), Ok(()));
    assert_eq!(action.check_and_execute(&[1; 20], &mut state), Ok(()));
    assert_eq!(state.get_account_balance(&[1; 20], &nria_id()), 47);
    assert_eq!(state.get_account_balance(&[2; 20], &nria_id()), 50);
    assert_eq!(state.get_block_fees(&nria_id()), 3);
    let too_much = Transfer { to: address(2), asset: nria_denom(), amount: 45, fee_asset: nria_denom() };
    assert_eq!(check_transfer(&too_much, &[1; 20], &state), Err(Error::InsufficientFunds));
    assert_eq!(execute_transfer(&too_much, &[1; 20], &mut state), Err(Error::InsufficientFunds));
    assert_eq!(state.get_account_balance(&[1; 20], &nria_id()), 47);
}

#[test]
fn sequence_handled_in_one_step() {
    let mut state = handler_state();
    let empty = RollupDataSubmission { rollup_id: [1; 32], data: vec![], fee_asset: nria_denom() };
    assert_eq!(empty.check_stateless(), Err(Error::EmptyData));
    let action = RollupDataSubmission { rollup_id: [1; 32], data: vec![0; 8], fee_asset: nria_denom() };
    assert_eq!(action.check_stateless(), Ok(()));
    assert_eq!(action.check_and_execute(&[1; 20], &mut state), Ok(()));
    assert_eq!(state.get_account_balance(&[1; 20], &nria_id()), 90);
    assert_eq!(state.get_block_fees(&nria_id()), 10);
}

#[test]
fn init_bridge_account_handled_in_one_step() {
    let mut state = handler_state();
    let action = InitBridgeAccount {
        rollup_id: [3; 32],
        asset: nria_denom(),
        fee_asset: nria_denom(),
        sudo_address: None,
        withdrawer_address: None,
    };
    assert_eq!(action.check_and_execute(&[1; 20], &mut state), Ok(()));
    assert_eq!(state.get_account_balance(&[1; 20], &nria_id()), 91);
    assert_eq!(state.get_bridge_account_rollup_id(&[1; 20]), Some([3; 32]));
    assert_eq!(action.check_and_execute(&[1; 20], &mut state), Err(Error::BridgeAccountAlreadyExists));
}

#[test]
fn authority_actions_handled_in_one_step() {
    let mut state = handler_state();
    assert_eq!(FeeAssetChange::Removal(nria_denom()).check_and_execute(&[7; 20], &mut state), Err(Error::LastFeeAsset));
    assert_eq!(FeeAssetChange::Addition(nria_denom()).check_and_execute(&[1; 20], &mut state), Err(Error::NotAuthorized));
    assert_eq!(IbcRelayerChange::Addition(address(4)).check_and_execute(&[7; 20], &mut state), Ok(()));
    assert!(state.is_ibc_relayer(&[4; 20]));
}

#[test]
fn put_chain_id_and_revision_number() {
    let mut state = SequencerState::new();
    state.put_chain_id_and_revision_number("test-chain-orig".to_string());
    assert_eq!(state.chain_id(), Some(&"test-chain-orig".to_string()));
    assert_eq!(state.revision_number(), Some(0));
    state.put_chain_id_and_revision_number("test-chain-99".to_string());
    assert_eq!(state.chain_id(), Some(&"test-chain-99".to_string()));
    assert_eq!(state.revision_number(), Some(99));
}

#[test]
fn apply_delta_keeps_snapshot_and_adds_delta() {
    let mut cache = StateCache::new();
    let a = b"a".to_vec();
    let b = b"b".to_vec();
    cache.put(a.clone(), Cached::Balance(1));
    cache.put(b.clone(), Cached::Balance(2));
    cache.new_delta();
    cache.put(b.clone(), Cached::Balance(3));
    cache.put(b"c".to_vec(), Cached::Nonce(4));
    cache.apply_delta();
    assert!(matches!(cache.get(&a), Some(Cached::Balance(1))));
    assert!(matches!(cache.get(&b), Some(Cached::Balance(3))));
    assert!(matches!(cache.get(&b"c".to_vec()), Some(Cached::Nonce(4))));
}
