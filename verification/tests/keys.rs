use astria_sequencer::chain::revision_number_from_chain_id;
use astria_sequencer::keys::{
    asset_storage_key,
    base_prefix_key,
    channel_balance_storage_key,
    fee_asset_key,
    block_hash_by_height,
    block_hash_by_height_key,
    ibc_relayer_key,
    rollup_data_by_hash_and_rollup_id,
    rollup_ids_by_hash,
    rollup_ids_by_hash_key,
    rollup_ids_proof_by_hash,
    rollup_transactions_proof_by_hash,
    sequencer_block_by_hash_key,
    sequencer_block_header_by_hash,
    storage_version_by_height_key,
};

use astria_sequencer::primitive::{Denom, TracePrefixed, TraceSegment};

/// A denomination written `{port}/{channel}/.../{base}`.
fn trace_prefixed(port1: &str, chan1: &str, port2: &str, chan2: &str, base: &str) -> Denom {
    Denom::TracePrefixed(TracePrefixed {
        trace: vec![
            TraceSegment { port: port1.to_string(), channel: chan1.to_string() },
            TraceSegment { port: port2.to_string(), channel: chan2.to_string() },
        ],
        base_denom: base.to_string(),
    })
}

const COMPONENT_PREFIX: &str = "grpc/";
const BLOCK_HASH: [u8; 32] = [1; 32];
const ROLLUP_ID: [u8; 32] = [2; 32];

#[test]
fn keys_should_have_component_prefix() {
    assert!(block_hash_by_height(42).starts_with(COMPONENT_PREFIX));
    assert!(sequencer_block_header_by_hash(&BLOCK_HASH).starts_with(COMPONENT_PREFIX));
    assert!(rollup_data_by_hash_and_rollup_id(&BLOCK_HASH, &ROLLUP_ID).starts_with(COMPONENT_PREFIX));
    assert!(rollup_ids_by_hash(&BLOCK_HASH).starts_with(COMPONENT_PREFIX));
    assert!(rollup_transactions_proof_by_hash(&BLOCK_HASH).starts_with(COMPONENT_PREFIX));
    assert!(rollup_ids_proof_by_hash(&BLOCK_HASH).starts_with(COMPONENT_PREFIX));
}

#[test]
fn keys_should_not_change() {
    assert_eq!(block_hash_by_height(42), "grpc/block_hash/42");
    assert_eq!(
        sequencer_block_header_by_hash(&BLOCK_HASH),
        "grpc/block_header/AQEBAQEBAQEBAQEBAQEBAQEBAQEBAQEBAQEBAQEBAQE="
    );
    assert_eq!(
        rollup_data_by_hash_and_rollup_id(&BLOCK_HASH, &ROLLUP_ID),
        "grpc/rollup_data/AQEBAQEBAQEBAQEBAQEBAQEBAQEBAQEBAQEBAQEBAQE=/AgICAgICAgICAgICAgICAgICAgICAgICAgICAgICAgI="
    );
    assert_eq!(
        rollup_ids_by_hash(&BLOCK_HASH),
        "grpc/rollup_ids/AQEBAQEBAQEBAQEBAQEBAQEBAQEBAQEBAQEBAQEBAQE="
    );
    assert_eq!(
        rollup_transactions_proof_by_hash(&BLOCK_HASH),
        "grpc/rollup_txs_proof/AQEBAQEBAQEBAQEBAQEBAQEBAQEBAQEBAQEBAQEBAQE="
    );
    assert_eq!(
        rollup_ids_proof_by_hash(&BLOCK_HASH),
        "grpc/rollup_ids_proof/AQEBAQEBAQEBAQEBAQEBAQEBAQEBAQEBAQEBAQEBAQE="
    );
}

#[test]
fn revision_number_from_chain_id_regex() {
    let revision_number = revision_number_from_chain_id("test-chain-1024-99");
    assert_eq!(revision_number, 99);

    let revision_number = revision_number_from_chain_id("test-chain-1024");
    assert_eq!(revision_number, 1024);

    let revision_number = revision_number_from_chain_id("test-chain");
    assert_eq!(revision_number, 0);

    let revision_number = revision_number_from_chain_id("99");
    assert_eq!(revision_number, 0);

    let revision_number = revision_number_from_chain_id("99-1024");
    assert_eq!(revision_number, 1024);

    let revision_number = revision_number_from_chain_id("test-chain-1024-99-");
    assert_eq!(revision_number, 0);
}

#[test]
fn state_keys_have_their_formats() {
    assert_eq!(base_prefix_key(), "prefixes/base");
    assert_eq!(block_hash_by_height_key(7), "blockhash/7");
    assert_eq!(block_hash_by_height_key(0), "blockhash/0");
    assert_eq!(sequencer_block_by_hash_key(&[0xab, 0x01]), "block/ab01");
    assert_eq!(rollup_ids_by_hash_key(&[0xff]), "rollupids/ff");
    assert_eq!(storage_version_by_height_key(123), b"storage_version/123".to_vec());
    assert_eq!(
        ibc_relayer_key(&[0x10; 20]),
        "ibc-relayer/1010101010101010101010101010101010101010"
    );
}

#[test]
fn storage_keys_are_unchanged() {
    let asset = trace_prefixed("an", "asset", "with", "a", "prefix");
    assert_eq!(asset.to_text(), "an/asset/with/a/prefix");
    assert_eq!(
        asset_storage_key(&asset),
        asset_storage_key(&Denom::IbcPrefixed(asset.to_ibc_prefixed())),
    );
    assert_eq!(
        asset_storage_key(&asset),
        "asset/be429a02d00837245167a2616674a979a2ac6f9806468b48a975b156ad711320"
    );

    let trace_prefixed = trace_prefixed("a", "denom", "with", "a", "prefix");
    assert_eq!(
        fee_asset_key(&trace_prefixed),
        fee_asset_key(&Denom::IbcPrefixed(trace_prefixed.to_ibc_prefixed())),
    );
    assert_eq!(
        fee_asset_key(&trace_prefixed),
        "fee_asset/ce072174ebc356c6ead681d61ab417ee72fdedd8155eb76478ece374bb04dc1d"
    );
}

#[test]
fn channel_balance_key_holds_channel_and_asset_id() {
    let asset = trace_prefixed("an", "asset", "with", "a", "prefix");
    assert_eq!(
        channel_balance_storage_key("channel-5", &asset),
        channel_balance_storage_key("channel-5", &Denom::IbcPrefixed(asset.to_ibc_prefixed())),
    );
    assert_eq!(
        channel_balance_storage_key("channel-5", &asset),
        "ibc-data/channel-5/balance/be429a02d00837245167a2616674a979a2ac6f9806468b48a975b156ad711320"
    );
}
