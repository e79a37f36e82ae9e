//! Storage keys under which the sequencer keeps its values.
use vstd::prelude::*;
use vstd::string::*;

use crate::primitive::{denom_id, Denom};
use crate::text::{base64_encode, base64_standard, decimal, hex_lower, push_decimal, push_hex, string_from};

verus! {

/// The key of the base address prefix.
pub fn base_prefix_key() -> (r: &'static str)
    ensures
        r@ == "prefixes/base"@,
{
    "prefixes/base"
}

/// The key of the hash of the block at `height`: `blockhash/{height}`.
pub fn block_hash_by_height_key(height: u64) -> (r: String)
    ensures
        r@ == "blockhash/"@ + decimal(height as nat),
{
    let mut s = string_from("blockhash/");
    push_decimal(&mut s, height as u128);
    s
}

/// The key of the block with the given hash: `block/{hex(hash)}`.
pub fn sequencer_block_by_hash_key(hash: &[u8]) -> (r: String)
    ensures
        r@ == "block/"@ + hex_lower(hash@),
{
    let mut s = string_from("block/");
    push_hex(&mut s, hash);
    s
}

/// The key of the rollup IDs of the block with the given hash: `rollupids/{hex(hash)}`.
pub fn rollup_ids_by_hash_key(hash: &[u8]) -> (r: String)
    ensures
        r@ == "rollupids/"@ + hex_lower(hash@),
{
    let mut s = string_from("rollupids/");
    push_hex(&mut s, hash);
    s
}

/// The key of the storage version at `height`, as the ASCII bytes of `storage_version/{height}`.
pub fn storage_version_by_height_key(height: u64) -> (r: Vec<u8>)
    ensures
        r@ == ("storage_version/"@ + decimal(height as nat)).map_values(|c: char| c as u8),
{
    let mut s = string_from("storage_version/");
    push_decimal(&mut s, height as u128);
    ascii_bytes(&s)
}

/// The key of the trace-prefixed denomination of an asset: `asset/{hex(id)}`, by the asset's
/// ID, so that a denomination and its ID share the key.
pub fn asset_storage_key(asset: &Denom) -> (r: String)
    ensures
        r@ == "asset/"@ + hex_lower(denom_id(*asset)),
{
    let id = asset.to_ibc_prefixed();
    let mut s = string_from("asset/");
    push_hex(&mut s, id.as_slice());
    s
}

/// The key marking an asset as allowed for fees: `fee_asset/{hex(id)}`.
pub fn fee_asset_key(asset: &Denom) -> (r: String)
    ensures
        r@ == "fee_asset/"@ + hex_lower(denom_id(*asset)),
{
    let id = asset.to_ibc_prefixed();
    let mut s = string_from("fee_asset/");
    push_hex(&mut s, id.as_slice());
    s
}

/// The key of the balance of an asset escrowed on a channel:
/// `ibc-data/{channel}/balance/{hex(id)}`.
pub fn channel_balance_storage_key(channel: &str, asset: &Denom) -> (r: String)
    ensures
        r@ == "ibc-data/"@ + channel@ + "/balance/"@ + hex_lower(denom_id(*asset)),
{
    let id = asset.to_ibc_prefixed();
    let mut s = string_from("ibc-data/");
    s.append(channel);
    s.append("/balance/");
    push_hex(&mut s, id.as_slice());
    s
}

/// The key marking `address` as an IBC relayer: `ibc-relayer/{hex(address)}`.
pub fn ibc_relayer_key(address: &[u8; 20]) -> (r: String)
    ensures
        r@ == "ibc-relayer/"@ + hex_lower(address@),
{
    let mut s = string_from("ibc-relayer/");
    push_hex(&mut s, address.as_slice());
    s
}

/// The gRPC-side key of the hash of the block at `height`: `grpc/block_hash/{height}`.
pub fn block_hash_by_height(height: u64) -> (r: String)
    ensures
        r@ == "grpc/block_hash/"@ + decimal(height as nat),
{
    let mut s = string_from("grpc/block_hash/");
    push_decimal(&mut s, height as u128);
    s
}

/// `prefix` followed by the base64 text of `bytes`.
fn with_base64(prefix: &str, bytes: &[u8]) -> (r: String)
    ensures
        r@ == prefix@ + base64_standard(bytes@),
{
    let mut s = string_from(prefix);
    let encoded = base64_encode(bytes);
    s.append(encoded.as_str());
    s
}

/// The gRPC-side key of the header of the block with a hash: `grpc/block_header/{hash}`, the
/// hash in base64.
pub fn sequencer_block_header_by_hash(block_hash: &[u8; 32]) -> (r: String)
    ensures
        r@ == "grpc/block_header/"@ + base64_standard(block_hash@),
{
    with_base64("grpc/block_header/", block_hash)
}

/// The gRPC-side key of a rollup's data in the block with a hash:
/// `grpc/rollup_data/{hash}/{rollup_id}`, both in base64.
pub fn rollup_data_by_hash_and_rollup_id(block_hash: &[u8; 32], rollup_id: &[u8; 32]) -> (r: String)
    ensures
        r@ == "grpc/rollup_data/"@ + base64_standard(block_hash@) + "/"@ + base64_standard(rollup_id@),
{
    let mut s = with_base64("grpc/rollup_data/", block_hash);
    s.append("/");
    let encoded = base64_encode(rollup_id);
    s.append(encoded.as_str());
    s
}

/// The gRPC-side key of the rollup IDs of the block with a hash: `grpc/rollup_ids/{hash}`.
pub fn rollup_ids_by_hash(block_hash: &[u8; 32]) -> (r: String)
    ensures
        r@ == "grpc/rollup_ids/"@ + base64_standard(block_hash@),
{
    with_base64("grpc/rollup_ids/", block_hash)
}

/// The gRPC-side key of the rollup transactions proof of the block with a hash:
/// `grpc/rollup_txs_proof/{hash}`.
pub fn rollup_transactions_proof_by_hash(block_hash: &[u8; 32]) -> (r: String)
    ensures
        r@ == "grpc/rollup_txs_proof/"@ + base64_standard(block_hash@),
{
    with_base64("grpc/rollup_txs_proof/", block_hash)
}

/// The gRPC-side key of the rollup IDs proof of the block with a hash:
/// `grpc/rollup_ids_proof/{hash}`.
pub fn rollup_ids_proof_by_hash(block_hash: &[u8; 32]) -> (r: String)
    ensures
        r@ == "grpc/rollup_ids_proof/"@ + base64_standard(block_hash@),
{
    with_base64("grpc/rollup_ids_proof/", block_hash)
}

/// The characters of a string, each taken as a byte.
fn ascii_bytes(s: &String) -> (r: Vec<u8>)
    ensures
        r@ == s@.map_values(|c: char| c as u8),
{
    let n = s.as_str().unicode_len();
    let mut out: Vec<u8> = Vec::new();
    let mut i: usize = 0;
    while i < n
        invariant
            n == s@.len(),
            0 <= i <= n,
            out@ == s@.subrange(0, i as int).map_values(|c: char| c as u8),
        decreases n - i,
    {
        let c = s.as_str().get_char(i);
        out.push(c as u8);
        assert(s@.subrange(0, i + 1).map_values(|c: char| c as u8) =~= s@.subrange(
            0,
            i as int,
        ).map_values(|c: char| c as u8).push(c as u8));
        i = i + 1;
    }
    assert(s@.subrange(0, n as int) =~= s@);
    out
}

} // verus!
