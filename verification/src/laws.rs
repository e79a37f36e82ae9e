//! Properties of the library that relate its operations to each other.
use vstd::prelude::*;

use crate::accounts::spec_move_funds;
use crate::actions::{Action, BridgeUnlock, IbcRelayerChange, MarketsChange, Transfer};
use crate::address::{
    base_prefix_cache_key, base_prefix_coherent, spec_cached_base_prefix, spec_ensure_base_prefix,
};
use crate::cache::{lookup, Cached, CacheView};
use crate::checked_actions::bridge_unlock::{
    spec_bridge_unlock_execute,
    spec_record_withdrawal_event,
    spec_unlock_mutable_checks,
};
use crate::checked_actions::checked_action::{
    converted,
    spec_action_execute,
    spec_action_fee,
    spec_execute_and_pay_fees,
    spec_pay_fee,
    CheckedAction,
    IbcReport,
};
use crate::checked_actions::bridge_lock::{spec_bridge_lock_deposit, spec_bridge_lock_execute};
use crate::checked_actions::fee_asset_change::spec_fee_asset_change_execute;
use crate::checked_actions::fee_change::spec_fee_change_execute;
use crate::components::spec_apply_updates;
use crate::handlers::{
    spec_execute_transfer, spec_fee_from_state, spec_init_bridge_account_check_and_execute,
    spec_sequence_check_and_execute,
};
use crate::actions::{
    FeeAssetChange,
    RollupDataSubmission,
    BridgeLock, BridgeSudoChange, FeeChange, IbcSudoChange, InitBridgeAccount, SudoAddressChange,
    ValidatorUpdate,
};
use crate::checked_actions::bridge_sudo_change::spec_bridge_sudo_change_execute;
use crate::checked_actions::bridge_transfer::spec_bridge_transfer_execute;
use crate::checked_actions::ibc_sudo_change::spec_ibc_sudo_change_execute;
use crate::checked_actions::init_bridge_account::spec_init_bridge_account_execute;
use crate::checked_actions::sudo_address_change::spec_sudo_address_change_execute;
use crate::checked_actions::validator_update::spec_validator_update_execute;
use crate::fees::spec_fee;
use crate::checked_actions::ibc_relayer_change::spec_ibc_relayer_change_execute;
use crate::checked_actions::ics20_withdrawal::{spec_ics20_withdrawal_execute, spec_is_source};
use crate::checked_actions::markets_change::{spec_create_markets, spec_remove_markets, spec_update_markets};
use crate::checked_actions::transfer::spec_transfer_execute;
use crate::checked_transaction::{spec_execute_actions, spec_total_fees, spec_transaction_execute};
use crate::fee_query::{spec_unchecked_fee, spec_unchecked_total_fees};
use crate::text::{decimal, hex_lower, lemma_decimal_digits, lemma_decimal_injective, lemma_hex_lower_injective};
use crate::primitive::{denom_id, Denom, TransactionId, AddressBytes};
use crate::state::{
    spec_block_by_height,
    spec_put_sequencer_block,
    spec_storage_version,
    BlockView,
    DepositView,
    FeeKind,
    Market,
    MarketView,
    StateView,
};

verus! {

/// Moving funds keeps the sum of the two accounts' balances in the asset, when the accounts
/// differ, and every other balance.
pub proof fn law_move_funds_conserves(v: StateView, from: Seq<u8>, to: Seq<u8>, asset: Seq<u8>, amount: u128)
    requires
        spec_move_funds(v, from, to, asset, amount) is Ok,
    ensures
        ({
            let w = spec_move_funds(v, from, to, asset, amount)->Ok_0;
            &&& from != to ==> w.balance(from, asset) + w.balance(to, asset) == v.balance(from, asset)
                + v.balance(to, asset)
            &&& from == to ==> w.balance(from, asset) == v.balance(from, asset)
            &&& forall|acct: Seq<u8>, a: Seq<u8>|
                !((acct == from || acct == to) && a == asset) ==> #[trigger] w.balance(acct, a)
                    == v.balance(acct, a)
        }),
{
}

/// A transfer keeps the sum of the sender's and the receiver's balances in the transferred
/// asset, when they differ.
pub proof fn law_transfer_conserves(v: StateView, a: Transfer, signer: Seq<u8>)
    requires
        spec_transfer_execute(v, a, signer) is Ok,
        signer != a.to.bytes@,
    ensures
        ({
            let w = spec_transfer_execute(v, a, signer)->Ok_0;
            let asset = denom_id(a.asset);
            w.balance(signer, asset) + w.balance(a.to.bytes@, asset) == v.balance(signer, asset)
                + v.balance(a.to.bytes@, asset)
        }),
{
    law_move_funds_conserves(v, signer, a.to.bytes@, denom_id(a.asset), a.amount);
}

/// A rollup withdrawal event is processed at most once: once an unlock recorded it, every later
/// withdrawal of the same bridge account with the same event ID fails its checks.
pub proof fn law_withdrawal_event_processed_once(
    v: StateView,
    a: BridgeUnlock,
    asset: Seq<u8>,
    signer: Seq<u8>,
    pure_unlock: bool,
    to: Seq<u8>,
    later_signer: Seq<u8>,
)
    requires
        spec_bridge_unlock_execute(v, a, asset, signer) is Ok,
    ensures
        spec_unlock_mutable_checks(
            spec_bridge_unlock_execute(v, a, asset, signer)->Ok_0,
            pure_unlock,
            to,
            a.bridge_address.bytes@,
            a.rollup_withdrawal_event_id@,
            later_signer,
        ) is Err,
{
}

/// Recording a withdrawal event makes it known: a later withdrawal with the same bridge account
/// and event ID fails its checks.
pub proof fn law_recorded_event_rejected(v: StateView, bridge: Seq<u8>, event_id: Seq<char>, block: u64, pure_unlock: bool, to: Seq<u8>, signer: Seq<u8>)
    ensures
        spec_unlock_mutable_checks(
            spec_record_withdrawal_event(v, bridge, event_id, block),
            pure_unlock,
            to,
            bridge,
            event_id,
            signer,
        ) is Err,
{
}

/// Paying a fee moves it from the payer's balance into the block's fees: their sum in the fee
/// asset is kept.
pub proof fn law_fee_payment_conserves(v: StateView, payer: Seq<u8>, kind: FeeKind, asset: Denom, len: nat)
    requires
        spec_pay_fee(v, payer, kind, asset, len) is Ok,
    ensures
        ({
            let w = spec_pay_fee(v, payer, kind, asset, len)->Ok_0;
            let id = denom_id(asset);
            w.balance(payer, id) + w.block_fee(id) == v.balance(payer, id) + v.block_fee(id)
        }),
{
}

/// A withdrawal to a chain of which this chain is the source escrows what it takes: the sum of
/// the withdrawal account's balance and the channel's escrow in the asset is kept.
pub proof fn law_ics20_escrow_conserves(
    v: StateView,
    amount: u128,
    denom: Denom,
    withdrawal_address: Seq<u8>,
    event: Option<(Seq<u8>, Seq<char>, u64)>,
    port: Seq<char>,
    channel: Seq<char>,
    signer: Seq<u8>,
)
    requires
        spec_ics20_withdrawal_execute(v, amount, denom, withdrawal_address, event, port, channel, signer, true) is Ok,
        spec_is_source(port, channel, denom),
    ensures
        ({
            let w = spec_ics20_withdrawal_execute(
                v,
                amount,
                denom,
                withdrawal_address,
                event,
                port,
                channel,
                signer,
                true,
            )->Ok_0;
            let id = denom_id(denom);
            w.balance(withdrawal_address, id) + w.channel_balance(channel, id) == v.balance(
                withdrawal_address,
                id,
            ) + v.channel_balance(channel, id)
        }),
{
}

/// A change of the fee assets never leaves no asset allowed: adding one allows it, and
/// removing the last one fails.
pub proof fn law_fee_assets_never_emptied(v: StateView, a: crate::actions::FeeAssetChange, signer: Seq<u8>)
    requires
        spec_fee_asset_change_execute(v, a, signer) is Ok,
    ensures
        spec_fee_asset_change_execute(v, a, signer)->Ok_0.allowed_fee_assets != Set::<Seq<u8>>::empty(),
{
    let w = spec_fee_asset_change_execute(v, a, signer)->Ok_0;
    match a {
        crate::actions::FeeAssetChange::Addition(d) => {
            assert(w.allowed_fee_assets.contains(denom_id(d)));
        },
        crate::actions::FeeAssetChange::Removal(_) => {},
    }
}

/// Adding a relayer registers it; removing one unregisters it.
pub proof fn law_relayer_change_membership(v: StateView, a: IbcRelayerChange, signer: Seq<u8>)
    requires
        spec_ibc_relayer_change_execute(v, a, signer) is Ok,
    ensures
        ({
            let w = spec_ibc_relayer_change_execute(v, a, signer)->Ok_0;
            match a {
                IbcRelayerChange::Addition(x) => w.ibc_relayers.contains(x.bytes@),
                IbcRelayerChange::Removal(x) => !w.ibc_relayers.contains(x.bytes@),
            }
        }),
{
}

/// After creating markets, each created market is in the map; the last market of each pair
/// created is the one stored.
pub proof fn law_created_markets_present(m: Map<Seq<char>, MarketView>, ms: Seq<Market>)
    requires
        spec_create_markets(m, ms) is Ok,
    ensures
        forall|i: int|
            0 <= i < ms.len() ==> #[trigger] spec_create_markets(m, ms)->Ok_0.contains_key(
                ms[i].currency_pair@,
            ) && spec_create_markets(m, ms)->Ok_0[ms[i].currency_pair@] == ms[i]@,
    decreases ms.len(),
{
    if ms.len() > 0 {
        let prefix = ms.drop_last();
        law_created_markets_present(m, prefix);
        let m1 = spec_create_markets(m, prefix)->Ok_0;
        assert forall|i: int| 0 <= i < ms.len() implies #[trigger] spec_create_markets(
            m,
            ms,
        )->Ok_0.contains_key(ms[i].currency_pair@) && spec_create_markets(m, ms)->Ok_0[ms[i].currency_pair@]
            == ms[i]@ by {
            if i < ms.len() - 1 {
                assert(prefix[i] == ms[i]);
                assert(m1.contains_key(ms[i].currency_pair@));
                assert(ms[i].currency_pair@ != ms.last().currency_pair@);
            }
        }
    }
}

/// A stored block is read back at its height.
pub proof fn law_block_read_after_write(v: StateView, block: BlockView)
    ensures
        spec_block_by_height(spec_put_sequencer_block(v, block), block.height) == Some(block),
{
}

/// Distinct heights give distinct keys for the block hash, `blockhash/{height}`.
pub proof fn law_block_hash_keys_distinct(h1: u64, h2: u64)
    requires
        h1 != h2,
    ensures
        "blockhash/"@ + decimal(h1 as nat) != "blockhash/"@ + decimal(h2 as nat),
{
    let p = "blockhash/"@;
    let k1 = p + decimal(h1 as nat);
    let k2 = p + decimal(h2 as nat);
    if k1 == k2 {
        assert(k1.subrange(p.len() as int, k1.len() as int) =~= decimal(h1 as nat));
        assert(k2.subrange(p.len() as int, k2.len() as int) =~= decimal(h2 as nat));
        lemma_decimal_injective(h1 as nat, h2 as nat);
    }
}

/// Distinct hashes give distinct keys for the block, `block/{hex(hash)}`.
pub proof fn law_block_keys_distinct(hash1: Seq<u8>, hash2: Seq<u8>)
    requires
        hash1 != hash2,
    ensures
        "block/"@ + hex_lower(hash1) != "block/"@ + hex_lower(hash2),
{
    let p = "block/"@;
    let k1 = p + hex_lower(hash1);
    let k2 = p + hex_lower(hash2);
    if k1 == k2 {
        assert(k1.subrange(p.len() as int, k1.len() as int) =~= hex_lower(hash1));
        assert(k2.subrange(p.len() as int, k2.len() as int) =~= hex_lower(hash2));
        lemma_hex_lower_injective(hash1, hash2);
    }
}

/// Distinct heights give distinct keys for the storage version, the bytes of
/// `storage_version/{height}`.
pub proof fn law_storage_version_keys_distinct(h1: u64, h2: u64)
    requires
        h1 != h2,
    ensures
        ("storage_version/"@ + decimal(h1 as nat)).map_values(|c: char| c as u8) != (
        "storage_version/"@ + decimal(h2 as nat)).map_values(|c: char| c as u8),
{
    let p = "storage_version/"@;
    let d1 = decimal(h1 as nat);
    let d2 = decimal(h2 as nat);
    let b1 = (p + d1).map_values(|c: char| c as u8);
    let b2 = (p + d2).map_values(|c: char| c as u8);
    if b1 == b2 {
        lemma_decimal_digits(h1 as nat);
        lemma_decimal_digits(h2 as nat);
        assert(d1.len() == d2.len()) by {
            assert(b1.len() == p.len() + d1.len());
            assert(b2.len() == p.len() + d2.len());
        }
        assert forall|i: int| 0 <= i < d1.len() implies d1[i] == d2[i] by {
            assert(b1[p.len() + i] == b2[p.len() + i]);
            assert((p + d1)[p.len() + i] == d1[i]);
            assert((p + d2)[p.len() + i] == d2[i]);
            assert('0' <= d1[i] <= '9');
            assert('0' <= d2[i] <= '9');
            assert((d1[i] as u8) as int == d1[i] as int);
            assert((d2[i] as u8) as int == d2[i] as int);
        }
        assert(d1 =~= d2);
        lemma_decimal_injective(h1 as nat, h2 as nat);
    }
}

/// A stored storage version is read back at its height.
pub proof fn law_storage_version_read_after_write(v: StateView, height: u64, version: u64)
    ensures
        spec_storage_version(StateView { storage_versions: v.storage_versions.insert(height, version), ..v }, height)
            == Some(version),
{
}

/// Once the base prefix is stored, addresses with that prefix pass the prefix check, and
/// those with another prefix fail it.
pub proof fn law_base_prefix_check_after_store(v: StateView, prefix: Seq<char>, other: Seq<char>)
    ensures
        spec_ensure_base_prefix(StateView { base_prefix: Some(prefix), ..v }, prefix) is Ok,
        other != prefix ==> spec_ensure_base_prefix(StateView { base_prefix: Some(prefix), ..v }, other)
            is Err,
{
}

/// A value put into the topmost layer of a cache with room (so that nothing is evicted) is read
/// back, and a deleted key reads as absent; the other layers are unchanged.
pub proof fn law_cache_read_after_write(c: CacheView, key: Seq<u8>, value: Cached)
    ensures
        ({
            let after = c.with_top(c.top().insert(key, value));
            &&& value is Deleted ==> lookup(after.top(), key) is None
            &&& !(value is Deleted) ==> lookup(after.top(), key) == Some(value)
            &&& after.nested() == c.nested()
        }),
{
}

/// Where the cache agrees with the state, a read of the base prefix through the cache gives
/// the stored prefix.
pub proof fn law_cached_base_prefix_is_stored(v: StateView, top: Map<Seq<u8>, Cached>)
    requires
        base_prefix_coherent(v, top),
    ensures
        spec_cached_base_prefix(v, top) == v.base_prefix,
{
}

/// Storing a base prefix and caching it, as `put_base_prefix` does, leaves the cache agreeing
/// with the state, whatever the layer evicted.
pub proof fn law_put_base_prefix_keeps_coherence(
    v: StateView,
    before: Map<Seq<u8>, Cached>,
    after: Map<Seq<u8>, Cached>,
    prefix: String,
)
    requires
        after.submap_of(before.insert(base_prefix_cache_key(), Cached::BasePrefix(prefix))),
    ensures
        base_prefix_coherent(StateView { base_prefix: Some(prefix@), ..v }, after),
{
    let k = base_prefix_cache_key();
    if after.contains_key(k) {
        assert(before.insert(k, Cached::BasePrefix(prefix)).dom().contains(k));
        assert(after[k] == Cached::BasePrefix(prefix));
    }
}

/// Opening a layer and discarding it restores the cache.
pub proof fn law_cache_discard_restores(c: CacheView)
    requires
        c.delta is None,
        c.delta_delta is None,
    ensures
        (CacheView { delta: None, ..(CacheView { delta: Some(Map::empty()), ..c }) }) == c,
{
}

/// The fees quoted for a transaction's actions are the fees its checked actions pay.
pub proof fn law_quoted_fees_are_charged(
    v: StateView,
    actions: Seq<Action>,
    checked: Seq<CheckedAction>,
    signer: AddressBytes,
    tx_id: Seq<u8>,
)
    requires
        checked.len() == actions.len(),
        forall|i: int| 0 <= i < actions.len() ==> #[trigger] converted(checked[i], actions[i], v, signer, tx_id, i as u64),
    ensures
        spec_total_fees(v, checked) == spec_unchecked_total_fees(v, actions),
{
    let f = checked.map_values(|c: CheckedAction| spec_action_fee(c));
    let g = actions.map_values(|a: Action| spec_unchecked_fee(a));
    assert forall|i: int| 0 <= i < actions.len() implies f[i] == g[i] by {
        assert(converted(checked[i], actions[i], v, signer, tx_id, i as u64));
    }
    assert(f =~= g);
}

/// Executing an action and paying its fee never changes a nonce.
proof fn lemma_action_keeps_nonces(v: StateView, c: CheckedAction, payer: Seq<u8>, report: IbcReport)
    requires
        spec_execute_and_pay_fees(v, c, payer, report) is Ok,
    ensures
        spec_execute_and_pay_fees(v, c, payer, report)->Ok_0.nonces == v.nonces,
{
    reveal(spec_execute_and_pay_fees);
    let v1 = spec_action_execute(v, c, report)->Ok_0;
    assert(v1.nonces == v.nonces);
}

/// Executing actions never changes a nonce.
proof fn lemma_actions_keep_nonces(v: StateView, actions: Seq<CheckedAction>, signer: Seq<u8>, reports: Seq<IbcReport>)
    requires
        spec_execute_actions(v, actions, signer, reports) is Ok,
    ensures
        spec_execute_actions(v, actions, signer, reports)->Ok_0.nonces == v.nonces,
    decreases actions.len(),
{
    if actions.len() > 0 {
        lemma_actions_keep_nonces(v, actions.drop_last(), signer, reports);
        let v1 = spec_execute_actions(v, actions.drop_last(), signer, reports)->Ok_0;
        lemma_action_keeps_nonces(
            v1,
            actions.last(),
            signer,
            crate::checked_transaction::report_at(reports, actions.len() - 1),
        );
    }
}

/// A transaction executes only at the signer's nonce, and advances it by one.
pub proof fn law_transaction_advances_nonce(
    v: StateView,
    signer: Seq<u8>,
    nonce: u32,
    tx_id: Seq<u8>,
    actions: Seq<CheckedAction>,
    reports: Seq<IbcReport>,
)
    requires
        spec_transaction_execute(v, signer, nonce, tx_id, actions, reports) is Ok,
    ensures
        v.nonce(signer) == nonce,
        spec_transaction_execute(v, signer, nonce, tx_id, actions, reports)->Ok_0.nonce(signer) == nonce + 1,
{
    let v1 = if v.is_bridge_account(signer) {
        StateView { last_transaction_ids: v.last_transaction_ids.insert(signer, tx_id), ..v }
    } else {
        v
    };
    let v2 = StateView { nonces: v1.nonces.insert(signer, (nonce + 1) as u32), ..v1 };
    lemma_actions_keep_nonces(v2, actions, signer, reports);
}

/// A transfer handled in one step moves the amount from the sender to the destination and
/// takes the transfer fee from the sender's fee-asset balance into the block's fees; no other
/// balance or block fee changes, so balances plus block fees are conserved in every asset. (Where
/// the amount and the fee are in one asset their sum must fit in a `u128`, as executing the
/// transfer requires.)
pub proof fn law_execute_transfer_moves_amount_and_fee(v: StateView, a: Transfer, from: Seq<u8>)
    requires
        spec_execute_transfer(v, a, from) is Ok,
        v.fees.contains_key(FeeKind::Transfer) && denom_id(a.fee_asset) == denom_id(a.asset) ==> a.amount
            + v.fees[FeeKind::Transfer].base <= u128::MAX,
    ensures
        v.fees.contains_key(FeeKind::Transfer),
        ({
            let w = spec_execute_transfer(v, a, from)->Ok_0;
            let fee = v.fees[FeeKind::Transfer].base;
            let asset = denom_id(a.asset);
            let fee_asset = denom_id(a.fee_asset);
            let to = a.to.bytes@;
            &&& w.block_fee(fee_asset) == v.block_fee(fee_asset) + fee
            &&& forall|x: Seq<u8>| x != fee_asset ==> #[trigger] w.block_fee(x) == v.block_fee(x)
            &&& forall|acct: Seq<u8>, x: Seq<u8>|
                acct != from && acct != to ==> #[trigger] w.balance(acct, x) == v.balance(acct, x)
            &&& forall|x: Seq<u8>|
                x != asset && x != fee_asset ==> #[trigger] w.balance(from, x) == v.balance(from, x)
                    && w.balance(to, x) == v.balance(to, x)
            &&& asset != fee_asset ==> w.balance(from, fee_asset) == v.balance(from, fee_asset) - fee
            &&& asset != fee_asset && from != to ==> w.balance(from, asset) == v.balance(from, asset)
                - a.amount && w.balance(to, fee_asset) == v.balance(to, fee_asset)
            &&& asset == fee_asset && from != to ==> w.balance(from, asset) == v.balance(from, asset)
                - a.amount - fee
            &&& from != to ==> w.balance(to, asset) == v.balance(to, asset) + a.amount
            &&& from == to ==> w.balance(from, asset) == v.balance(from, asset) - (if asset
                == fee_asset {
                fee
            } else {
                0
            })
            &&& forall|x: Seq<u8>|
                #![trigger w.block_fee(x)]
                w.balance(from, x) + (if from != to {
                    w.balance(to, x)
                } else {
                    0
                }) + w.block_fee(x) == v.balance(from, x) + (if from != to {
                    v.balance(to, x)
                } else {
                    0
                }) + v.block_fee(x)
        }),
{
    let fee = v.fees[FeeKind::Transfer].base;
    let asset = denom_id(a.asset);
    let fee_asset = denom_id(a.fee_asset);
    let to = a.to.bytes@;
    let v1 = StateView {
        block_fees: v.block_fees.insert(fee_asset, (v.block_fee(fee_asset) + fee) as u128),
        ..v
    };
    if asset == fee_asset {
        let v2 = v1.with_balance(from, asset, (v1.balance(from, asset) - (a.amount + fee)) as u128);
        assert(v1.balance(from, asset) == v.balance(from, asset));
        assert(v2.balance(from, asset) == v.balance(from, asset) - a.amount - fee);
    }
}

/// A successful ICS20 withdrawal takes exactly the amount from the withdrawal account in the
/// denomination, whether or not this chain is the source; the amount is escrowed on the channel
/// exactly when this chain is the source (otherwise it is burned); no other balance changes,
/// and a rollup withdrawal event is recorded at its rollup block.
pub proof fn law_ics20_withdrawal_debits_amount(
    v: StateView,
    amount: u128,
    denom: Denom,
    withdrawal_address: Seq<u8>,
    event: Option<(Seq<u8>, Seq<char>, u64)>,
    port: Seq<char>,
    channel: Seq<char>,
    signer: Seq<u8>,
    packet_check_passed: bool,
)
    requires
        spec_ics20_withdrawal_execute(v, amount, denom, withdrawal_address, event, port, channel, signer, packet_check_passed) is Ok,
    ensures
        packet_check_passed,
        ({
            let w = spec_ics20_withdrawal_execute(v, amount, denom, withdrawal_address, event, port, channel, signer, packet_check_passed)->Ok_0;
            let id = denom_id(denom);
            &&& w.balance(withdrawal_address, id) == v.balance(withdrawal_address, id) - amount
            &&& forall|acct: Seq<u8>, x: Seq<u8>|
                !(acct == withdrawal_address && x == id) ==> #[trigger] w.balance(acct, x) == v.balance(acct, x)
            &&& spec_is_source(port, channel, denom) ==> w.channel_balance(channel, id) == v.channel_balance(channel, id) + amount
            &&& forall|c: Seq<char>, x: Seq<u8>|
                !(spec_is_source(port, channel, denom) && c == channel && x == id) ==> #[trigger] w.channel_balance(c, x)
                    == v.channel_balance(c, x)
            &&& w.block_fees == v.block_fees
            &&& (event matches Some((_, event_id, block)) ==> w.withdrawal_events.contains_key((withdrawal_address, event_id))
                && w.withdrawal_events[(withdrawal_address, event_id)] == block)
        }),
{
}

/// A successful pure lock moves the amount from the signer to the bridge account and appends
/// exactly the lock's deposit to the block's deposits, keeping the earlier ones.
pub proof fn law_bridge_lock_records_one_deposit(v: StateView, a: BridgeLock, signer: Seq<u8>, deposit: DepositView)
    requires
        spec_bridge_lock_execute(v, a, signer, deposit) is Ok,
    ensures
        ({
            let w = spec_bridge_lock_execute(v, a, signer, deposit)->Ok_0;
            let id = denom_id(a.asset);
            let to = a.to.bytes@;
            &&& w.deposits.len() == v.deposits.len() + 1
            &&& w.deposits.last() == deposit
            &&& w.deposits.subrange(0, v.deposits.len() as int) == v.deposits
            &&& signer != to ==> w.balance(signer, id) == v.balance(signer, id) - a.amount
                && w.balance(to, id) == v.balance(to, id) + a.amount
            &&& signer == to ==> w.balance(signer, id) == v.balance(signer, id)
        }),
{
    let w = spec_bridge_lock_execute(v, a, signer, deposit)->Ok_0;
    assert(w.deposits.subrange(0, v.deposits.len() as int) =~= v.deposits);
}

/// The deposit a lock records carries the lock's bridge address, that account's rollup ID, the
/// locked amount and the lock's place in its transaction.
pub proof fn law_bridge_lock_deposit_fields(v: StateView, a: BridgeLock, tx_id: Seq<u8>, position: u64)
    ensures
        spec_bridge_lock_deposit(v, a, tx_id, position).bridge_address == a.to.bytes@,
        spec_bridge_lock_deposit(v, a, tx_id, position).rollup_id == v.bridge_rollup_ids[a.to.bytes@],
        spec_bridge_lock_deposit(v, a, tx_id, position).amount == a.amount,
        spec_bridge_lock_deposit(v, a, tx_id, position).destination_chain_address == a.destination_chain_address@,
        spec_bridge_lock_deposit(v, a, tx_id, position).source_transaction_id == tx_id,
        spec_bridge_lock_deposit(v, a, tx_id, position).source_action_index == position,
{
}

/// Applying validator updates: a key with a non-zero update has exactly that power, whether or
/// not it was a validator before; a key updated to zero is removed; a key without an update
/// keeps its place and power.
pub proof fn law_validator_updates_applied(set: Map<Seq<u8>, u64>, updates: Map<Seq<u8>, u64>, k: Seq<u8>)
    ensures
        updates.contains_key(k) && updates[k] != 0 ==> spec_apply_updates(set, updates).contains_key(k)
            && spec_apply_updates(set, updates)[k] == updates[k],
        updates.contains_key(k) && updates[k] == 0 ==> !spec_apply_updates(set, updates).contains_key(k),
        !updates.contains_key(k) ==> (spec_apply_updates(set, updates).contains_key(k) == set.contains_key(k)),
        !updates.contains_key(k) && set.contains_key(k) ==> spec_apply_updates(set, updates)[k] == set[k],
{
}

/// A fee change succeeds exactly when the signer is the stored sudo address; it then sets the
/// fee components of the action's kind to the action's, replacing any earlier value, and leaves
/// those of every other kind as they were.
pub proof fn law_fee_change_replaces_components(v: StateView, a: FeeChange, signer: Seq<u8>, other: FeeKind)
    ensures
        spec_fee_change_execute(v, a, signer) is Ok <==> v.sudo_address == Some(signer),
        spec_fee_change_execute(v, a, signer) is Ok ==> {
            let w = spec_fee_change_execute(v, a, signer)->Ok_0;
            &&& w.fees.contains_key(a.kind)
            &&& w.fees[a.kind] == a.fees
            &&& other != a.kind ==> (w.fees.contains_key(other) == v.fees.contains_key(other)
                && w.fees[other] == v.fees[other])
        },
{
}

/// Moving funds succeeds exactly when the sender holds the amount and, for distinct accounts, the
/// receiver's balance can take it; it then takes exactly the amount from the sender and gives it
/// to the receiver.
pub proof fn law_move_funds_moves_amount(v: StateView, from: Seq<u8>, to: Seq<u8>, asset: Seq<u8>, amount: u128)
    ensures
        spec_move_funds(v, from, to, asset, amount) is Ok <==> (v.balance(from, asset) >= amount && (from
            != to ==> v.balance(to, asset) + amount <= u128::MAX)),
        spec_move_funds(v, from, to, asset, amount) is Ok && from != to ==> {
            let w = spec_move_funds(v, from, to, asset, amount)->Ok_0;
            &&& w.balance(from, asset) == v.balance(from, asset) - amount
            &&& w.balance(to, asset) == v.balance(to, asset) + amount
        },
{
}

/// A transfer action takes exactly the amount from the signer and gives it to the destination.
pub proof fn law_transfer_moves_amount(v: StateView, a: Transfer, signer: Seq<u8>)
    requires
        spec_transfer_execute(v, a, signer) is Ok,
        signer != a.to.bytes@,
    ensures
        ({
            let w = spec_transfer_execute(v, a, signer)->Ok_0;
            let asset = denom_id(a.asset);
            &&& w.balance(signer, asset) == v.balance(signer, asset) - a.amount
            &&& w.balance(a.to.bytes@, asset) == v.balance(a.to.bytes@, asset) + a.amount
        }),
{
}

/// Paying a fee takes exactly the fee, base plus per-byte cost of the payload, from the payer's
/// balance in the fee asset and adds it to the block's fees in that asset.
pub proof fn law_fee_payment_charges_fee(v: StateView, payer: Seq<u8>, kind: FeeKind, asset: Denom, len: nat)
    requires
        spec_pay_fee(v, payer, kind, asset, len) is Ok,
    ensures
        v.fees.contains_key(kind),
        v.allowed_fee_assets.contains(denom_id(asset)),
        ({
            let w = spec_pay_fee(v, payer, kind, asset, len)->Ok_0;
            let id = denom_id(asset);
            let fee = spec_fee(len as int, v.fees[kind].multiplier as int, v.fees[kind].base as int);
            &&& w.balance(payer, id) == v.balance(payer, id) - fee
            &&& w.block_fee(id) == v.block_fee(id) + fee
        }),
{
}

/// A bridge unlock takes exactly the amount of the bridge asset from the bridge account, gives it
/// to the destination, and records the withdrawal event at its rollup block.
pub proof fn law_bridge_unlock_moves_amount(v: StateView, a: BridgeUnlock, asset: Seq<u8>, signer: Seq<u8>)
    requires
        spec_bridge_unlock_execute(v, a, asset, signer) is Ok,
        a.bridge_address.bytes@ != a.to.bytes@,
    ensures
        ({
            let w = spec_bridge_unlock_execute(v, a, asset, signer)->Ok_0;
            let bridge = a.bridge_address.bytes@;
            &&& w.balance(bridge, asset) == v.balance(bridge, asset) - a.amount
            &&& w.balance(a.to.bytes@, asset) == v.balance(a.to.bytes@, asset) + a.amount
            &&& w.withdrawal_events.contains_key((bridge, a.rollup_withdrawal_event_id@))
            &&& w.withdrawal_events[(bridge, a.rollup_withdrawal_event_id@)] == a.rollup_block_number
        }),
{
}

/// A transfer between bridge accounts moves exactly the amount, appends exactly its deposit and
/// records the withdrawal event at its rollup block.
pub proof fn law_bridge_transfer_moves_and_deposits(
    v: StateView,
    from: Seq<u8>,
    to: Seq<u8>,
    asset: Seq<u8>,
    amount: u128,
    event_id: Seq<char>,
    block: u64,
    signer: Seq<u8>,
    deposit: DepositView,
)
    requires
        spec_bridge_transfer_execute(v, from, to, asset, amount, event_id, block, signer, deposit) is Ok,
        from != to,
    ensures
        ({
            let w = spec_bridge_transfer_execute(v, from, to, asset, amount, event_id, block, signer, deposit)->Ok_0;
            &&& w.balance(from, asset) == v.balance(from, asset) - amount
            &&& w.balance(to, asset) == v.balance(to, asset) + amount
            &&& w.deposits.len() == v.deposits.len() + 1
            &&& w.deposits.last() == deposit
            &&& w.withdrawal_events.contains_key((from, event_id))
            &&& w.withdrawal_events[(from, event_id)] == block
        }),
{
}

/// A sudo address change succeeds exactly when the signer is the sudo address, and then makes
/// the new address the sudo address.
pub proof fn law_sudo_address_change_sets(v: StateView, a: SudoAddressChange, signer: Seq<u8>)
    ensures
        spec_sudo_address_change_execute(v, a, signer) is Ok <==> v.sudo_address == Some(signer),
        spec_sudo_address_change_execute(v, a, signer) is Ok ==> spec_sudo_address_change_execute(
            v,
            a,
            signer,
        )->Ok_0.sudo_address == Some(a.new_address.bytes@),
{
}

/// An IBC sudo change succeeds exactly when the signer is the sudo address, and then makes the
/// new address the IBC sudo address, leaving the sudo address as it was.
pub proof fn law_ibc_sudo_change_sets(v: StateView, a: IbcSudoChange, signer: Seq<u8>)
    ensures
        spec_ibc_sudo_change_execute(v, a, signer) is Ok <==> v.sudo_address == Some(signer),
        spec_ibc_sudo_change_execute(v, a, signer) is Ok ==> {
            let w = spec_ibc_sudo_change_execute(v, a, signer)->Ok_0;
            w.ibc_sudo_address == Some(a.new_address.bytes@) && w.sudo_address == v.sudo_address
        },
{
}

/// A validator update queues exactly the given power for the key, replacing any earlier pending
/// power, and leaves the other pending updates and the current set as they were.
pub proof fn law_validator_update_queued(v: StateView, a: ValidatorUpdate, signer: Seq<u8>, other: Seq<u8>)
    requires
        spec_validator_update_execute(v, a, signer) is Ok,
    ensures
        ({
            let w = spec_validator_update_execute(v, a, signer)->Ok_0;
            &&& w.validator_updates.contains_key(a.verification_key@)
            &&& w.validator_updates[a.verification_key@] == a.power
            &&& other != a.verification_key@ ==> (w.validator_updates.contains_key(other)
                == v.validator_updates.contains_key(other) && w.validator_updates[other]
                == v.validator_updates[other])
            &&& w.validator_set == v.validator_set
        }),
{
}

/// Initializing a bridge account makes the signer a bridge account for the action's rollup and
/// asset, with the given sudo and withdrawer addresses, each defaulting to the signer.
pub proof fn law_init_bridge_account_registers(v: StateView, a: InitBridgeAccount, signer: Seq<u8>)
    requires
        spec_init_bridge_account_execute(v, a, signer) is Ok,
    ensures
        ({
            let w = spec_init_bridge_account_execute(v, a, signer)->Ok_0;
            &&& w.is_bridge_account(signer)
            &&& w.bridge_rollup_ids[signer] == a.rollup_id@
            &&& w.bridge_assets[signer] == denom_id(a.asset)
            &&& w.bridge_sudo_addresses[signer] == (match a.sudo_address {
                Some(x) => x.bytes@,
                None => signer,
            })
            &&& w.bridge_withdrawers[signer] == (match a.withdrawer_address {
                Some(x) => x.bytes@,
                None => signer,
            })
            &&& w.balances == v.balances
        }),
{
}

/// A bridge sudo change sets the sudo and withdrawer addresses that it gives and keeps those it
/// leaves out.
pub proof fn law_bridge_sudo_change_sets(v: StateView, a: BridgeSudoChange, signer: Seq<u8>)
    requires
        spec_bridge_sudo_change_execute(v, a, signer) is Ok,
    ensures
        ({
            let w = spec_bridge_sudo_change_execute(v, a, signer)->Ok_0;
            let b = a.bridge_address.bytes@;
            &&& (match a.new_sudo_address {
                Some(s) => w.bridge_sudo_addresses.contains_key(b) && w.bridge_sudo_addresses[b] == s.bytes@,
                None => w.bridge_sudo_addresses == v.bridge_sudo_addresses,
            })
            &&& (match a.new_withdrawer_address {
                Some(x) => w.bridge_withdrawers.contains_key(b) && w.bridge_withdrawers[b] == x.bytes@,
                None => w.bridge_withdrawers == v.bridge_withdrawers,
            })
        }),
{
}

/// A fee asset change succeeds exactly when the signer is the sudo address and it does not
/// remove the last allowed asset; an addition then allows the asset, and a removal disallows
/// it, other assets keeping their standing.
pub proof fn law_fee_asset_change_effect(v: StateView, a: FeeAssetChange, signer: Seq<u8>, other: Seq<u8>)
    ensures
        spec_fee_asset_change_execute(v, a, signer) is Ok <==> (v.sudo_address == Some(signer) && match a {
            FeeAssetChange::Addition(_) => true,
            FeeAssetChange::Removal(d) => v.allowed_fee_assets.remove(denom_id(d)) != Set::<Seq<u8>>::empty(),
        }),
        spec_fee_asset_change_execute(v, a, signer) is Ok ==> {
            let w = spec_fee_asset_change_execute(v, a, signer)->Ok_0;
            match a {
                FeeAssetChange::Addition(d) => w.allowed_fee_assets.contains(denom_id(d)) && (other
                    != denom_id(d) ==> w.allowed_fee_assets.contains(other) == v.allowed_fee_assets.contains(other)),
                FeeAssetChange::Removal(d) => !w.allowed_fee_assets.contains(denom_id(d)) && (other
                    != denom_id(d) ==> w.allowed_fee_assets.contains(other) == v.allowed_fee_assets.contains(other)),
            }
        },
{
}

/// Removing markets leaves none of their currency pairs, and keeps every other market as it was.
pub proof fn law_removed_markets_absent(m: Map<Seq<char>, MarketView>, ms: Seq<Market>, pair: Seq<char>)
    ensures
        (exists|i: int| 0 <= i < ms.len() && #[trigger] ms[i].currency_pair@ == pair) ==> !spec_remove_markets(m, ms).contains_key(pair),
        (forall|i: int| 0 <= i < ms.len() ==> #[trigger] ms[i].currency_pair@ != pair) ==> (spec_remove_markets(m, ms).contains_key(pair)
            == m.contains_key(pair) && spec_remove_markets(m, ms)[pair] == m[pair]),
    decreases ms.len(),
{
    if ms.len() > 0 {
        law_removed_markets_absent(m, ms.drop_last(), pair);
        if exists|i: int| 0 <= i < ms.len() && #[trigger] ms[i].currency_pair@ == pair {
            let i = choose|i: int| 0 <= i < ms.len() && #[trigger] ms[i].currency_pair@ == pair;
            if i < ms.len() - 1 {
                assert(ms.drop_last()[i] == ms[i]);
            }
        }
        if forall|i: int| 0 <= i < ms.len() ==> #[trigger] ms[i].currency_pair@ != pair {
            assert forall|i: int| 0 <= i < ms.drop_last().len() implies #[trigger] ms.drop_last()[i].currency_pair@ != pair by {
                assert(ms.drop_last()[i] == ms[i]);
            }
            assert(ms[ms.len() - 1].currency_pair@ != pair);
        }
    }
}

/// Updating markets succeeds only if every updated pair is present; the result then holds every
/// updated pair, the last update of the sequence with its new market, and no other pair changes.
pub proof fn law_updated_markets_present(m: Map<Seq<char>, MarketView>, ms: Seq<Market>, pair: Seq<char>)
    requires
        spec_update_markets(m, ms) is Ok,
    ensures
        ({
            let r = spec_update_markets(m, ms)->Ok_0;
            &&& r.dom() == m.dom()
            &&& (forall|i: int| 0 <= i < ms.len() ==> #[trigger] m.contains_key(ms[i].currency_pair@))
            &&& ms.len() > 0 ==> r[ms.last().currency_pair@] == ms.last()@
            &&& (forall|i: int| 0 <= i < ms.len() ==> #[trigger] ms[i].currency_pair@ != pair) ==> r[pair] == m[pair]
        }),
    decreases ms.len(),
{
    if ms.len() > 0 {
        law_updated_markets_present(m, ms.drop_last(), pair);
        let r1 = spec_update_markets(m, ms.drop_last())->Ok_0;
        let r = spec_update_markets(m, ms)->Ok_0;
        assert(r.dom() =~= r1.dom());
        assert forall|i: int| 0 <= i < ms.len() implies #[trigger] m.contains_key(ms[i].currency_pair@) by {
            if i < ms.len() - 1 {
                assert(ms.drop_last()[i] == ms[i]);
            }
        }
        if forall|i: int| 0 <= i < ms.len() ==> #[trigger] ms[i].currency_pair@ != pair {
            assert forall|i: int| 0 <= i < ms.drop_last().len() implies #[trigger] ms.drop_last()[i].currency_pair@ != pair by {
                assert(ms.drop_last()[i] == ms[i]);
            }
            assert(ms[ms.len() - 1].currency_pair@ != pair);
        }
    }
}

/// A rollup data submission handled in one step takes exactly its fee from the sender's
/// balance in the fee asset and adds it to the block's fees.
pub proof fn law_sequence_charges_fee(v: StateView, a: RollupDataSubmission, from: Seq<u8>)
    requires
        spec_sequence_check_and_execute(v, a, from) is Ok,
    ensures
        spec_fee_from_state(v, a.data@.len()) is Ok,
        ({
            let w = spec_sequence_check_and_execute(v, a, from)->Ok_0;
            let fee = spec_fee_from_state(v, a.data@.len())->Ok_0;
            let id = denom_id(a.fee_asset);
            &&& w.balance(from, id) == v.balance(from, id) - fee
            &&& w.block_fee(id) == v.block_fee(id) + fee
        }),
{
}

/// Initializing a bridge account in one step registers the sender as a bridge account for the
/// rollup and asset and takes exactly the base fee from its balance in the fee asset.
pub proof fn law_init_bridge_account_handled(v: StateView, a: InitBridgeAccount, from: Seq<u8>)
    requires
        spec_init_bridge_account_check_and_execute(v, a, from) is Ok,
    ensures
        v.fees.contains_key(FeeKind::InitBridgeAccount),
        !v.is_bridge_account(from),
        ({
            let w = spec_init_bridge_account_check_and_execute(v, a, from)->Ok_0;
            let id = denom_id(a.fee_asset);
            &&& w.is_bridge_account(from)
            &&& w.bridge_rollup_ids[from] == a.rollup_id@
            &&& w.bridge_assets[from] == denom_id(a.asset)
            &&& w.balance(from, id) == v.balance(from, id) - v.fees[FeeKind::InitBridgeAccount].base
        }),
{
}

} // verus!
