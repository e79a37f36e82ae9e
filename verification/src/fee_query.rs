//! Answers to fee queries: the fee components of every kind of action, the assets allowed for
//! fees and the fees a transaction would pay.
use vstd::prelude::*;

use crate::actions::Action;
use crate::checked_transaction::{add_fee, spec_add_fee, spec_fee_sum};
use crate::error::Error;
use crate::map::{AssocMap, Dup};
use crate::primitive::{denom_view, Denom, DenomView, IbcPrefixed, TracePrefixed, TraceView};
use crate::state::{FeeComponents, FeeKind, SequencerState, StateView};

verus! {

/// What reading the fee components of a kind of action gave.
#[derive(Debug, Clone, Copy, PartialEq, Eq, Structural)]
pub enum FetchResult {
    /// No fee components are set.
    Missing,
    Component(FeeComponents),
}

/// What reading the fee components of `kind` gives.
pub open spec fn spec_fetch(v: StateView, kind: FeeKind) -> FetchResult {
    if v.fees.contains_key(kind) {
        FetchResult::Component(v.fees[kind])
    } else {
        FetchResult::Missing
    }
}

/// The fetch result of an optional reading.
pub fn fetch_result_from(value: Option<FeeComponents>) -> (r: FetchResult)
    ensures
        r == (match value {
            Some(c) => FetchResult::Component(c),
            None => FetchResult::Missing,
        }),
{
    match value {
        Some(c) => FetchResult::Component(c),
        None => FetchResult::Missing,
    }
}

/// The fee components of every kind of action.
#[derive(Debug, Clone, Copy, PartialEq, Eq, Structural)]
pub struct AllFeeComponents {
    pub transfer: FetchResult,
    pub rollup_data_submission: FetchResult,
    pub ics20_withdrawal: FetchResult,
    pub init_bridge_account: FetchResult,
    pub bridge_lock: FetchResult,
    pub bridge_unlock: FetchResult,
    pub bridge_transfer: FetchResult,
    pub bridge_sudo_change: FetchResult,
    pub ibc_relay: FetchResult,
    pub validator_update: FetchResult,
    pub fee_asset_change: FetchResult,
    pub fee_change: FetchResult,
    pub ibc_relayer_change: FetchResult,
    pub sudo_address_change: FetchResult,
    pub ibc_sudo_change: FetchResult,
    pub recover_ibc_client: FetchResult,
}

/// The fee components of every kind of action in the state.
pub open spec fn spec_all_fee_components(v: StateView) -> AllFeeComponents {
    AllFeeComponents {
        transfer: spec_fetch(v, FeeKind::Transfer),
        rollup_data_submission: spec_fetch(v, FeeKind::RollupDataSubmission),
        ics20_withdrawal: spec_fetch(v, FeeKind::Ics20Withdrawal),
        init_bridge_account: spec_fetch(v, FeeKind::InitBridgeAccount),
        bridge_lock: spec_fetch(v, FeeKind::BridgeLock),
        bridge_unlock: spec_fetch(v, FeeKind::BridgeUnlock),
        bridge_transfer: spec_fetch(v, FeeKind::BridgeTransfer),
        bridge_sudo_change: spec_fetch(v, FeeKind::BridgeSudoChange),
        ibc_relay: spec_fetch(v, FeeKind::IbcRelay),
        validator_update: spec_fetch(v, FeeKind::ValidatorUpdate),
        fee_asset_change: spec_fetch(v, FeeKind::FeeAssetChange),
        fee_change: spec_fetch(v, FeeKind::FeeChange),
        ibc_relayer_change: spec_fetch(v, FeeKind::IbcRelayerChange),
        sudo_address_change: spec_fetch(v, FeeKind::SudoAddressChange),
        ibc_sudo_change: spec_fetch(v, FeeKind::IbcSudoChange),
        recover_ibc_client: spec_fetch(v, FeeKind::RecoverIbcClient),
    }
}

/// Reads the fee components of every kind of action.
pub fn get_all_fee_components(state: &SequencerState) -> (r: AllFeeComponents)
    requires
        state.wf(),
    ensures
        r == spec_all_fee_components(state@),
{
    AllFeeComponents {
        transfer: fetch_result_from(state.get_fees(FeeKind::Transfer)),
        rollup_data_submission: fetch_result_from(state.get_fees(FeeKind::RollupDataSubmission)),
        ics20_withdrawal: fetch_result_from(state.get_fees(FeeKind::Ics20Withdrawal)),
        init_bridge_account: fetch_result_from(state.get_fees(FeeKind::InitBridgeAccount)),
        bridge_lock: fetch_result_from(state.get_fees(FeeKind::BridgeLock)),
        bridge_unlock: fetch_result_from(state.get_fees(FeeKind::BridgeUnlock)),
        bridge_transfer: fetch_result_from(state.get_fees(FeeKind::BridgeTransfer)),
        bridge_sudo_change: fetch_result_from(state.get_fees(FeeKind::BridgeSudoChange)),
        ibc_relay: fetch_result_from(state.get_fees(FeeKind::IbcRelay)),
        validator_update: fetch_result_from(state.get_fees(FeeKind::ValidatorUpdate)),
        fee_asset_change: fetch_result_from(state.get_fees(FeeKind::FeeAssetChange)),
        fee_change: fetch_result_from(state.get_fees(FeeKind::FeeChange)),
        ibc_relayer_change: fetch_result_from(state.get_fees(FeeKind::IbcRelayerChange)),
        sudo_address_change: fetch_result_from(state.get_fees(FeeKind::SudoAddressChange)),
        ibc_sudo_change: fetch_result_from(state.get_fees(FeeKind::IbcSudoChange)),
        recover_ibc_client: fetch_result_from(state.get_fees(FeeKind::RecoverIbcClient)),
    }
}

/// Answers a query for the fee components: the block height and the components of every kind.
pub fn components(state: &SequencerState) -> (r: Result<(u64, AllFeeComponents), Error>)
    requires
        state.wf(),
    ensures
        match state@.block_height {
            Some(h) => r == Ok::<(u64, AllFeeComponents), Error>((h, spec_all_fee_components(state@))),
            None => r == Err::<(u64, AllFeeComponents), Error>(Error::BlockHeightNotFound),
        },
{
    let height = match state.block_height() {
        Some(h) => h,
        None => return Err(Error::BlockHeightNotFound),
    };
    Ok((height, get_all_fee_components(state)))
}

/// The denomination of an asset ID: its trace-prefixed denomination if one is stored, else the
/// ID itself.
pub open spec fn spec_trace_or_ibc(v: StateView, asset: Seq<u8>) -> DenomView {
    if v.ibc_assets.contains_key(asset) {
        DenomView::TracePrefixed(v.ibc_assets[asset])
    } else {
        DenomView::IbcPrefixed(asset)
    }
}

/// The trace-prefixed denomination stored for an asset ID, or the ID itself.
pub fn find_trace_prefixed_or_return_ibc(state: &SequencerState, asset: IbcPrefixed) -> (r: Denom)
    requires
        state.wf(),
    ensures
        denom_view(r) == spec_trace_or_ibc(state@, asset@),
{
    match state.map_ibc_to_trace_prefixed_asset(&asset) {
        Some(t) => Denom::TracePrefixed(t.dup()),
        None => Denom::IbcPrefixed(asset),
    }
}

/// The assets allowed for fees, each by its denomination.
pub fn get_allowed_fee_assets(state: &SequencerState) -> (r: Vec<Denom>)
    requires
        state.wf(),
    ensures
        exists|ids: Seq<Seq<u8>>|
            {
                &&& ids.no_duplicates()
                &&& ids.to_set() == state@.allowed_fee_assets
                &&& r@.len() == ids.len()
                &&& forall|i: int|
                    0 <= i < ids.len() ==> #[trigger] denom_view(r@[i]) == spec_trace_or_ibc(
                        state@,
                        ids[i],
                    )
            },
{
    let assets = state.allowed_fee_assets();
    let ghost ids = assets@.map_values(|a: IbcPrefixed| a@);
    let mut r: Vec<Denom> = Vec::new();
    let mut i: usize = 0;
    while i < assets.len()
        invariant
            state.wf(),
            ids == assets@.map_values(|a: IbcPrefixed| a@),
            0 <= i <= assets@.len(),
            r@.len() == i,
            forall|j: int| 0 <= j < i ==> #[trigger] denom_view(r@[j]) == spec_trace_or_ibc(state@, ids[j]),
        decreases assets@.len() - i,
    {
        r.push(find_trace_prefixed_or_return_ibc(state, assets[i]));
        i = i + 1;
    }
    r
}

/// Answers a query for the assets allowed for fees: the block height and the assets.
pub fn allowed_fee_assets_request(state: &SequencerState) -> (r: Result<(u64, Vec<Denom>), Error>)
    requires
        state.wf(),
    ensures
        match state@.block_height {
            Some(h) => r is Ok && r->Ok_0.0 == h && exists|ids: Seq<Seq<u8>>|
                {
                    &&& ids.no_duplicates()
                    &&& ids.to_set() == state@.allowed_fee_assets
                    &&& r->Ok_0.1@.len() == ids.len()
                    &&& forall|i: int|
                        0 <= i < ids.len() ==> #[trigger] denom_view(r->Ok_0.1@[i])
                            == spec_trace_or_ibc(state@, ids[i])
                },
            None => r is Err && r->Err_0 == Error::BlockHeightNotFound,
        },
{
    let height = match state.block_height() {
        Some(h) => h,
        None => return Err(Error::BlockHeightNotFound),
    };
    Ok((height, get_allowed_fee_assets(state)))
}

/// The fee that an action would pay: its kind, the asset it pays in and the length of its
/// payload. Actions without a fee asset pay none.
pub open spec fn spec_unchecked_fee(a: Action) -> Option<(FeeKind, Denom, nat)> {
    match a {
        Action::RollupDataSubmission(x) => Some(
            (FeeKind::RollupDataSubmission, x.fee_asset, x.data@.len()),
        ),
        Action::Transfer(x) => Some((FeeKind::Transfer, x.fee_asset, 0)),
        Action::Ics20Withdrawal(x, _) => Some((FeeKind::Ics20Withdrawal, x.fee_asset, 0)),
        Action::InitBridgeAccount(x) => Some((FeeKind::InitBridgeAccount, x.fee_asset, 0)),
        Action::BridgeLock(x) => Some((FeeKind::BridgeLock, x.fee_asset, 0)),
        Action::BridgeUnlock(x) => Some((FeeKind::BridgeUnlock, x.fee_asset, 0)),
        Action::BridgeSudoChange(x) => Some((FeeKind::BridgeSudoChange, x.fee_asset, 0)),
        Action::BridgeTransfer(x) => Some((FeeKind::BridgeTransfer, x.fee_asset, 0)),
        _ => None,
    }
}

/// The fees that a sequence of actions would pay, by asset.
pub open spec fn spec_unchecked_total_fees(v: StateView, actions: Seq<Action>) -> Result<Map<Seq<u8>, u128>, Error> {
    spec_fee_sum(v, actions.map_values(|a: Action| spec_unchecked_fee(a)))
}

/// Sums the fees that the actions would pay, by asset.
pub fn total_fees(actions: &Vec<Action>, state: &SequencerState) -> (r: Result<AssocMap<IbcPrefixed, u128>, Error>)
    requires
        state.wf(),
    ensures
        match spec_unchecked_total_fees(state@, actions@) {
            Ok(m) => r is Ok && r->Ok_0.wf() && r->Ok_0@ == m,
            Err(e) => r is Err && r->Err_0 == e,
        },
{
    let ghost fees = actions@.map_values(|a: Action| spec_unchecked_fee(a));
    let mut costs: AssocMap<IbcPrefixed, u128> = AssocMap::new();
    let empty: Vec<u8> = Vec::new();
    let mut i: usize = 0;
    while i < actions.len()
        invariant
            state.wf(),
            0 <= i <= actions@.len(),
            fees == actions@.map_values(|a: Action| spec_unchecked_fee(a)),
            costs.wf(),
            spec_fee_sum(state@, fees.subrange(0, i as int)) == Ok::<Map<Seq<u8>, u128>, Error>(costs@),
            empty@.len() == 0,
        decreases actions@.len() - i,
    {
        let action = &actions[i];
        proof {
            assert(fees.subrange(0, i + 1).drop_last() =~= fees.subrange(0, i as int));
            assert(fees.subrange(0, i + 1).last() == spec_unchecked_fee(*action));
        }
        let fee_info = match action {
            Action::RollupDataSubmission(a) => Some(
                (FeeKind::RollupDataSubmission, &a.fee_asset, a.data.as_slice()),
            ),
            Action::Transfer(a) => Some((FeeKind::Transfer, &a.fee_asset, empty.as_slice())),
            Action::Ics20Withdrawal(a, _) => Some((FeeKind::Ics20Withdrawal, &a.fee_asset, empty.as_slice())),
            Action::InitBridgeAccount(a) => Some((FeeKind::InitBridgeAccount, &a.fee_asset, empty.as_slice())),
            Action::BridgeLock(a) => Some((FeeKind::BridgeLock, &a.fee_asset, empty.as_slice())),
            Action::BridgeUnlock(a) => Some((FeeKind::BridgeUnlock, &a.fee_asset, empty.as_slice())),
            Action::BridgeSudoChange(a) => Some((FeeKind::BridgeSudoChange, &a.fee_asset, empty.as_slice())),
            Action::BridgeTransfer(a) => Some((FeeKind::BridgeTransfer, &a.fee_asset, empty.as_slice())),
            _ => None,
        };
        match fee_info {
            None => {},
            Some((kind, asset, payload)) => {
                match add_fee(&mut costs, state, kind, asset, payload) {
                    Ok(()) => {},
                    Err(e) => {
                        proof {
                            crate::checked_transaction::lemma_fee_sum_fails_on_prefix(
                                state@,
                                fees,
                                i as int + 1,
                            );
                        }
                        return Err(e);
                    },
                }
            },
        }
        i = i + 1;
    }
    proof {
        assert(fees.subrange(0, actions@.len() as int) =~= fees);
    }
    Ok(costs)
}

/// Every asset ID with a fee has a stored trace-prefixed denomination.
pub open spec fn all_traced(v: StateView, m: Map<Seq<u8>, u128>) -> bool {
    forall|k: Seq<u8>| #[trigger] m.contains_key(k) ==> v.ibc_assets.contains_key(k)
}

/// `fees` lists each fee of `m` once, under the trace-prefixed denomination of its asset.
pub open spec fn traced_fees(v: StateView, m: Map<Seq<u8>, u128>, fees: Seq<(TracePrefixed, u128)>) -> bool {
    exists|ids: Seq<Seq<u8>>|
        {
            &&& ids.no_duplicates()
            &&& ids.to_set() == m.dom()
            &&& fees.len() == ids.len()
            &&& forall|i: int|
                0 <= i < ids.len() ==> #[trigger] fees[i].0@ == v.ibc_assets[ids[i]] && fees[i].1
                    == m[ids[i]]
        }
}

/// Lists the fees under the trace-prefixed denominations of their assets.
fn trace_fees(state: &SequencerState, fees_with_ibc_denoms: &AssocMap<IbcPrefixed, u128>) -> (r: Result<Vec<(TracePrefixed, u128)>, Error>)
    requires
        state.wf(),
        fees_with_ibc_denoms.wf(),
    ensures
        all_traced(state@, fees_with_ibc_denoms@) ==> r is Ok && traced_fees(
            state@,
            fees_with_ibc_denoms@,
            r->Ok_0@,
        ),
        !all_traced(state@, fees_with_ibc_denoms@) ==> r is Err && r->Err_0 == Error::IbcAssetNotFound,
{
    let keys = fees_with_ibc_denoms.keys();
    proof {
        fees_with_ibc_denoms.lemma_key_seq();
    }
    let ghost ids = keys@.map_values(|a: IbcPrefixed| a@);
    let ghost m = fees_with_ibc_denoms@;
    let mut fees: Vec<(TracePrefixed, u128)> = Vec::new();
    let mut i: usize = 0;
    while i < keys.len()
        invariant
            state.wf(),
            fees_with_ibc_denoms.wf(),
            m == fees_with_ibc_denoms@,
            ids == keys@.map_values(|a: IbcPrefixed| a@),
            ids.no_duplicates(),
            ids.to_set() == m.dom(),
            0 <= i <= keys@.len(),
            fees@.len() == i,
            forall|j: int| 0 <= j < i ==> state@.ibc_assets.contains_key(#[trigger] ids[j]),
            forall|j: int|
                0 <= j < i ==> #[trigger] fees@[j].0@ == state@.ibc_assets[ids[j]] && fees@[j].1
                    == m[ids[j]],
        decreases keys@.len() - i,
    {
        let key = keys[i];
        proof {
            assert(ids[i as int] == key@);
            assert(ids.to_set().contains(ids[i as int]));
        }
        let value = match fees_with_ibc_denoms.get(&key) {
            Some(v) => *v,
            None => 0,
        };
        let trace = match state.map_ibc_to_trace_prefixed_asset(&key) {
            Some(t) => t.dup(),
            None => {
                proof {
                    assert(m.contains_key(key@));
                }
                return Err(Error::IbcAssetNotFound);
            },
        };
        proof {
            assert(m.contains_key(key@));
            assert(value == m[key@]);
        }
        fees.push((trace, value));
        proof {
            assert(fees@[i as int].0@ == state@.ibc_assets[ids[i as int]]);
            assert(fees@[i as int].1 == m[ids[i as int]]);
        }
        i = i + 1;
    }
    proof {
        assert forall|k: Seq<u8>| #[trigger] m.contains_key(k) implies state@.ibc_assets.contains_key(k) by {
            assert(ids.to_set().contains(k));
            let j = choose|j: int| 0 <= j < ids.len() && ids[j] == k;
            assert(state@.ibc_assets.contains_key(ids[j]));
        }
        assert(fees@.len() == ids.len());
    }
    Ok(fees)
}

/// Answers a query for the fees of a transaction, given its actions if its body decoded: the
/// block height and the fee in each asset, by the asset's trace-prefixed denomination.
pub fn transaction_fee_request(state: &SequencerState, actions: Option<Vec<Action>>) -> (r: Result<(u64, Vec<(TracePrefixed, u128)>), Error>)
    requires
        state.wf(),
    ensures
        match actions {
            None => r is Err && r->Err_0 == Error::TransactionDecodeFailed,
            Some(acts) => match state@.block_height {
                None => r is Err && r->Err_0 == Error::BlockHeightNotFound,
                Some(h) => match spec_unchecked_total_fees(state@, acts@) {
                    Err(e) => r is Err && r->Err_0 == e,
                    Ok(m) => if all_traced(state@, m) {
                        r is Ok && r->Ok_0.0 == h && traced_fees(state@, m, r->Ok_0.1@)
                    } else {
                        r is Err && r->Err_0 == Error::IbcAssetNotFound
                    },
                },
            },
        },
{
    let actions = match actions {
        Some(a) => a,
        None => return Err(Error::TransactionDecodeFailed),
    };
    let height = match state.block_height() {
        Some(h) => h,
        None => return Err(Error::BlockHeightNotFound),
    };
    let fees_with_ibc_denoms = total_fees(&actions, state)?;
    let fees = trace_fees(state, &fees_with_ibc_denoms)?;
    Ok((height, fees))
}

} // verus!
