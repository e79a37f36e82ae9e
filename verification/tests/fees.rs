use astria_sequencer::error::Error;
use astria_sequencer::fee_query::{
    components,
    find_trace_prefixed_or_return_ibc,
    get_allowed_fee_assets,
    allowed_fee_assets_request,
    get_all_fee_components,
    transaction_fee_request,
    FetchResult,
};
use astria_sequencer::fees::calculate_fee;
use astria_sequencer::handlers::calculate_fee_from_state;
use astria_sequencer::actions::{Action, RollupDataSubmission, Transfer};
use astria_sequencer::primitive::{Address, Denom, TracePrefixed};
use astria_sequencer::state::{FeeComponents, FeeKind, SequencerState};

fn nria() -> TracePrefixed {
    TracePrefixed { trace: vec![], base_denom: "nria".to_string() }
}

fn nria_denom() -> Denom {
    Denom::TracePrefixed(nria())
}

#[test]
fn calculate_fee_ok() {
    assert_eq!(calculate_fee(&[], 1, 0), Some(0));
    assert_eq!(calculate_fee(&[0], 1, 0), Some(1));
    assert_eq!(calculate_fee(&[0u8; 10], 1, 0), Some(10));
    assert_eq!(calculate_fee(&[0u8; 10], 1, 100), Some(110));
}

#[test]
fn calculate_fee_overflows_to_none() {
    assert_eq!(calculate_fee(&[0u8; 2], u128::MAX, 0), None);
    assert_eq!(calculate_fee(&[0u8; 1], 1, u128::MAX), None);
    assert_eq!(calculate_fee(&[], u128::MAX, u128::MAX), Some(u128::MAX));
}

#[test]
fn calculate_fee_from_state_uses_stored_components() {
    let mut state = SequencerState::new();
    assert_eq!(calculate_fee_from_state(&[1, 2, 3], &state), Err(Error::FeesNotFound));
    state.put_fees(FeeKind::RollupDataSubmission, FeeComponents { base: 7, multiplier: 3 });
    assert_eq!(calculate_fee_from_state(&[1, 2, 3], &state), Ok(16));
    state.put_fees(FeeKind::RollupDataSubmission, FeeComponents { base: 1, multiplier: u128::MAX });
    assert_eq!(calculate_fee_from_state(&[1, 2], &state), Err(Error::FeeOverflow));
}

#[test]
fn all_fee_components_report_missing_and_set() {
    let mut state = SequencerState::new();
    state.put_fees(FeeKind::Transfer, FeeComponents { base: 12, multiplier: 0 });
    let all = get_all_fee_components(&state);
    assert_eq!(all.transfer, FetchResult::Component(FeeComponents { base: 12, multiplier: 0 }));
    assert_eq!(all.bridge_lock, FetchResult::Missing);
    assert_eq!(components(&state).err(), Some(Error::BlockHeightNotFound));
    state.put_block_height(5);
    let (height, all) = components(&state).unwrap();
    assert_eq!(height, 5);
    assert_eq!(all.recover_ibc_client, FetchResult::Missing);
}

#[test]
fn allowed_fee_assets_are_traced_where_known() {
    let mut state = SequencerState::new();
    let id = nria_denom().to_ibc_prefixed();
    state.put_allowed_fee_asset(id);
    let unknown = [9u8; 32];
    state.put_allowed_fee_asset(unknown);
    state.put_ibc_asset(nria());
    let assets = get_allowed_fee_assets(&state);
    assert_eq!(assets.len(), 2);
    let mut traced = 0;
    let mut raw = 0;
    for a in &assets {
        match a {
            Denom::TracePrefixed(t) => {
                assert_eq!(t.base_denom, "nria");
                traced += 1;
            }
            Denom::IbcPrefixed(bytes) => {
                assert_eq!(*bytes, unknown);
                raw += 1;
            }
        }
    }
    assert_eq!((traced, raw), (1, 1));
    match find_trace_prefixed_or_return_ibc(&state, unknown) {
        Denom::IbcPrefixed(bytes) => assert_eq!(bytes, unknown),
        Denom::TracePrefixed(_) => panic!("unknown asset should stay an ID"),
    }
}

fn address(byte: u8) -> Address {
    Address { bytes: [byte; 20], prefix: "astria".to_string() }
}

#[test]
fn transaction_fee_request_sums_fees_by_asset() {
    let mut state = SequencerState::new();
    assert_eq!(
        transaction_fee_request(&state, None).err(),
        Some(Error::TransactionDecodeFailed)
    );
    assert_eq!(
        transaction_fee_request(&state, Some(vec![])).err(),
        Some(Error::BlockHeightNotFound)
    );
    state.put_block_height(3);
    state.put_fees(FeeKind::Transfer, FeeComponents { base: 10, multiplier: 0 });
    state.put_fees(FeeKind::RollupDataSubmission, FeeComponents { base: 1, multiplier: 2 });
    let actions = vec![
        Action::Transfer(Transfer { to: address(2), asset: nria_denom(), amount: 5, fee_asset: nria_denom() }),
        Action::RollupDataSubmission(RollupDataSubmission {
            rollup_id: [1; 32],
            data: vec![0; 4],
            fee_asset: nria_denom(),
        }),
    ];
    assert_eq!(
        transaction_fee_request(&state, Some(actions)).err(),
        Some(Error::IbcAssetNotFound)
    );
    state.put_ibc_asset(nria());
    let actions = vec![
        Action::Transfer(Transfer { to: address(2), asset: nria_denom(), amount: 5, fee_asset: nria_denom() }),
        Action::RollupDataSubmission(RollupDataSubmission {
            rollup_id: [1; 32],
            data: vec![0; 4],
            fee_asset: nria_denom(),
        }),
    ];
    let (height, fees) = transaction_fee_request(&state, Some(actions)).unwrap();
    assert_eq!(height, 3);
    assert_eq!(fees.len(), 1);
    assert_eq!(fees[0].0.base_denom, "nria");
    assert_eq!(fees[0].1, 10 + 1 + 2 * 4);
}

#[test]
fn transaction_fee_request_needs_fee_components() {
    let mut state = SequencerState::new();
    state.put_block_height(3);
    let actions = vec![Action::Transfer(Transfer {
        to: address(2),
        asset: nria_denom(),
        amount: 5,
        fee_asset: nria_denom(),
    })];
    assert_eq!(transaction_fee_request(&state, Some(actions)).err(), Some(Error::FeesNotFound));
}

#[test]
fn allowed_fee_assets_request_needs_height() {
    let mut state = SequencerState::new();
    state.put_allowed_fee_asset(nria_denom().to_ibc_prefixed());
    assert_eq!(allowed_fee_assets_request(&state).err(), Some(Error::BlockHeightNotFound));
    state.put_block_height(11);
    assert!(!state.has_ibc_asset(&nria_denom().to_ibc_prefixed()));
    state.put_ibc_asset(nria());
    assert!(state.has_ibc_asset(&nria_denom().to_ibc_prefixed()));
    let (height, assets) = allowed_fee_assets_request(&state).ok().unwrap();
    assert_eq!(height, 11);
    assert_eq!(assets.len(), 1);
    match &assets[0] {
        Denom::TracePrefixed(t) => assert_eq!(t.base_denom, "nria"),
        Denom::IbcPrefixed(_) => panic!("expected the traced denomination"),
    }
}
