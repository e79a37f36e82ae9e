use astria_sequencer::actions::{Action, RollupDataSubmission, Transfer};
use astria_sequencer::checked_transaction::{CheckedTransaction, TransactionBody};
use astria_sequencer::fee_query::{total_fees, transaction_fee_request};
use astria_sequencer::primitive::{Address, Denom, TracePrefixed};
use astria_sequencer::state::{FeeComponents, FeeKind, SequencerState};

const SIGNER: [u8; 20] = [1; 20];

fn nria() -> TracePrefixed {
    TracePrefixed { trace: vec![], base_denom: "nria".to_string() }
}

fn nria_denom() -> Denom {
    Denom::TracePrefixed(nria())
}

fn nria_id() -> [u8; 32] {
    nria_denom().to_ibc_prefixed()
}

fn fixture() -> SequencerState {
    let mut state = SequencerState::new();
    state.set_base_prefix("astria".to_string());
    state.put_chain_id_and_revision_number("test".to_string());
    state.put_block_height(9);
    state.put_ibc_asset(nria());
    state.put_allowed_fee_asset(nria_id());
    state.put_fees(FeeKind::Transfer, FeeComponents { base: 12, multiplier: 0 });
    state.put_fees(FeeKind::RollupDataSubmission, FeeComponents { base: 32, multiplier: 1 });
    state.put_account_balance(SIGNER, nria_id(), 1_000);
    state
}

fn actions() -> Vec<Action> {
    vec![
        Action::Transfer(Transfer {
            to: Address { bytes: [2; 20], prefix: "astria".to_string() },
            asset: nria_denom(),
            amount: 100,
            fee_asset: nria_denom(),
        }),
        Action::RollupDataSubmission(RollupDataSubmission {
            rollup_id: [3; 32],
            data: vec![7; 10],
            fee_asset: nria_denom(),
        }),
    ]
}

#[test]
fn quoted_fees_are_the_fees_charged() {
    let mut state = fixture();
    let quoted = total_fees(&actions(), &state).ok().unwrap();
    assert_eq!(quoted.get(&nria_id()), Some(&(12 + 32 + 10)));
    let (height, traced) = transaction_fee_request(&state, Some(actions())).ok().unwrap();
    assert_eq!(height, 9);
    assert_eq!(traced.len(), 1);
    assert_eq!(traced[0].0.base_denom, "nria");
    assert_eq!(traced[0].1, 12 + 32 + 10);

    let body = TransactionBody { actions: actions(), chain_id: "test".to_string(), nonce: 0, signer: SIGNER };
    let tx = CheckedTransaction::new(b"quoted".to_vec(), Some(body), &state).ok().unwrap();
    assert_eq!(tx.execute(&mut state, &vec![]), Ok(()));
    assert_eq!(state.get_block_fees(&nria_id()), 12 + 32 + 10);
    assert_eq!(state.get_account_balance(&SIGNER, &nria_id()), 1_000 - 100 - (12 + 32 + 10));
}

#[test]
fn transaction_advances_nonce_by_one() {
    let mut state = fixture();
    for nonce in 0..3u32 {
        let body = TransactionBody {
            actions: vec![actions().remove(1)],
            chain_id: "test".to_string(),
            nonce,
            signer: SIGNER,
        };
        let tx = CheckedTransaction::new(vec![nonce as u8], Some(body), &state).ok().unwrap();
        assert_eq!(tx.execute(&mut state, &vec![]), Ok(()));
        assert_eq!(state.get_account_nonce(&SIGNER), nonce + 1);
    }
}
