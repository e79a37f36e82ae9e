use astria_sequencer::actions::{Action, IbcRelay, RollupDataSubmission, Transfer};
use astria_sequencer::checked_actions::checked_action::IbcReport;
use astria_sequencer::checked_transaction::{CheckedTransaction, TransactionBody, TransactionError, MAX_TX_BYTES};
use astria_sequencer::error::Error;
use astria_sequencer::primitive::{Address, Denom, TracePrefixed};
use astria_sequencer::state::{FeeComponents, FeeKind, SequencerState};
use sha2::Digest;

const SIGNER: [u8; 20] = [1; 20];

fn nria_denom() -> Denom {
    Denom::TracePrefixed(TracePrefixed { trace: vec![], base_denom: "nria".to_string() })
}

fn nria_id() -> [u8; 32] {
    nria_denom().to_ibc_prefixed()
}

fn address(byte: u8) -> Address {
    Address { bytes: [byte; 20], prefix: "astria".to_string() }
}

fn fixture() -> SequencerState {
    let mut state = SequencerState::new();
    state.set_base_prefix("astria".to_string());
    state.put_chain_id_and_revision_number("test".to_string());
    state.put_allowed_fee_asset(nria_id());
    state.put_fees(FeeKind::Transfer, FeeComponents { base: 12, multiplier: 0 });
    state.put_fees(FeeKind::RollupDataSubmission, FeeComponents { base: 32, multiplier: 1 });
    state.put_account_balance(SIGNER, nria_id(), 1_000);
    state
}

fn transfer(amount: u128) -> Action {
    Action::Transfer(Transfer { to: address(2), asset: nria_denom(), amount, fee_asset: nria_denom() })
}

fn body(actions: Vec<Action>, nonce: u32, chain_id: &str) -> TransactionBody {
    TransactionBody { actions, chain_id: chain_id.to_string(), nonce, signer: SIGNER }
}

#[test]
fn toodoo() {
    // The original test of this name is a placeholder; here: a one-action transaction checks.
    let state = fixture();
    assert!(CheckedTransaction::new(b"t".to_vec(), Some(body(vec![transfer(1)], 0, "test")), &state).is_ok());
}

#[test]
fn transaction_executes_actions_and_pays_fees() {
    // A transfer and a rollup data submission execute in order, each paying its fee.
    let mut state = fixture();
    let actions = vec![
        transfer(100),
        Action::RollupDataSubmission(RollupDataSubmission {
            rollup_id: [3; 32],
            data: vec![1, 2, 3, 4],
            fee_asset: nria_denom(),
        }),
    ];
    let tx = CheckedTransaction::new(b"tx-bytes".to_vec(), Some(body(actions, 0, "test")), &state).ok().unwrap();
    let expected_id: [u8; 32] = sha2::Sha256::digest(b"tx-bytes").into();
    assert_eq!(*tx.id(), expected_id);
    assert_eq!(tx.nonce(), 0);
    assert_eq!(tx.chain_id(), "test");
    assert_eq!(tx.address_bytes(), SIGNER);
    assert_eq!(tx.checked_actions().len(), 2);
    assert_eq!(tx.encoded_bytes(), &b"tx-bytes".to_vec());
    let rollup_data = tx.rollup_data_bytes();
    assert_eq!(rollup_data.len(), 1);
    assert_eq!(rollup_data[0].0, [3; 32]);
    assert_eq!(rollup_data[0].1, vec![1, 2, 3, 4]);
    let costs = tx.total_costs(&state).ok().unwrap();
    assert_eq!(costs.get(&nria_id()), Some(&(12 + 32 + 4 + 100)));
    assert_eq!(tx.run_mutable_checks(&state, &vec![]), Ok(()));
    assert_eq!(tx.execute(&mut state, &vec![]), Ok(()));
    assert_eq!(state.get_account_nonce(&SIGNER), 1);
    assert_eq!(state.get_account_balance(&SIGNER, &nria_id()), 1_000 - 100 - 12 - 36);
    assert_eq!(state.get_account_balance(&[2; 20], &nria_id()), 100);
    assert_eq!(state.get_block_fees(&nria_id()), 12 + 36);
    // Executing again fails on the nonce and leaves the state as it was.
    assert_eq!(tx.execute(&mut state, &vec![]), Err(TransactionError::InvalidNonce { expected: 1, tx_nonce: 0 }));
    assert_eq!(state.get_account_nonce(&SIGNER), 1);
}

#[test]
fn transaction_construction_errors() {
    let state = fixture();
    let big = vec![0u8; MAX_TX_BYTES + 1];
    assert_eq!(
        CheckedTransaction::new(big, Some(body(vec![transfer(1)], 0, "test")), &state).err(),
        Some(TransactionError::TooLarge { tx_len: MAX_TX_BYTES + 1 })
    );
    assert_eq!(
        CheckedTransaction::new(b"x".to_vec(), None, &state).err(),
        Some(TransactionError::DecodeFailed)
    );
    assert_eq!(
        CheckedTransaction::new(b"x".to_vec(), Some(body(vec![], 0, "test")), &state).err(),
        Some(TransactionError::NoActions)
    );
    assert_eq!(
        CheckedTransaction::new(b"x".to_vec(), Some(body(vec![transfer(1)], 0, "other")), &state).err(),
        Some(TransactionError::ChainIdMismatch { expected: "test".to_string(), tx_chain_id: "other".to_string() })
    );
    let empty_data = Action::RollupDataSubmission(RollupDataSubmission {
        rollup_id: [3; 32],
        data: vec![],
        fee_asset: nria_denom(),
    });
    assert_eq!(
        CheckedTransaction::new(b"x".to_vec(), Some(body(vec![transfer(1), empty_data], 0, "test")), &state).err(),
        Some(TransactionError::Action(Error::EmptyData))
    );
}

#[test]
fn failed_action_rolls_back_whole_transaction() {
    let mut state = fixture();
    let tx = CheckedTransaction::new(
        b"y".to_vec(),
        Some(body(vec![transfer(500), transfer(600)], 0, "test")),
        &state,
    )
    .ok()
    .unwrap();
    assert_eq!(tx.execute(&mut state, &vec![]), Err(TransactionError::Action(Error::InsufficientFunds)));
    assert_eq!(state.get_account_nonce(&SIGNER), 0);
    assert_eq!(state.get_account_balance(&SIGNER, &nria_id()), 1_000);
    assert_eq!(state.get_account_balance(&[2; 20], &nria_id()), 0);
}

#[test]
fn wrong_nonce_is_rejected() {
    let mut state = fixture();
    let tx = CheckedTransaction::new(b"z".to_vec(), Some(body(vec![transfer(1)], 5, "test")), &state).ok().unwrap();
    assert_eq!(tx.execute(&mut state, &vec![]), Err(TransactionError::InvalidNonce { expected: 0, tx_nonce: 5 }));
}

#[test]
fn fee_asset_must_be_allowed() {
    let mut state = fixture();
    let other = Denom::IbcPrefixed([9; 32]);
    let action = Action::Transfer(Transfer { to: address(2), asset: nria_denom(), amount: 1, fee_asset: other });
    let tx = CheckedTransaction::new(b"f".to_vec(), Some(body(vec![action], 0, "test")), &state).ok().unwrap();
    assert_eq!(tx.execute(&mut state, &vec![]), Err(TransactionError::Action(Error::FeeAssetNotAllowed)));
}

#[test]
fn ibc_relay_needs_relayer_and_report() {
    let mut state = fixture();
    let relay = Action::Ibc(IbcRelay { raw: vec![1, 2] }, true);
    assert_eq!(
        CheckedTransaction::new(b"r".to_vec(), Some(body(vec![relay], 0, "test")), &state).err(),
        Some(TransactionError::Action(Error::NotAuthorized))
    );
    state.put_ibc_relayer_address(SIGNER);
    let relay = Action::Ibc(IbcRelay { raw: vec![1, 2] }, false);
    assert_eq!(
        CheckedTransaction::new(b"r".to_vec(), Some(body(vec![relay], 0, "test")), &state).err(),
        Some(TransactionError::Action(Error::IbcStatelessCheckFailed))
    );
    let relay = Action::Ibc(IbcRelay { raw: vec![1, 2] }, true);
    let tx = CheckedTransaction::new(b"r".to_vec(), Some(body(vec![relay], 0, "test")), &state).ok().unwrap();
    assert_eq!(tx.execute(&mut state, &vec![IbcReport::Passed(false)]), Err(TransactionError::Action(Error::IbcExecutionFailed)));
    assert_eq!(tx.execute(&mut state, &vec![IbcReport::Passed(true)]), Ok(()));
    assert_eq!(state.get_account_nonce(&SIGNER), 1);
}
