use astria_sequencer::actions::{IbcHeight, RecoverIbcClient};
use astria_sequencer::checked_actions::recover_ibc_client::{
    ClientInfo, ClientState, ClientStatus, CheckedRecoverIbcClient, IbcDuration, TrustThreshold,
};
use astria_sequencer::error::Error;
use astria_sequencer::state::SequencerState;

const SUDO: [u8; 20] = [7; 20];

fn state() -> SequencerState {
    let mut state = SequencerState::new();
    state.put_sudo_address(SUDO);
    state.put_block_timestamp(100);
    state
}

fn client(height: u64) -> ClientState {
    ClientState {
        chain_id: "other-1".to_string(),
        trust_level: TrustThreshold { numerator: 1, denominator: 3 },
        trusting_period: IbcDuration { secs: 10, nanos: 0 },
        unbonding_period: IbcDuration { secs: 20, nanos: 0 },
        max_clock_drift: IbcDuration { secs: 5, nanos: 0 },
        latest_height: IbcHeight { revision_number: 1, revision_height: height },
        proof_specs: vec![1, 2, 3],
        upgrade_path: vec!["upgrade".to_string()],
        frozen_height: None,
    }
}

fn check(subject: ClientState, substitute: ClientState) -> Result<(), Error> {
    let action = RecoverIbcClient {
        client_id: "07-tendermint-0".to_string(),
        replacement_client_id: "07-tendermint-1".to_string(),
    };
    let subject = ClientInfo { status: ClientStatus::Expired, state: Some(subject) };
    let substitute = ClientInfo { status: ClientStatus::Active, state: Some(substitute) };
    CheckedRecoverIbcClient::new(action, SUDO, &state(), &subject, &substitute).map(|_| ())
}

#[test]
fn recover_client_names_first_mismatching_field() {
    assert_eq!(check(client(5), client(9)), Ok(()));

    let mut sub = client(9);
    sub.trust_level = TrustThreshold { numerator: 2, denominator: 3 };
    sub.unbonding_period = IbcDuration { secs: 21, nanos: 0 };
    assert_eq!(check(client(5), sub), Err(Error::TrustLevelMismatch));

    let mut sub = client(9);
    sub.unbonding_period = IbcDuration { secs: 21, nanos: 0 };
    sub.proof_specs = vec![9];
    assert_eq!(check(client(5), sub), Err(Error::UnbondingPeriodMismatch));

    let mut sub = client(9);
    sub.max_clock_drift = IbcDuration { secs: 6, nanos: 0 };
    assert_eq!(check(client(5), sub), Err(Error::MaxClockDriftMismatch));

    let mut sub = client(9);
    sub.proof_specs = vec![9];
    sub.upgrade_path = vec![];
    assert_eq!(check(client(5), sub), Err(Error::ProofSpecsMismatch));

    let mut sub = client(9);
    sub.upgrade_path = vec![];
    assert_eq!(check(client(5), sub), Err(Error::UpgradePathMismatch));

    // fields that may differ
    let mut sub = client(9);
    sub.chain_id = "other-2".to_string();
    sub.trusting_period = IbcDuration { secs: 99, nanos: 0 };
    sub.frozen_height = Some(IbcHeight { revision_number: 1, revision_height: 1 });
    assert_eq!(check(client(5), sub), Ok(()));

    assert_eq!(check(client(9), client(5)), Err(Error::SubstituteHeightNotHigher));
}
