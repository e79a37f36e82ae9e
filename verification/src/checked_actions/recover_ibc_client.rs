//! A checked recovery of an IBC client: an expired or frozen client takes over the height,
//! trusting period and chain ID of an active substitute whose other parameters match.
use vstd::prelude::*;

use crate::actions::{IbcHeight, RecoverIbcClient};
use crate::authority::{ensure_sudo, spec_ensure_sudo};
use crate::error::Error;
use crate::primitive::AddressBytes;
use crate::state::{SequencerState, StateView};

verus! {

/// The status of an IBC client at the current block time.
#[derive(Debug, Clone, Copy, PartialEq, Eq, Structural)]
pub enum ClientStatus {
    Active,
    Frozen,
    Expired,
    Unknown,
}

/// A fraction of the validator power that a light client trusts.
#[derive(Debug, Clone, Copy, PartialEq, Eq, Structural)]
pub struct TrustThreshold {
    pub numerator: u64,
    pub denominator: u64,
}

/// A span of time.
#[derive(Debug, Clone, Copy, PartialEq, Eq, Structural)]
pub struct IbcDuration {
    pub secs: u64,
    pub nanos: u32,
}

/// The state of a Tendermint light client.
pub struct ClientState {
    pub chain_id: String,
    pub trust_level: TrustThreshold,
    pub trusting_period: IbcDuration,
    pub unbonding_period: IbcDuration,
    pub max_clock_drift: IbcDuration,
    pub latest_height: IbcHeight,
    /// The encoded ICS23 proof specifications.
    pub proof_specs: Vec<u8>,
    pub upgrade_path: Vec<String>,
    pub frozen_height: Option<IbcHeight>,
}

/// What the IBC component reports of a client: its status and its state, if stored.
pub struct ClientInfo {
    pub status: ClientStatus,
    pub state: Option<ClientState>,
}

/// The upgrade path of a client, by the views of its keys.
pub open spec fn upgrade_path_view(c: ClientState) -> Seq<Seq<char>> {
    c.upgrade_path@.map_values(|s: String| s@)
}

/// Heights are ordered by revision, then by height within it.
pub open spec fn height_lt(a: IbcHeight, b: IbcHeight) -> bool {
    a.revision_number < b.revision_number || (a.revision_number == b.revision_number
        && a.revision_height < b.revision_height)
}

/// The parameters that a substitute must share with the client it replaces, checked in order:
/// trust level, unbonding period, maximum clock drift, proof specifications and upgrade path;
/// the first that differs names the error.
pub open spec fn spec_required_fields_match(a: ClientState, b: ClientState) -> Result<(), Error> {
    if a.trust_level != b.trust_level {
        Err(Error::TrustLevelMismatch)
    } else if a.unbonding_period != b.unbonding_period {
        Err(Error::UnbondingPeriodMismatch)
    } else if a.max_clock_drift != b.max_clock_drift {
        Err(Error::MaxClockDriftMismatch)
    } else if a.proof_specs@ != b.proof_specs@ {
        Err(Error::ProofSpecsMismatch)
    } else if upgrade_path_view(a) != upgrade_path_view(b) {
        Err(Error::UpgradePathMismatch)
    } else {
        Ok(())
    }
}

/// The checks at every stage: the signer is the sudo address, a block timestamp is stored, the
/// client is not active, the substitute is, both have stored states, the substitute is higher
/// and its required parameters match.
pub open spec fn spec_recover_ibc_client_checks(v: StateView, signer: Seq<u8>, subject: ClientInfo, substitute: ClientInfo) -> Result<(), Error> {
    match spec_ensure_sudo(v, signer) {
        Err(e) => Err(e),
        Ok(_) => if v.block_timestamp is None {
            Err(Error::BlockTimestampNotFound)
        } else if subject.status == ClientStatus::Active {
            Err(Error::ClientActive)
        } else if substitute.status != ClientStatus::Active {
            Err(Error::SubstituteClientNotActive)
        } else {
            match subject.state {
                None => Err(Error::ClientStateNotFound),
                Some(a) => match substitute.state {
                    None => Err(Error::ClientStateNotFound),
                    Some(b) => if !height_lt(a.latest_height, b.latest_height) {
                        Err(Error::SubstituteHeightNotHigher)
                    } else {
                        spec_required_fields_match(a, b)
                    },
                },
            }
        },
    }
}

/// Whether two encoded proof specifications are equal.
fn bytes_equal(a: &Vec<u8>, b: &Vec<u8>) -> (r: bool)
    ensures
        r == (a@ == b@),
{
    if a.len() != b.len() {
        return false;
    }
    let mut i: usize = 0;
    while i < a.len()
        invariant
            a@.len() == b@.len(),
            0 <= i <= a@.len(),
            forall|j: int| 0 <= j < i ==> a@[j] == b@[j],
        decreases a@.len() - i,
    {
        if a[i] != b[i] {
            return false;
        }
        i = i + 1;
    }
    assert(a@ =~= b@);
    true
}

/// Whether two upgrade paths are equal.
fn paths_equal(a: &Vec<String>, b: &Vec<String>) -> (r: bool)
    ensures
        r == (a@.map_values(|s: String| s@) == b@.map_values(|s: String| s@)),
{
    let ghost va = a@.map_values(|s: String| s@);
    let ghost vb = b@.map_values(|s: String| s@);
    if a.len() != b.len() {
        assert(va.len() != vb.len());
        return false;
    }
    let mut i: usize = 0;
    while i < a.len()
        invariant
            a@.len() == b@.len(),
            va == a@.map_values(|s: String| s@),
            vb == b@.map_values(|s: String| s@),
            0 <= i <= a@.len(),
            forall|j: int| 0 <= j < i ==> va[j] == vb[j],
        decreases a@.len() - i,
    {
        if a[i] != b[i] {
            assert(va[i as int] != vb[i as int]);
            return false;
        }
        i = i + 1;
    }
    assert(va =~= vb);
    true
}

/// Checks that the required parameters of two client states match, naming the first that
/// differs.
fn ensure_required_client_state_fields_match(a: &ClientState, b: &ClientState) -> (r: Result<(), Error>)
    ensures
        r == spec_required_fields_match(*a, *b),
{
    if a.trust_level != b.trust_level {
        return Err(Error::TrustLevelMismatch);
    }
    if a.unbonding_period != b.unbonding_period {
        return Err(Error::UnbondingPeriodMismatch);
    }
    if a.max_clock_drift != b.max_clock_drift {
        return Err(Error::MaxClockDriftMismatch);
    }
    if !bytes_equal(&a.proof_specs, &b.proof_specs) {
        return Err(Error::ProofSpecsMismatch);
    }
    if !paths_equal(&a.upgrade_path, &b.upgrade_path) {
        return Err(Error::UpgradePathMismatch);
    }
    Ok(())
}

/// The state of a recovered client: that of the client with the latest height, trusting period
/// and chain ID of the substitute.
pub fn recovered_client_state(subject: &ClientState, substitute: &ClientState) -> (r: ClientState)
    ensures
        r.chain_id@ == substitute.chain_id@,
        r.latest_height == substitute.latest_height,
        r.trusting_period == substitute.trusting_period,
        r.trust_level == subject.trust_level,
        r.unbonding_period == subject.unbonding_period,
        r.max_clock_drift == subject.max_clock_drift,
        r.proof_specs@ == subject.proof_specs@,
        upgrade_path_view(r) == upgrade_path_view(*subject),
        r.frozen_height == subject.frozen_height,
{
    let mut upgrade_path: Vec<String> = Vec::new();
    let mut i: usize = 0;
    while i < subject.upgrade_path.len()
        invariant
            0 <= i <= subject.upgrade_path@.len(),
            upgrade_path@.len() == i,
            forall|j: int| 0 <= j < i ==> #[trigger] upgrade_path@[j]@ == subject.upgrade_path@[j]@,
        decreases subject.upgrade_path@.len() - i,
    {
        upgrade_path.push(subject.upgrade_path[i].clone());
        i = i + 1;
    }
    let r = ClientState {
        chain_id: substitute.chain_id.clone(),
        trust_level: subject.trust_level,
        trusting_period: substitute.trusting_period,
        unbonding_period: subject.unbonding_period,
        max_clock_drift: subject.max_clock_drift,
        latest_height: substitute.latest_height,
        proof_specs: subject.proof_specs.clone(),
        upgrade_path,
        frozen_height: subject.frozen_height,
    };
    assert(upgrade_path_view(r) =~= upgrade_path_view(*subject));
    r
}

/// A recovery of an IBC client that passed its checks.
pub struct CheckedRecoverIbcClient {
    action: RecoverIbcClient,
    tx_signer: AddressBytes,
}

impl CheckedRecoverIbcClient {
    pub closed spec fn action(&self) -> RecoverIbcClient {
        self.action
    }

    pub closed spec fn tx_signer(&self) -> AddressBytes {
        self.tx_signer
    }

    /// Checks the action against the state and what the IBC component reports of the client
    /// and of its substitute.
    pub fn new(action: RecoverIbcClient, tx_signer: AddressBytes, state: &SequencerState, subject: &ClientInfo, substitute: &ClientInfo) -> (r: Result<Self, Error>)
        requires
            state.wf(),
        ensures
            match r {
                Ok(c) => spec_recover_ibc_client_checks(state@, tx_signer@, *subject, *substitute)
                    is Ok && c.action() == action && c.tx_signer() == tx_signer,
                Err(e) => spec_recover_ibc_client_checks(state@, tx_signer@, *subject, *substitute)
                    == Err::<(), Error>(e),
            },
    {
        let checked = CheckedRecoverIbcClient { action, tx_signer };
        checked.run_mutable_checks(state, subject, substitute)?;
        Ok(checked)
    }

    /// Runs the checks against the state and the reported clients.
    pub fn run_mutable_checks(&self, state: &SequencerState, subject: &ClientInfo, substitute: &ClientInfo) -> (r: Result<(), Error>)
        requires
            state.wf(),
        ensures
            r == spec_recover_ibc_client_checks(state@, self.tx_signer()@, *subject, *substitute),
    {
        ensure_sudo(state, &self.tx_signer)?;
        if state.block_timestamp().is_none() {
            return Err(Error::BlockTimestampNotFound);
        }
        if subject.status == ClientStatus::Active {
            return Err(Error::ClientActive);
        }
        if substitute.status != ClientStatus::Active {
            return Err(Error::SubstituteClientNotActive);
        }
        let a = match &subject.state {
            Some(a) => a,
            None => return Err(Error::ClientStateNotFound),
        };
        let b = match &substitute.state {
            Some(b) => b,
            None => return Err(Error::ClientStateNotFound),
        };
        {
            {
                let lt = a.latest_height.revision_number < b.latest_height.revision_number
                    || (a.latest_height.revision_number == b.latest_height.revision_number
                    && a.latest_height.revision_height < b.latest_height.revision_height);
                if !lt {
                    return Err(Error::SubstituteHeightNotHigher);
                }
                ensure_required_client_state_fields_match(a, b)
            }
        }
    }

    /// Runs the checks again and gives the recovered state of the client, which the IBC
    /// component stores together with the substitute's consensus state at its latest height.
    pub fn execute(&self, state: &SequencerState, subject: &ClientInfo, substitute: &ClientInfo) -> (r: Result<ClientState, Error>)
        requires
            state.wf(),
        ensures
            match spec_recover_ibc_client_checks(state@, self.tx_signer()@, *subject, *substitute) {
                Err(e) => r == Err::<ClientState, Error>(e),
                Ok(_) => r is Ok && {
                    let c = r->Ok_0;
                    let a = subject.state->Some_0;
                    let b = substitute.state->Some_0;
                    &&& c.chain_id@ == b.chain_id@
                    &&& c.latest_height == b.latest_height
                    &&& c.trusting_period == b.trusting_period
                    &&& spec_required_fields_match(c, a) is Ok
                    &&& c.frozen_height == a.frozen_height
                },
            },
    {
        self.run_mutable_checks(state, subject, substitute)?;
        match (&subject.state, &substitute.state) {
            (Some(a), Some(b)) => Ok(recovered_client_state(a, b)),
            _ => Err(Error::ClientStateNotFound),
        }
    }
}

} // verus!
