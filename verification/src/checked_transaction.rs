//! A checked transaction: its size, chain, actions and nonce, and its execution.
use vstd::prelude::*;

use crate::actions::Action;
use crate::checked_actions::checked_action::{
    converted,
    spec_action_checks,
    spec_action_fee,
    spec_action_mutable_checks,
    spec_asset_and_amount,
    spec_execute_and_pay_fees,
    CheckedAction,
    IbcReport,
};
use crate::error::Error;
use crate::fees::{calculate_fee, spec_fee};
use crate::map::AssocMap;
use crate::primitive::{denom_id, sha256, sha256_digest, AddressBytes, Denom, IbcPrefixed, TransactionId};
use crate::state::{FeeKind, SequencerState, StateView};

verus! {

/// The largest encoded transaction accepted, in bytes.
pub const MAX_TX_BYTES: usize = 256000;

/// Why a transaction failed its checks or its execution.
#[derive(Debug, Clone, PartialEq, Eq)]
pub enum TransactionError {
    /// The encoded transaction is larger than `MAX_TX_BYTES`; its length.
    TooLarge { tx_len: usize },
    /// The transaction bytes do not decode as a signed transaction.
    DecodeFailed,
    /// The transaction has no actions.
    NoActions,
    /// No chain ID is stored.
    ChainIdNotFound,
    /// The transaction is for another chain: the stored chain ID and the transaction's.
    ChainIdMismatch { expected: String, tx_chain_id: String },
    /// The transaction nonce is not the account's: the account's nonce and the transaction's.
    InvalidNonce { expected: u32, tx_nonce: u32 },
    /// The account nonce cannot be incremented.
    NonceOverflow,
    /// An action failed its checks or its execution.
    Action(Error),
}

/// The view of a transaction error: chain IDs as text.
pub enum TransactionErrorView {
    TooLarge { tx_len: nat },
    DecodeFailed,
    NoActions,
    ChainIdNotFound,
    ChainIdMismatch { expected: Seq<char>, tx_chain_id: Seq<char> },
    InvalidNonce { expected: u32, tx_nonce: u32 },
    NonceOverflow,
    Action(Error),
}

impl View for TransactionError {
    type V = TransactionErrorView;

    open spec fn view(&self) -> TransactionErrorView {
        match *self {
            TransactionError::TooLarge { tx_len } => TransactionErrorView::TooLarge { tx_len: tx_len as nat },
            TransactionError::DecodeFailed => TransactionErrorView::DecodeFailed,
            TransactionError::NoActions => TransactionErrorView::NoActions,
            TransactionError::ChainIdNotFound => TransactionErrorView::ChainIdNotFound,
            TransactionError::ChainIdMismatch { expected, tx_chain_id } => TransactionErrorView::ChainIdMismatch {
                expected: expected@,
                tx_chain_id: tx_chain_id@,
            },
            TransactionError::InvalidNonce { expected, tx_nonce } => TransactionErrorView::InvalidNonce { expected, tx_nonce },
            TransactionError::NonceOverflow => TransactionErrorView::NonceOverflow,
            TransactionError::Action(e) => TransactionErrorView::Action(e),
        }
    }
}

/// What decoding an encoded transaction and checking its signature gives: its actions, with what
/// outside components reported on them, the chain it is for, its nonce and the address of its
/// signer.
pub struct TransactionBody {
    pub actions: Vec<Action>,
    pub chain_id: String,
    pub nonce: u32,
    pub signer: AddressBytes,
}

/// The checks of the actions in order; the first that fails decides.
pub open spec fn spec_convert_actions(v: StateView, actions: Seq<Action>, signer: AddressBytes, tx_id: Seq<u8>) -> Result<(), Error>
    decreases actions.len(),
{
    if actions.len() == 0 {
        Ok(())
    } else {
        match spec_convert_actions(v, actions.drop_last(), signer, tx_id) {
            Err(e) => Err(e),
            Ok(_) => spec_action_checks(v, actions.last(), signer, tx_id, (actions.len() - 1) as u64),
        }
    }
}

/// The checks of a transaction given its encoded bytes and what decoding them gave: at most
/// `MAX_TX_BYTES` bytes, decoded, with at least one action, all actions pass their checks, and
/// it is for the stored chain.
pub open spec fn spec_transaction_checks(v: StateView, bytes: Seq<u8>, body: Option<TransactionBody>) -> Result<(), TransactionErrorView> {
    if bytes.len() > MAX_TX_BYTES {
        Err(TransactionErrorView::TooLarge { tx_len: bytes.len() })
    } else {
        match body {
            None => Err(TransactionErrorView::DecodeFailed),
            Some(b) => if b.actions@.len() == 0 {
                Err(TransactionErrorView::NoActions)
            } else {
                match spec_convert_actions(v, b.actions@, b.signer, sha256_digest(bytes)) {
                    Err(e) => Err(TransactionErrorView::Action(e)),
                    Ok(_) => match v.chain_id {
                        None => Err(TransactionErrorView::ChainIdNotFound),
                        Some(c) => if c != b.chain_id@ {
                            Err(TransactionErrorView::ChainIdMismatch { expected: c, tx_chain_id: b.chain_id@ })
                        } else {
                            Ok(())
                        },
                    },
                }
            },
        }
    }
}

/// What the IBC component reports on the action at `i`; nothing where no report is given.
pub open spec fn report_at(reports: Seq<IbcReport>, i: int) -> IbcReport {
    if 0 <= i < reports.len() {
        reports[i]
    } else {
        IbcReport::Nothing
    }
}

/// The state after executing the actions in order and paying their fees from `signer`.
pub open spec fn spec_execute_actions(v: StateView, actions: Seq<CheckedAction>, signer: Seq<u8>, reports: Seq<IbcReport>) -> Result<StateView, Error>
    decreases actions.len(),
{
    if actions.len() == 0 {
        Ok(v)
    } else {
        match spec_execute_actions(v, actions.drop_last(), signer, reports) {
            Err(e) => Err(e),
            Ok(v1) => spec_execute_and_pay_fees(
                v1,
                actions.last(),
                signer,
                report_at(reports, actions.len() - 1),
            ),
        }
    }
}

/// The state after executing a transaction: its nonce is the signer's, the transaction is
/// recorded as the last of the signer if that is a bridge account, the signer's nonce
/// increases by one, then the actions execute in order, each paying its fee.
pub open spec fn spec_transaction_execute(v: StateView, signer: Seq<u8>, nonce: u32, tx_id: Seq<u8>, actions: Seq<CheckedAction>, reports: Seq<IbcReport>) -> Result<StateView, TransactionErrorView> {
    if v.nonce(signer) != nonce {
        Err(TransactionErrorView::InvalidNonce { expected: v.nonce(signer), tx_nonce: nonce })
    } else {
        let v1 = if v.is_bridge_account(signer) {
            StateView { last_transaction_ids: v.last_transaction_ids.insert(signer, tx_id), ..v }
        } else {
            v
        };
        if nonce == u32::MAX {
            Err(TransactionErrorView::NonceOverflow)
        } else {
            let v2 = StateView { nonces: v1.nonces.insert(signer, (nonce + 1) as u32), ..v1 };
            match spec_execute_actions(v2, actions, signer, reports) {
                Ok(w) => Ok(w),
                Err(e) => Err(TransactionErrorView::Action(e)),
            }
        }
    }
}

/// The mutable checks of the actions in order; the first that fails decides.
pub open spec fn spec_transaction_mutable_checks(v: StateView, actions: Seq<CheckedAction>, reports: Seq<IbcReport>) -> Result<(), Error>
    decreases actions.len(),
{
    if actions.len() == 0 {
        Ok(())
    } else {
        match spec_transaction_mutable_checks(v, actions.drop_last(), reports) {
            Err(e) => Err(e),
            Ok(_) => spec_action_mutable_checks(v, actions.last(), report_at(reports, actions.len() - 1)),
        }
    }
}

/// Adds `amount` to the cost in `asset`, saturating at `u128::MAX`.
pub open spec fn add_cost(m: Map<Seq<u8>, u128>, asset: Seq<u8>, amount: u128) -> Map<Seq<u8>, u128> {
    if m.contains_key(asset) {
        m.insert(
            asset,
            if m[asset] + amount > u128::MAX {
                u128::MAX
            } else {
                (m[asset] + amount) as u128
            },
        )
    } else {
        m.insert(asset, amount)
    }
}

/// The costs after adding one action's fee, given as its kind, the asset it is paid in and the
/// length of its payload: the fee of its kind for its payload; fails if the kind has no fee
/// components or the fee overflows.
pub open spec fn spec_add_fee(v: StateView, m: Map<Seq<u8>, u128>, f: Option<(FeeKind, Denom, nat)>) -> Result<Map<Seq<u8>, u128>, Error> {
    match f {
        None => Ok(m),
        Some((kind, asset, len)) => if !v.fees.contains_key(kind) {
            Err(Error::FeesNotFound)
        } else {
            let fee = spec_fee(len as int, v.fees[kind].multiplier as int, v.fees[kind].base as int);
            if fee > u128::MAX {
                Err(Error::FeeOverflow)
            } else {
                Ok(add_cost(m, denom_id(asset), fee as u128))
            }
        },
    }
}

/// The fees by asset of a sequence of actions' fees, added in order.
pub open spec fn spec_fee_sum(v: StateView, fees: Seq<Option<(FeeKind, Denom, nat)>>) -> Result<Map<Seq<u8>, u128>, Error>
    decreases fees.len(),
{
    if fees.len() == 0 {
        Ok(Map::empty())
    } else {
        match spec_fee_sum(v, fees.drop_last()) {
            Err(e) => Err(e),
            Ok(m) => spec_add_fee(v, m, fees.last()),
        }
    }
}

/// The fees of checked actions by asset.
pub open spec fn spec_total_fees(v: StateView, actions: Seq<CheckedAction>) -> Result<Map<Seq<u8>, u128>, Error> {
    spec_fee_sum(v, actions.map_values(|c: CheckedAction| spec_action_fee(c)))
}

/// Once the fee sum of a prefix fails, the fee sum of the whole fails alike.
pub proof fn lemma_fee_sum_fails_on_prefix(v: StateView, fees: Seq<Option<(FeeKind, Denom, nat)>>, n: int)
    requires
        0 <= n <= fees.len(),
        spec_fee_sum(v, fees.subrange(0, n)) is Err,
    ensures
        spec_fee_sum(v, fees) == spec_fee_sum(v, fees.subrange(0, n)),
    decreases fees.len() - n,
{
    if n < fees.len() {
        assert(fees.subrange(0, n + 1).drop_last() =~= fees.subrange(0, n));
        lemma_fee_sum_fails_on_prefix(v, fees, n + 1);
    } else {
        assert(fees.subrange(0, n) =~= fees);
    }
}

/// Adds the fee of a kind of action for `payload`, paid in `asset`, to the costs.
pub fn add_fee(costs: &mut AssocMap<IbcPrefixed, u128>, state: &SequencerState, kind: FeeKind, asset: &Denom, payload: &[u8]) -> (r: Result<(), Error>)
    requires
        state.wf(),
        old(costs).wf(),
    ensures
        final(costs).wf(),
        match spec_add_fee(state@, old(costs)@, Some((kind, *asset, payload@.len()))) {
            Ok(m) => r is Ok && final(costs)@ == m,
            Err(e) => r == Err::<(), Error>(e),
        },
{
    let components = match state.get_fees(kind) {
        Some(c) => c,
        None => return Err(Error::FeesNotFound),
    };
    let fee = match calculate_fee(payload, components.multiplier, components.base) {
        Some(f) => f,
        None => return Err(Error::FeeOverflow),
    };
    add_cost_to(costs, asset.to_ibc_prefixed(), fee);
    Ok(())
}

/// The costs after adding the amounts that the actions move out of the signer's accounts.
pub open spec fn spec_add_transfers(m: Map<Seq<u8>, u128>, actions: Seq<CheckedAction>) -> Map<Seq<u8>, u128>
    decreases actions.len(),
{
    if actions.len() == 0 {
        m
    } else {
        let m1 = spec_add_transfers(m, actions.drop_last());
        match spec_asset_and_amount(actions.last()) {
            None => m1,
            Some((asset, amount)) => add_cost(m1, asset, amount),
        }
    }
}

/// Adds an amount to a cost, saturating.
fn add_cost_to(costs: &mut AssocMap<IbcPrefixed, u128>, asset: IbcPrefixed, amount: u128)
    requires
        old(costs).wf(),
    ensures
        final(costs).wf(),
        final(costs)@ == add_cost(old(costs)@, asset@, amount),
{
    let current = match costs.get(&asset) {
        Some(c) => Some(*c),
        None => None,
    };
    match current {
        Some(c) => costs.insert(asset, c.saturating_add(amount)),
        None => costs.insert(asset, amount),
    }
}

/// Checks the actions in order.
fn convert_actions(actions: Vec<Action>, tx_signer: AddressBytes, tx_id: TransactionId, state: &SequencerState) -> (r: Result<Vec<CheckedAction>, Error>)
    requires
        state.wf(),
    ensures
        match r {
            Ok(cs) => spec_convert_actions(state@, actions@, tx_signer, tx_id@) is Ok && cs@.len()
                == actions@.len() && forall|i: int|
                0 <= i < cs@.len() ==> #[trigger] converted(
                    cs@[i],
                    actions@[i],
                    state@,
                    tx_signer,
                    tx_id@,
                    i as u64,
                ),
            Err(e) => spec_convert_actions(state@, actions@, tx_signer, tx_id@) == Err::<(), Error>(e),
        },
{
    let ghost all = actions@;
    let n = actions.len();
    let mut rest = actions;
    let mut checked: Vec<CheckedAction> = Vec::new();
    let mut index: usize = 0;
    while rest.len() > 0
        invariant
            state.wf(),
            all == actions@,
            all.len() == n,
            0 <= index <= all.len(),
            rest@ == all.subrange(index as int, all.len() as int),
            checked@.len() == index,
            spec_convert_actions(state@, all.subrange(0, index as int), tx_signer, tx_id@) is Ok,
            forall|i: int|
                0 <= i < index ==> #[trigger] converted(
                    checked@[i],
                    all[i],
                    state@,
                    tx_signer,
                    tx_id@,
                    i as u64,
                ),
        decreases rest@.len(),
    {
        let action = rest.remove(0);
        proof {
            assert(action == all[index as int]);
            assert(all.subrange(0, index + 1).drop_last() =~= all.subrange(0, index as int));
            assert(all.subrange(0, index + 1).last() == all[index as int]);
        }
        let c = match CheckedAction::new(action, tx_signer, tx_id, index as u64, state) {
            Ok(c) => c,
            Err(e) => {
                proof {
                    lemma_convert_fails_on_prefix(state@, all, tx_signer, tx_id@, index + 1);
                }
                return Err(e);
            },
        };
        checked.push(c);
        index = index + 1;
        proof {
            assert(rest@ =~= all.subrange(index as int, all.len() as int));
        }
    }
    proof {
        assert(all.subrange(0, index as int) =~= all);
    }
    Ok(checked)
}

/// Once the checks of a prefix of the actions fail, the checks of all of them fail alike.
proof fn lemma_convert_fails_on_prefix(v: StateView, actions: Seq<Action>, signer: AddressBytes, tx_id: Seq<u8>, n: int)
    requires
        0 <= n <= actions.len(),
        spec_convert_actions(v, actions.subrange(0, n), signer, tx_id) is Err,
    ensures
        spec_convert_actions(v, actions, signer, tx_id) == spec_convert_actions(
            v,
            actions.subrange(0, n),
            signer,
            tx_id,
        ),
    decreases actions.len() - n,
{
    if n < actions.len() {
        assert(actions.subrange(0, n + 1).drop_last() =~= actions.subrange(0, n));
        lemma_convert_fails_on_prefix(v, actions, signer, tx_id, n + 1);
    } else {
        assert(actions.subrange(0, n) =~= actions);
    }
}

/// The rollup IDs and data of the rollup data submissions among `actions`, in their order.
pub open spec fn spec_rollup_data(actions: Seq<CheckedAction>) -> Seq<(crate::primitive::RollupId, Seq<u8>)>
    decreases actions.len(),
{
    if actions.len() == 0 {
        Seq::empty()
    } else {
        let prev = spec_rollup_data(actions.drop_last());
        match actions.last() {
            CheckedAction::RollupDataSubmission(c) => prev.push((c.action().rollup_id, c.action().data@)),
            _ => prev,
        }
    }
}

/// A transaction that passed its checks.
pub struct CheckedTransaction {
    tx_id: TransactionId,
    actions: Vec<CheckedAction>,
    nonce: u32,
    chain_id: String,
    signer: AddressBytes,
    tx_bytes: Vec<u8>,
}

impl CheckedTransaction {
    pub closed spec fn spec_id(&self) -> Seq<u8> {
        self.tx_id@
    }

    pub closed spec fn spec_actions(&self) -> Seq<CheckedAction> {
        self.actions@
    }

    pub closed spec fn spec_nonce(&self) -> u32 {
        self.nonce
    }

    pub closed spec fn spec_chain_id(&self) -> Seq<char> {
        self.chain_id@
    }

    pub closed spec fn spec_signer(&self) -> AddressBytes {
        self.signer
    }

    pub closed spec fn spec_bytes(&self) -> Seq<u8> {
        self.tx_bytes@
    }

    /// Checks an encoded transaction, given what decoding it gave (none where it did not
    /// decode).
    pub fn new(tx_bytes: Vec<u8>, body: Option<TransactionBody>, state: &SequencerState) -> (r: Result<Self, TransactionError>)
        requires
            state.wf(),
        ensures
            match r {
                Ok(t) => spec_transaction_checks(state@, tx_bytes@, body) is Ok && {
                    let b = body->Some_0;
                    &&& t.spec_id() == sha256_digest(tx_bytes@)
                    &&& t.spec_bytes() == tx_bytes@
                    &&& t.spec_nonce() == b.nonce
                    &&& t.spec_signer() == b.signer
                    &&& t.spec_chain_id() == b.chain_id@
                    &&& t.spec_actions().len() == b.actions@.len()
                    &&& forall|i: int|
                        0 <= i < b.actions@.len() ==> #[trigger] converted(
                            t.spec_actions()[i],
                            b.actions@[i],
                            state@,
                            b.signer,
                            sha256_digest(tx_bytes@),
                            i as u64,
                        )
                },
                Err(e) => spec_transaction_checks(state@, tx_bytes@, body) == Err::<(), TransactionErrorView>(e@),
            },
    {
        let tx_len = tx_bytes.len();
        if tx_len > MAX_TX_BYTES {
            return Err(TransactionError::TooLarge { tx_len });
        }
        let body = match body {
            Some(b) => b,
            None => return Err(TransactionError::DecodeFailed),
        };
        if body.actions.len() == 0 {
            return Err(TransactionError::NoActions);
        }
        let tx_id = sha256(tx_bytes.as_slice());
        let TransactionBody { actions, chain_id, nonce, signer } = body;
        let checked_actions = match convert_actions(actions, signer, tx_id, state) {
            Ok(c) => c,
            Err(e) => return Err(TransactionError::Action(e)),
        };
        match state.chain_id() {
            None => return Err(TransactionError::ChainIdNotFound),
            Some(c) => if *c != chain_id {
                return Err(TransactionError::ChainIdMismatch { expected: c.clone(), tx_chain_id: chain_id });
            },
        }
        Ok(CheckedTransaction { tx_id, actions: checked_actions, nonce, chain_id, signer, tx_bytes })
    }

    /// The ID of the transaction: the SHA-256 hash of its encoded bytes.
    pub fn id(&self) -> (r: &TransactionId)
        ensures
            r@ == self.spec_id(),
    {
        &self.tx_id
    }

    /// The checked actions, in order.
    pub fn checked_actions(&self) -> (r: &Vec<CheckedAction>)
        ensures
            r@ == self.spec_actions(),
    {
        &self.actions
    }

    /// The nonce of the transaction.
    pub fn nonce(&self) -> (r: u32)
        ensures
            r == self.spec_nonce(),
    {
        self.nonce
    }

    /// The chain the transaction is for.
    pub fn chain_id(&self) -> (r: &String)
        ensures
            r@ == self.spec_chain_id(),
    {
        &self.chain_id
    }

    /// The address of the signer.
    pub fn address_bytes(&self) -> (r: AddressBytes)
        ensures
            r == self.spec_signer(),
    {
        self.signer
    }

    /// The encoded transaction.
    pub fn encoded_bytes(&self) -> (r: &Vec<u8>)
        ensures
            r@ == self.spec_bytes(),
    {
        &self.tx_bytes
    }

    /// The rollup IDs and data of the rollup data submissions, in the order of the actions.
    pub fn rollup_data_bytes(&self) -> (r: Vec<(crate::primitive::RollupId, Vec<u8>)>)
        ensures
            r@.map_values(|p: (crate::primitive::RollupId, Vec<u8>)| (p.0, p.1@)) == spec_rollup_data(
                self.spec_actions(),
            ),
    {
        let mut out: Vec<(crate::primitive::RollupId, Vec<u8>)> = Vec::new();
        let mut i: usize = 0;
        while i < self.actions.len()
            invariant
                0 <= i <= self.actions@.len(),
                out@.map_values(|p: (crate::primitive::RollupId, Vec<u8>)| (p.0, p.1@)) == spec_rollup_data(
                    self.actions@.subrange(0, i as int),
                ),
            decreases self.actions@.len() - i,
        {
            proof {
                assert(self.actions@.subrange(0, i + 1).drop_last() =~= self.actions@.subrange(0, i as int));
            }
            if let CheckedAction::RollupDataSubmission(c) = &self.actions[i] {
                let a = c.action_ref();
                let ghost before = out@;
                out.push((a.rollup_id, crate::map::Dup::dup(&a.data)));
                proof {
                    assert(out@.map_values(|p: (crate::primitive::RollupId, Vec<u8>)| (p.0, p.1@))
                        =~= before.map_values(|p: (crate::primitive::RollupId, Vec<u8>)| (p.0, p.1@)).push(
                        (a.rollup_id, a.data@),
                    ));
                }
            }
            i = i + 1;
        }
        assert(self.actions@.subrange(0, self.actions@.len() as int) =~= self.actions@);
        out
    }

    /// The most the transaction can take from the signer in each asset: the fees of its actions
    /// and the amounts they move, each sum saturating at `u128::MAX`.
    pub fn total_costs(&self, state: &SequencerState) -> (r: Result<AssocMap<IbcPrefixed, u128>, Error>)
        requires
            state.wf(),
        ensures
            match spec_total_fees(state@, self.spec_actions()) {
                Ok(m) => r is Ok && r->Ok_0.wf() && r->Ok_0@ == spec_add_transfers(m, self.spec_actions()),
                Err(e) => r == Err::<AssocMap<IbcPrefixed, u128>, Error>(e),
            },
    {
        let mut costs: AssocMap<IbcPrefixed, u128> = AssocMap::new();
        let ghost fees_seq = self.actions@.map_values(|c: CheckedAction| spec_action_fee(c));
        let empty: Vec<u8> = Vec::new();
        let mut i: usize = 0;
        while i < self.actions.len()
            invariant
                state.wf(),
                0 <= i <= self.actions@.len(),
                fees_seq == self.actions@.map_values(|c: CheckedAction| spec_action_fee(c)),
                costs.wf(),
                spec_fee_sum(state@, fees_seq.subrange(0, i as int)) == Ok::<
                    Map<Seq<u8>, u128>,
                    Error,
                >(costs@),
                empty@.len() == 0,
            decreases self.actions@.len() - i,
        {
            let action = &self.actions[i];
            proof {
                assert(fees_seq.subrange(0, i + 1).drop_last() =~= fees_seq.subrange(0, i as int));
                assert(fees_seq.subrange(0, i + 1).last() == spec_action_fee(*action));
            }
            let fee_info = match action {
                CheckedAction::RollupDataSubmission(c) => Some(
                    (FeeKind::RollupDataSubmission, &c.action_ref().fee_asset, c.action_ref().data.as_slice()),
                ),
                CheckedAction::Transfer(c) => Some((FeeKind::Transfer, c.fee_asset(), empty.as_slice())),
                CheckedAction::Ics20Withdrawal(c) => Some((FeeKind::Ics20Withdrawal, c.fee_asset(), empty.as_slice())),
                CheckedAction::InitBridgeAccount(c) => Some((FeeKind::InitBridgeAccount, c.fee_asset(), empty.as_slice())),
                CheckedAction::BridgeLock(c) => Some(
                    (FeeKind::BridgeLock, &c.action_ref().fee_asset, empty.as_slice()),
                ),
                CheckedAction::BridgeUnlock(c) => Some(
                    (FeeKind::BridgeUnlock, &c.action_ref().fee_asset, empty.as_slice()),
                ),
                CheckedAction::BridgeSudoChange(c) => Some((FeeKind::BridgeSudoChange, c.fee_asset(), empty.as_slice())),
                CheckedAction::BridgeTransfer(c) => Some((FeeKind::BridgeTransfer, c.fee_asset(), empty.as_slice())),
                _ => None,
            };
            match fee_info {
                None => {},
                Some((kind, asset, payload)) => {
                    match add_fee(&mut costs, state, kind, asset, payload) {
                        Ok(()) => {},
                        Err(e) => {
                            proof {
                                lemma_fee_sum_fails_on_prefix(state@, fees_seq, i as int + 1);
                            }
                            return Err(e);
                        },
                    }
                },
            }
            i = i + 1;
        }
        proof {
            assert(fees_seq.subrange(0, self.actions@.len() as int) =~= fees_seq);
        }
        let ghost fees = costs@;
        let mut j: usize = 0;
        while j < self.actions.len()
            invariant
                0 <= j <= self.actions@.len(),
                costs.wf(),
                costs@ == spec_add_transfers(fees, self.actions@.subrange(0, j as int)),
            decreases self.actions@.len() - j,
        {
            proof {
                assert(self.actions@.subrange(0, j + 1).drop_last() =~= self.actions@.subrange(0, j as int));
            }
            if let Some((asset, amount)) = self.actions[j].asset_and_amount_to_transfer() {
                add_cost_to(&mut costs, asset, amount);
            }
            j = j + 1;
        }
        proof {
            assert(self.actions@.subrange(0, self.actions@.len() as int) =~= self.actions@);
        }
        Ok(costs)
    }

    /// Runs the mutable checks of the actions in order.
    pub fn run_mutable_checks(&self, state: &SequencerState, reports: &Vec<IbcReport>) -> (r: Result<(), Error>)
        requires
            state.wf(),
        ensures
            r == spec_transaction_mutable_checks(state@, self.spec_actions(), reports@),
    {
        let nothing = IbcReport::Nothing;
        let mut i: usize = 0;
        while i < self.actions.len()
            invariant
                state.wf(),
                0 <= i <= self.actions@.len(),
                nothing == IbcReport::Nothing,
                spec_transaction_mutable_checks(state@, self.actions@.subrange(0, i as int), reports@) is Ok,
            decreases self.actions@.len() - i,
        {
            proof {
                assert(self.actions@.subrange(0, i + 1).drop_last() =~= self.actions@.subrange(0, i as int));
            }
            let report = if i < reports.len() {
                &reports[i]
            } else {
                &nothing
            };
            match self.actions[i].run_mutable_checks(state, report) {
                Ok(()) => {},
                Err(e) => {
                    proof {
                        lemma_mutable_checks_fail_on_prefix(state@, self.actions@, reports@, i as int + 1);
                    }
                    return Err(e);
                },
            }
            i = i + 1;
        }
        proof {
            assert(self.actions@.subrange(0, self.actions@.len() as int) =~= self.actions@);
        }
        Ok(())
    }

    /// Executes the transaction, given what the IBC component reports on each action; on
    /// failure the state is unchanged.
    pub fn execute(&self, state: &mut SequencerState, reports: &Vec<IbcReport>) -> (r: Result<(), TransactionError>)
        requires
            old(state).wf(),
        ensures
            final(state).wf(),
            match spec_transaction_execute(
                old(state)@,
                self.spec_signer()@,
                self.spec_nonce(),
                self.spec_id(),
                self.spec_actions(),
                reports@,
            ) {
                Ok(v) => r is Ok && final(state)@ == v,
                Err(e) => r is Err && r->Err_0@ == e && final(state)@ == old(state)@,
            },
    {
        let current_nonce = state.get_account_nonce(&self.signer);
        if current_nonce != self.nonce {
            return Err(TransactionError::InvalidNonce { expected: current_nonce, tx_nonce: self.nonce });
        }
        if self.nonce == u32::MAX {
            return Err(TransactionError::NonceOverflow);
        }
        let mut work = state.dup();
        if work.is_a_bridge_account(&self.signer) {
            work.put_last_transaction_id_for_bridge_account(self.signer, self.tx_id);
        }
        work.put_account_nonce(self.signer, current_nonce + 1);
        let ghost start = work@;
        let nothing = IbcReport::Nothing;
        let mut i: usize = 0;
        while i < self.actions.len()
            invariant
                work.wf(),
                state.wf(),
                state@ == old(state)@,
                spec_transaction_execute(
                    old(state)@,
                    self.signer@,
                    self.nonce,
                    self.tx_id@,
                    self.actions@,
                    reports@,
                ) == (match spec_execute_actions(start, self.actions@, self.signer@, reports@) {
                    Ok(w) => Ok::<StateView, TransactionErrorView>(w),
                    Err(e) => Err(TransactionErrorView::Action(e)),
                }),
                0 <= i <= self.actions@.len(),
                nothing == IbcReport::Nothing,
                spec_execute_actions(start, self.actions@.subrange(0, i as int), self.signer@, reports@)
                    == Ok::<StateView, Error>(work@),
            decreases self.actions@.len() - i,
        {
            proof {
                assert(self.actions@.subrange(0, i + 1).drop_last() =~= self.actions@.subrange(0, i as int));
            }
            let report = if i < reports.len() {
                &reports[i]
            } else {
                &nothing
            };
            match self.actions[i].execute_and_pay_fees(&mut work, &self.signer, report) {
                Ok(()) => {},
                Err(e) => {
                    proof {
                        lemma_execute_fails_on_prefix(start, self.actions@, self.signer@, reports@, i as int + 1);
                    }
                    return Err(TransactionError::Action(e));
                },
            }
            i = i + 1;
        }
        proof {
            assert(self.actions@.subrange(0, self.actions@.len() as int) =~= self.actions@);
        }
        *state = work;
        Ok(())
    }
}

/// Once the mutable checks of a prefix of the actions fail, those of all of them fail alike.
proof fn lemma_mutable_checks_fail_on_prefix(v: StateView, actions: Seq<CheckedAction>, reports: Seq<IbcReport>, n: int)
    requires
        0 <= n <= actions.len(),
        spec_transaction_mutable_checks(v, actions.subrange(0, n), reports) is Err,
    ensures
        spec_transaction_mutable_checks(v, actions, reports) == spec_transaction_mutable_checks(
            v,
            actions.subrange(0, n),
            reports,
        ),
    decreases actions.len() - n,
{
    if n < actions.len() {
        assert(actions.subrange(0, n + 1).drop_last() =~= actions.subrange(0, n));
        lemma_mutable_checks_fail_on_prefix(v, actions, reports, n + 1);
    } else {
        assert(actions.subrange(0, n) =~= actions);
    }
}

/// Once executing a prefix of the actions fails, executing all of them fails alike.
proof fn lemma_execute_fails_on_prefix(v: StateView, actions: Seq<CheckedAction>, signer: Seq<u8>, reports: Seq<IbcReport>, n: int)
    requires
        0 <= n <= actions.len(),
        spec_execute_actions(v, actions.subrange(0, n), signer, reports) is Err,
    ensures
        spec_execute_actions(v, actions, signer, reports) == spec_execute_actions(
            v,
            actions.subrange(0, n),
            signer,
            reports,
        ),
    decreases actions.len() - n,
{
    if n < actions.len() {
        assert(actions.subrange(0, n + 1).drop_last() =~= actions.subrange(0, n));
        lemma_execute_fails_on_prefix(v, actions, signer, reports, n + 1);
    } else {
        assert(actions.subrange(0, n) =~= actions);
    }
}

} // verus!
