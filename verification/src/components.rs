//! What the authority, accounts and IBC components do at genesis and around each block.
use vstd::prelude::*;

use crate::actions::ValidatorUpdate;
use crate::error::Error;
use crate::map::{AssocMap, KeyEq};
use crate::primitive::{denom_id, sha256, sha256_digest, AddressBytes, Denom};
use crate::state::{FeeComponents, FeeKind, SequencerState, StateView};

verus! {

/// A prefix one longer holds what the shorter prefix holds and the next element.
proof fn lemma_prefix_contains<A>(s: Seq<A>, i: int, k: A)
    requires
        0 <= i < s.len(),
    ensures
        s.subrange(0, i + 1).contains(k) == (s.subrange(0, i).contains(k) || k == s[i]),
        s.subrange(0, i + 1).to_set() == s.subrange(0, i).to_set().insert(s[i]),
{
    let a = s.subrange(0, i);
    let b = s.subrange(0, i + 1);
    assert(b =~= a.push(s[i]));
    assert forall|x: A| b.contains(x) == (a.contains(x) || x == s[i]) by {
        if b.contains(x) {
            let j = choose|j: int| 0 <= j < b.len() && b[j] == x;
            if j < i {
                assert(a[j] == x);
            }
        }
        if a.contains(x) {
            let j = choose|j: int| 0 <= j < a.len() && a[j] == x;
            assert(b[j] == x);
        }
        if x == s[i] {
            assert(b[i] == x);
        }
    }
    assert(b.to_set() =~= a.to_set().insert(s[i]));
}

/// The validator set made of genesis updates, later updates of a key replacing earlier ones.
pub open spec fn spec_set_from_updates(us: Seq<ValidatorUpdate>) -> Map<Seq<u8>, u64>
    decreases us.len(),
{
    if us.len() == 0 {
        Map::empty()
    } else {
        spec_set_from_updates(us.drop_last()).insert(us.last().verification_key@, us.last().power)
    }
}

/// The validator set after applying updates: an update of power zero removes its validator,
/// another sets its power.
pub open spec fn spec_apply_updates(set: Map<Seq<u8>, u64>, updates: Map<Seq<u8>, u64>) -> Map<Seq<u8>, u64> {
    Map::new(
        |k: Seq<u8>| (updates.contains_key(k) && updates[k] != 0) || (!updates.contains_key(k) && set.contains_key(k)),
        |k: Seq<u8>| if updates.contains_key(k) {
            updates[k]
        } else {
            set[k]
        },
    )
}

/// The consensus address of a validator: the first 20 bytes of the SHA-256 hash of its key.
pub open spec fn validator_address(key: Seq<u8>) -> Seq<u8> {
    sha256_digest(key).subrange(0, 20)
}

/// The validator set without the validators whose address is among `byzantine`.
pub open spec fn spec_remove_byzantine(set: Map<Seq<u8>, u64>, byzantine: Seq<Seq<u8>>) -> Map<Seq<u8>, u64> {
    Map::new(
        |k: Seq<u8>| set.contains_key(k) && !byzantine.contains(validator_address(k)),
        |k: Seq<u8>| set[k],
    )
}

/// The state after the authority component's genesis: the sudo address and the validator set
/// are those of the genesis.
pub open spec fn spec_authority_init_chain(v: StateView, sudo: Seq<u8>, validators: Seq<ValidatorUpdate>) -> StateView {
    StateView { sudo_address: Some(sudo), validator_set: spec_set_from_updates(validators), ..v }
}

/// Stores the sudo address and the genesis validator set.
pub fn authority_init_chain(state: &mut SequencerState, sudo_address: AddressBytes, genesis_validators: &Vec<ValidatorUpdate>)
    requires
        old(state).wf(),
    ensures
        final(state).wf(),
        final(state)@ == spec_authority_init_chain(old(state)@, sudo_address@, genesis_validators@),
{
    state.put_sudo_address(sudo_address);
    let mut set: AssocMap<[u8; 32], u64> = AssocMap::new();
    let mut i: usize = 0;
    while i < genesis_validators.len()
        invariant
            0 <= i <= genesis_validators@.len(),
            set.wf(),
            set@ == spec_set_from_updates(genesis_validators@.subrange(0, i as int)),
        decreases genesis_validators@.len() - i,
    {
        proof {
            assert(genesis_validators@.subrange(0, i + 1).drop_last() =~= genesis_validators@.subrange(0, i as int));
        }
        let u = &genesis_validators[i];
        set.insert(u.verification_key, u.power);
        i = i + 1;
    }
    proof {
        assert(genesis_validators@.subrange(0, genesis_validators@.len() as int) =~= genesis_validators@);
    }
    state.put_validator_set(set);
}

/// Whether `address` is one of `addresses`.
fn contains_address(addresses: &Vec<AddressBytes>, address: &Vec<u8>) -> (r: bool)
    ensures
        r == addresses@.map_values(|a: AddressBytes| a@).contains(address@),
{
    let ghost views = addresses@.map_values(|a: AddressBytes| a@);
    let mut i: usize = 0;
    while i < addresses.len()
        invariant
            views == addresses@.map_values(|a: AddressBytes| a@),
            0 <= i <= addresses@.len(),
            forall|j: int| 0 <= j < i ==> views[j] != address@,
        decreases addresses@.len() - i,
    {
        let a = &addresses[i];
        let mut same = address.len() == 20;
        let mut j: usize = 0;
        while same && j < 20
            invariant
                0 <= j <= 20,
                same ==> address@.len() == 20,
                same ==> forall|k: int| 0 <= k < j ==> address@[k] == a@[k],
                !same ==> address@.len() != 20 || exists|k: int| 0 <= k < 20 && address@[k] != a@[k],
            decreases 20 - j,
        {
            if address[j] != a[j] {
                same = false;
            }
            j = j + 1;
        }
        if same {
            assert(address@ =~= a@);
            assert(views[i as int] == address@);
            return true;
        }
        assert(views[i as int] != address@) by {
            if views[i as int] == address@ {
                assert(a@ == address@);
            }
        }
        i = i + 1;
    }
    false
}

/// The consensus address of a validator key.
fn address_of_validator(key: &[u8; 32]) -> (r: Vec<u8>)
    ensures
        r@ == validator_address(key@),
{
    let hash = sha256(key);
    let mut r: Vec<u8> = Vec::new();
    let mut i: usize = 0;
    while i < 20
        invariant
            0 <= i <= 20,
            hash@.len() == 32,
            r@ == hash@.subrange(0, i as int),
        decreases 20 - i,
    {
        r.push(hash[i]);
        i = i + 1;
    }
    r
}

/// Removes the validators that misbehaved, named by their consensus addresses.
pub fn authority_begin_block(state: &mut SequencerState, byzantine_validators: &Vec<AddressBytes>)
    requires
        old(state).wf(),
    ensures
        final(state).wf(),
        final(state)@ == (StateView {
            validator_set: spec_remove_byzantine(
                old(state)@.validator_set,
                byzantine_validators@.map_values(|a: AddressBytes| a@),
            ),
            ..old(state)@
        }),
{
    let ghost byz = byzantine_validators@.map_values(|a: AddressBytes| a@);
    let mut current_set = state.get_validator_set();
    let keys = current_set.keys();
    proof {
        current_set.lemma_key_seq();
    }
    let ghost set = current_set@;
    let ghost ids = keys@.map_values(|k: [u8; 32]| k@);
    let mut i: usize = 0;
    while i < keys.len()
        invariant
            current_set.wf(),
            ids == keys@.map_values(|k: [u8; 32]| k@),
            ids.no_duplicates(),
            ids.to_set() == set.dom(),
            0 <= i <= keys@.len(),
            byz == byzantine_validators@.map_values(|a: AddressBytes| a@),
            current_set@ == Map::new(
                |k: Seq<u8>| set.contains_key(k) && !(ids.subrange(0, i as int).contains(k)
                    && byz.contains(validator_address(k))),
                |k: Seq<u8>| set[k],
            ),
        decreases keys@.len() - i,
    {
        let key = &keys[i];
        let address = address_of_validator(key);
        let remove = contains_address(byzantine_validators, &address);
        let ghost before = current_set@;
        if remove {
            current_set.remove(key);
        }
        proof {
            assert(ids[i as int] == key@);
            let next = Map::new(
                |k: Seq<u8>| set.contains_key(k) && !(ids.subrange(0, i + 1).contains(k)
                    && byz.contains(validator_address(k))),
                |k: Seq<u8>| set[k],
            );
            assert forall|k: Seq<u8>| ids.subrange(0, i + 1).contains(k) == (ids.subrange(0, i as int).contains(k) || k == key@) by {
                lemma_prefix_contains(ids, i as int, k);
            }
            assert(current_set@ =~= next);
        }
        i = i + 1;
    }
    proof {
        assert(ids.subrange(0, keys@.len() as int) =~= ids);
        assert(current_set@ =~= spec_remove_byzantine(set, byz)) by {
            assert forall|k: Seq<u8>| set.contains_key(k) implies ids.contains(k) by {
                assert(ids.to_set().contains(k));
            }
        }
    }
    state.put_validator_set(current_set);
}

/// Applies the pending validator updates to the validator set.
pub fn authority_end_block(state: &mut SequencerState)
    requires
        old(state).wf(),
    ensures
        final(state).wf(),
        final(state)@ == (StateView {
            validator_set: spec_apply_updates(old(state)@.validator_set, old(state)@.validator_updates),
            ..old(state)@
        }),
{
    let updates = state.get_validator_updates();
    let mut current_set = state.get_validator_set();
    let keys = updates.keys();
    proof {
        updates.lemma_key_seq();
    }
    let ghost set = current_set@;
    let ghost ids = keys@.map_values(|k: [u8; 32]| k@);
    let mut i: usize = 0;
    while i < keys.len()
        invariant
            updates.wf(),
            current_set.wf(),
            ids == keys@.map_values(|k: [u8; 32]| k@),
            ids.no_duplicates(),
            ids.to_set() == updates@.dom(),
            0 <= i <= keys@.len(),
            current_set@ == spec_apply_updates(set, updates@.restrict(ids.subrange(0, i as int).to_set())),
        decreases keys@.len() - i,
    {
        let key = &keys[i];
        proof {
            assert(ids[i as int] == key@);
            assert(ids.to_set().contains(key@));
        }
        let power = match updates.get(key) {
            Some(p) => *p,
            None => 0,
        };
        if power == 0 {
            current_set.remove(key);
        } else {
            current_set.insert(*key, power);
        }
        proof {
            let done = ids.subrange(0, i as int).to_set();
            let done1 = ids.subrange(0, i + 1).to_set();
            lemma_prefix_contains(ids, i as int, key@);
            assert(!done.contains(key@)) by {
                if done.contains(key@) {
                    let pre = ids.subrange(0, i as int);
                    let j = choose|j: int| 0 <= j < pre.len() && pre[j] == key@;
                    assert(ids[j] == ids[i as int]);
                }
            }
            assert(current_set@ =~= spec_apply_updates(set, updates@.restrict(done1)));
        }
        i = i + 1;
    }
    proof {
        assert(ids.subrange(0, keys@.len() as int) =~= ids);
        assert(updates@.restrict(ids.to_set()) =~= updates@);
    }
    state.put_validator_set(current_set);
}

/// The state with the genesis balances of the native asset set, in order.
pub open spec fn spec_put_balances(v: StateView, accounts: Seq<(AddressBytes, u128)>, asset: Seq<u8>) -> StateView
    decreases accounts.len(),
{
    if accounts.len() == 0 {
        v
    } else {
        spec_put_balances(v, accounts.drop_last(), asset).with_balance(
            accounts.last().0@,
            asset,
            accounts.last().1,
        )
    }
}

/// The state after the accounts component's genesis: with genesis accounts, a native asset
/// must be stored, and each account gets its balance of it.
pub open spec fn spec_accounts_init_chain(v: StateView, accounts: Seq<(AddressBytes, u128)>) -> Result<StateView, Error> {
    if accounts.len() == 0 {
        Ok(v)
    } else {
        match v.native_asset {
            None => Err(Error::NativeAssetNotFound),
            Some(t) => Ok(spec_put_balances(v, accounts, crate::primitive::sha256_digest(
                vstd::utf8::encode_utf8(crate::primitive::trace_text(t)),
            ))),
        }
    }
}

/// Sets the genesis balances of the native asset; on failure the state is unchanged.
pub fn accounts_init_chain(state: &mut SequencerState, accounts: &Vec<(AddressBytes, u128)>) -> (r: Result<(), Error>)
    requires
        old(state).wf(),
    ensures
        final(state).wf(),
        match spec_accounts_init_chain(old(state)@, accounts@) {
            Ok(v) => r is Ok && final(state)@ == v,
            Err(e) => r == Err::<(), Error>(e) && final(state)@ == old(state)@,
        },
{
    if accounts.len() == 0 {
        return Ok(());
    }
    let native = match state.native_asset() {
        Some(t) => Denom::TracePrefixed(crate::map::Dup::dup(t)),
        None => return Err(Error::NativeAssetNotFound),
    };
    let asset = native.to_ibc_prefixed();
    let ghost start = state@;
    let mut i: usize = 0;
    while i < accounts.len()
        invariant
            state.wf(),
            0 <= i <= accounts@.len(),
            asset@ == denom_id(native),
            state@ == spec_put_balances(start, accounts@.subrange(0, i as int), asset@),
        decreases accounts@.len() - i,
    {
        proof {
            assert(accounts@.subrange(0, i + 1).drop_last() =~= accounts@.subrange(0, i as int));
        }
        let (address, balance) = accounts[i];
        state.put_account_balance(address, asset, balance);
        i = i + 1;
    }
    proof {
        assert(accounts@.subrange(0, accounts@.len() as int) =~= accounts@);
    }
    Ok(())
}

/// The state with an ICS20 withdrawal base fee: the withdrawal fee components become that base
/// with no per-byte part.
pub open spec fn spec_put_ics20_withdrawal_base_fee(v: StateView, fee: u128) -> StateView {
    StateView { fees: v.fees.insert(FeeKind::Ics20Withdrawal, FeeComponents { base: fee, multiplier: 0 }), ..v }
}

/// Stores the ICS20 withdrawal base fee.
pub fn put_ics20_withdrawal_base_fee(state: &mut SequencerState, fee: u128)
    requires
        old(state).wf(),
    ensures
        final(state).wf(),
        final(state)@ == spec_put_ics20_withdrawal_base_fee(old(state)@, fee),
{
    state.put_fees(FeeKind::Ics20Withdrawal, FeeComponents { base: fee, multiplier: 0 });
}

/// The ICS20 withdrawal base fee.
pub fn get_ics20_withdrawal_base_fee(state: &SequencerState) -> (r: Result<u128, Error>)
    requires
        state.wf(),
    ensures
        match r {
            Ok(f) => state@.fees.contains_key(FeeKind::Ics20Withdrawal) && f == state@.fees[FeeKind::Ics20Withdrawal].base,
            Err(e) => !state@.fees.contains_key(FeeKind::Ics20Withdrawal) && e == Error::FeesNotFound,
        },
{
    match state.get_fees(FeeKind::Ics20Withdrawal) {
        Some(c) => Ok(c.base),
        None => Err(Error::FeesNotFound),
    }
}

/// The state after the IBC component's genesis, as far as this library holds it: the IBC sudo
/// address, the relayers and the ICS20 withdrawal base fee.
pub open spec fn spec_ibc_init_chain(v: StateView, ibc_sudo: Seq<u8>, relayers: Seq<AddressBytes>, fee: u128) -> StateView {
    spec_put_ics20_withdrawal_base_fee(
        StateView {
            ibc_sudo_address: Some(ibc_sudo),
            ibc_relayers: v.ibc_relayers + relayers.map_values(|a: AddressBytes| a@).to_set(),
            ..v
        },
        fee,
    )
}

/// Stores the IBC sudo address, the genesis relayers and the ICS20 withdrawal base fee.
pub fn ibc_init_chain(state: &mut SequencerState, ibc_sudo_address: AddressBytes, relayers: &Vec<AddressBytes>, ics20_withdrawal_base_fee: u128)
    requires
        old(state).wf(),
    ensures
        final(state).wf(),
        final(state)@ == spec_ibc_init_chain(old(state)@, ibc_sudo_address@, relayers@, ics20_withdrawal_base_fee),
{
    state.put_ibc_sudo_address(ibc_sudo_address);
    let ghost start = state@;
    let ghost views = relayers@.map_values(|a: AddressBytes| a@);
    proof {
        assert(views.subrange(0, 0).to_set() =~= Set::<Seq<u8>>::empty());
        assert(start.ibc_relayers + Set::<Seq<u8>>::empty() =~= start.ibc_relayers);
    }
    let mut i: usize = 0;
    while i < relayers.len()
        invariant
            state.wf(),
            0 <= i <= relayers@.len(),
            views == relayers@.map_values(|a: AddressBytes| a@),
            state@ == (StateView {
                ibc_relayers: start.ibc_relayers + views.subrange(0, i as int).to_set(),
                ..start
            }),
        decreases relayers@.len() - i,
    {
        state.put_ibc_relayer_address(relayers[i]);
        proof {
            let prev = views.subrange(0, i as int).to_set();
            let next = views.subrange(0, i + 1).to_set();
            lemma_prefix_contains(views, i as int, views[i as int]);
            assert(start.ibc_relayers + next =~= (start.ibc_relayers + prev).insert(views[i as int]));
        }
        i = i + 1;
    }
    proof {
        assert(views.subrange(0, relayers@.len() as int) =~= views);
    }
    put_ics20_withdrawal_base_fee(state, ics20_withdrawal_base_fee);
}

} // verus!
