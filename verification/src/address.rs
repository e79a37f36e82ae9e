//! The base address prefix: reading it, checking addresses against it and storing it.
use vstd::prelude::*;
use vstd::string::*;
use vstd::utf8::encode_utf8;

use crate::cache::{lookup, Cached, StateCache};
use crate::error::Error;
use crate::keys::base_prefix_key;
use crate::primitive::{try_build_address, valid_prefix, Address, ADDRESS_LEN};
use crate::state::{SequencerState, StateView};

verus! {

/// The cache key of the base prefix: the bytes of its storage key.
pub open spec fn base_prefix_cache_key() -> Seq<u8> {
    encode_utf8("prefixes/base"@)
}

/// The outcome of checking an address prefix against the stored base prefix.
pub open spec fn spec_ensure_base_prefix(v: StateView, prefix: Seq<char>) -> Result<(), Error> {
    match v.base_prefix {
        None => Err(Error::BasePrefixNotFound),
        Some(p) => if p == prefix {
            Ok(())
        } else {
            Err(Error::AddressPrefixMismatch)
        },
    }
}

/// Checks that an address has the stored base prefix.
pub fn ensure_base_prefix(state: &SequencerState, address: &Address) -> (r: Result<(), Error>)
    ensures
        r == spec_ensure_base_prefix(state@, address.prefix@),
{
    match state.base_prefix() {
        None => Err(Error::BasePrefixNotFound),
        Some(p) => if *p == address.prefix {
            Ok(())
        } else {
            Err(Error::AddressPrefixMismatch)
        },
    }
}

/// The base prefix that a cached read yields: the cached one if the topmost cache layer holds
/// it, else the stored one.
pub open spec fn spec_cached_base_prefix(v: StateView, top: Map<Seq<u8>, Cached>) -> Option<Seq<char>> {
    match lookup(top, base_prefix_cache_key()) {
        Some(Cached::BasePrefix(p)) => Some(p@),
        _ => v.base_prefix,
    }
}

/// The cache agrees with the state on the base prefix: it holds the stored prefix under the
/// base prefix key, or nothing there.
pub open spec fn base_prefix_coherent(v: StateView, top: Map<Seq<u8>, Cached>) -> bool {
    match lookup(top, base_prefix_cache_key()) {
        None => true,
        Some(Cached::BasePrefix(p)) => v.base_prefix == Some(p@),
        Some(_) => false,
    }
}

/// Reads the base prefix, from the cache if it holds it, else from the state; a prefix read
/// from the state is then cached.
pub fn get_base_prefix(state: &SequencerState, cache: &mut StateCache) -> (r: Result<String, Error>)
    requires
        old(cache).wf(),
    ensures
        final(cache).wf(),
        match r {
            Ok(p) => spec_cached_base_prefix(state@, old(cache)@.top()) == Some(p@),
            Err(e) => spec_cached_base_prefix(state@, old(cache)@.top()) is None && e
                == Error::BasePrefixNotFound,
        },
        match lookup(old(cache)@.top(), base_prefix_cache_key()) {
            Some(Cached::BasePrefix(_)) => final(cache)@ == old(cache)@,
            _ => r is Ok ==> final(cache)@ == old(cache)@.with_top(final(cache)@.top())
                && final(cache)@.top().submap_of(
                old(cache)@.top().insert(base_prefix_cache_key(), Cached::BasePrefix(r->Ok_0)),
            ) && (old(cache).has_room() ==> final(cache)@.top() == old(cache)@.top().insert(
                base_prefix_cache_key(),
                Cached::BasePrefix(r->Ok_0),
            )),
        },
        r is Err ==> final(cache)@ == old(cache)@,
        base_prefix_coherent(state@, old(cache)@.top()) ==> base_prefix_coherent(state@, final(cache)@.top()),
{
    let key_str = base_prefix_key();
    let key = key_str.as_bytes_vec();
    match cache.get(&key) {
        Some(Cached::BasePrefix(base_prefix)) => {
            return Ok(base_prefix);
        },
        _ => {},
    }
    match state.base_prefix() {
        None => Err(Error::BasePrefixNotFound),
        Some(p) => {
            let base_prefix = p.clone();
            let ghost k = key@;
            let value = Cached::BasePrefix(p.clone());
            let ghost vv = value;
            let ghost before = cache@.top();
            cache.put(key, value);
            proof {
                let top = cache@.top();
                if top.contains_key(k) {
                    assert(before.insert(k, vv).dom().contains(k));
                    assert(top[k] == vv);
                }
            }
            Ok(base_prefix)
        },
    }
}

/// Checks that an address has the base prefix, read through the cache.
pub fn ensure_base_prefix_cached(state: &SequencerState, address: &Address, cache: &mut StateCache) -> (r: Result<(), Error>)
    requires
        old(cache).wf(),
    ensures
        final(cache).wf(),
        r == (match spec_cached_base_prefix(state@, old(cache)@.top()) {
            None => Err(Error::BasePrefixNotFound),
            Some(p) => if p == address.prefix@ {
                Ok(())
            } else {
                Err(Error::AddressPrefixMismatch)
            },
        }),
{
    let prefix = get_base_prefix(state, cache)?;
    if prefix == address.prefix {
        Ok(())
    } else {
        Err(Error::AddressPrefixMismatch)
    }
}

/// Builds an address from a byte slice and the base prefix read through the cache.
pub fn try_base_prefixed(state: &SequencerState, slice: &[u8], cache: &mut StateCache) -> (r: Result<Address, Error>)
    requires
        old(cache).wf(),
    ensures
        final(cache).wf(),
        match r {
            Ok(a) => spec_cached_base_prefix(state@, old(cache)@.top()) == Some(a.prefix@)
                && slice@.len() == ADDRESS_LEN && a.bytes@ == slice@ && valid_prefix(a.prefix@),
            Err(e) => (spec_cached_base_prefix(state@, old(cache)@.top()) is None && e
                == Error::BasePrefixNotFound) || (spec_cached_base_prefix(
                state@,
                old(cache)@.top(),
            ) is Some && (e == Error::InvalidPrefix) && (slice@.len() != ADDRESS_LEN
                || !valid_prefix(spec_cached_base_prefix(state@, old(cache)@.top())->Some_0))),
        },
{
    let prefix = get_base_prefix(state, cache)?;
    if slice.len() != ADDRESS_LEN {
        return Err(Error::InvalidPrefix);
    }
    let mut bytes = [0u8; 20];
    let mut i: usize = 0;
    while i < 20
        invariant
            0 <= i <= 20,
            slice@.len() == 20,
            bytes@.len() == 20,
            forall|j: int| 0 <= j < i ==> bytes@[j] == slice@[j],
        decreases 20 - i,
    {
        bytes[i] = slice[i];
        i = i + 1;
    }
    assert(bytes@ =~= slice@);
    match try_build_address(bytes, prefix.as_str()) {
        Some(a) => Ok(a),
        None => Err(Error::InvalidPrefix),
    }
}

/// Checks that an address can be built under `prefix`.
pub fn try_construct_dummy_address_from_prefix(prefix: &str) -> (r: Result<(), Error>)
    ensures
        r is Ok <==> valid_prefix(prefix@),
        r is Err ==> r == Err::<(), Error>(Error::InvalidPrefix),
{
    match try_build_address([0u8; 20], prefix) {
        Some(_) => Ok(()),
        None => Err(Error::InvalidPrefix),
    }
}

/// Stores the base prefix, and caches it, after checking that it is a valid prefix.
pub fn put_base_prefix(state: &mut SequencerState, prefix: &str, cache: &mut StateCache) -> (r: Result<(), Error>)
    requires
        old(cache).wf(),
    ensures
        final(cache).wf(),
        final(state).wf() == old(state).wf(),
        r is Ok <==> valid_prefix(prefix@),
        r is Ok ==> final(state)@ == (StateView { base_prefix: Some(prefix@), ..old(state)@ }),
        r is Ok ==> final(cache)@ == old(cache)@.with_top(final(cache)@.top()),
        r is Ok ==> spec_cached_base_prefix(final(state)@, final(cache)@.top()) == Some(prefix@),
        r is Ok ==> base_prefix_coherent(final(state)@, final(cache)@.top()),
        r is Err ==> r == Err::<(), Error>(Error::InvalidPrefix) && final(state)@ == old(state)@
            && final(cache)@ == old(cache)@,
{
    try_construct_dummy_address_from_prefix(prefix)?;
    state.set_base_prefix(String::from_str(prefix));
    let key = base_prefix_key().as_bytes_vec();
    let ghost k = key@;
    let value = Cached::BasePrefix(String::from_str(prefix));
    let ghost vv = value;
    cache.put(key, value);
    proof {
        let top = cache@.top();
        if top.contains_key(k) {
            assert(old(cache)@.top().insert(k, vv).dom().contains(k));
            assert(top[k] == vv);
        }
    }
    Ok(())
}

} // verus!
