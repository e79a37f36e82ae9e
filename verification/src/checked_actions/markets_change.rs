//! A checked change of the price-feed market map.
use vstd::prelude::*;

use crate::actions::MarketsChange;
use crate::authority::{ensure_sudo, spec_ensure_sudo};
use crate::error::Error;
use crate::map::{AssocMap, Dup};
use crate::primitive::AddressBytes;
use crate::state::{Market, MarketView, SequencerState, StateView};

verus! {

/// The market map after creating `ms` in order: fails if a market's currency pair is already
/// in the map, counting those created before it.
pub open spec fn spec_create_markets(m: Map<Seq<char>, MarketView>, ms: Seq<Market>) -> Result<Map<Seq<char>, MarketView>, Error>
    decreases ms.len(),
{
    if ms.len() == 0 {
        Ok(m)
    } else {
        match spec_create_markets(m, ms.drop_last()) {
            Err(e) => Err(e),
            Ok(m1) => if m1.contains_key(ms.last().currency_pair@) {
                Err(Error::MarketAlreadyExists)
            } else {
                Ok(m1.insert(ms.last().currency_pair@, ms.last()@))
            },
        }
    }
}

/// The market map with the currency pairs of `ms` removed.
pub open spec fn spec_remove_markets(m: Map<Seq<char>, MarketView>, ms: Seq<Market>) -> Map<Seq<char>, MarketView>
    decreases ms.len(),
{
    if ms.len() == 0 {
        m
    } else {
        spec_remove_markets(m, ms.drop_last()).remove(ms.last().currency_pair@)
    }
}

/// The market map after replacing the markets of `ms` in order: fails if a market's currency
/// pair is not in the map.
pub open spec fn spec_update_markets(m: Map<Seq<char>, MarketView>, ms: Seq<Market>) -> Result<Map<Seq<char>, MarketView>, Error>
    decreases ms.len(),
{
    if ms.len() == 0 {
        Ok(m)
    } else {
        match spec_update_markets(m, ms.drop_last()) {
            Err(e) => Err(e),
            Ok(m1) => if !m1.contains_key(ms.last().currency_pair@) {
                Err(Error::MarketNotFound)
            } else {
                Ok(m1.insert(ms.last().currency_pair@, ms.last()@))
            },
        }
    }
}

/// The market map after a change; an update of an empty map fails.
pub open spec fn spec_apply_markets_change(m: Map<Seq<char>, MarketView>, a: MarketsChange) -> Result<Map<Seq<char>, MarketView>, Error> {
    match a {
        MarketsChange::Creation(ms) => spec_create_markets(m, ms@),
        MarketsChange::Removal(ms) => Ok(spec_remove_markets(m, ms@)),
        MarketsChange::Update(ms) => if m == Map::<Seq<char>, MarketView>::empty() {
            Err(Error::MarketMapEmpty)
        } else {
            spec_update_markets(m, ms@)
        },
    }
}

/// The state after a markets change: the signer is the sudo address, the market map exists
/// and takes the change, and the current block height is recorded as its last update.
pub open spec fn spec_markets_change_execute(v: StateView, a: MarketsChange, signer: Seq<u8>) -> Result<StateView, Error> {
    match spec_ensure_sudo(v, signer) {
        Err(e) => Err(e),
        Ok(_) => match v.market_map {
            None => Err(Error::MarketMapNotFound),
            Some(m) => match spec_apply_markets_change(m, a) {
                Err(e) => Err(e),
                Ok(m2) => match v.block_height {
                    None => Err(Error::BlockHeightNotFound),
                    Some(h) => Ok(
                        StateView {
                            market_map: Some(m2),
                            market_map_last_updated_height: Some(h),
                            ..v
                        },
                    ),
                },
            },
        },
    }
}

/// Creates the markets in order.
fn create_markets(map: &mut AssocMap<String, Market>, ms: &Vec<Market>) -> (r: Result<(), Error>)
    requires
        old(map).wf(),
    ensures
        final(map).wf(),
        match spec_create_markets(old(map)@, ms@) {
            Ok(m) => r is Ok && final(map)@ == m,
            Err(e) => r == Err::<(), Error>(e),
        },
{
    let mut i: usize = 0;
    while i < ms.len()
        invariant
            0 <= i <= ms@.len(),
            map.wf(),
            spec_create_markets(old(map)@, ms@.subrange(0, i as int)) == Ok::<
                Map<Seq<char>, MarketView>,
                Error,
            >(map@),
        decreases ms@.len() - i,
    {
        let market = &ms[i];
        proof {
            assert(ms@.subrange(0, i + 1).drop_last() =~= ms@.subrange(0, i as int));
        }
        if map.contains_key(&market.currency_pair) {
            proof {
                lemma_create_fails_on_prefix(old(map)@, ms@, i as int + 1);
            }
            return Err(Error::MarketAlreadyExists);
        }
        map.insert(market.currency_pair.clone(), market.dup());
        i = i + 1;
    }
    assert(ms@.subrange(0, ms@.len() as int) =~= ms@);
    Ok(())
}

/// Once creating a prefix of the markets fails, creating all of them fails alike.
proof fn lemma_create_fails_on_prefix(m: Map<Seq<char>, MarketView>, ms: Seq<Market>, n: int)
    requires
        0 <= n <= ms.len(),
        spec_create_markets(m, ms.subrange(0, n)) is Err,
    ensures
        spec_create_markets(m, ms) == spec_create_markets(m, ms.subrange(0, n)),
    decreases ms.len() - n,
{
    if n < ms.len() {
        assert(ms.subrange(0, n + 1).drop_last() =~= ms.subrange(0, n));
        lemma_create_fails_on_prefix(m, ms, n + 1);
    } else {
        assert(ms.subrange(0, n) =~= ms);
    }
}

/// Once updating with a prefix of the markets fails, updating with all of them fails alike.
proof fn lemma_update_fails_on_prefix(m: Map<Seq<char>, MarketView>, ms: Seq<Market>, n: int)
    requires
        0 <= n <= ms.len(),
        spec_update_markets(m, ms.subrange(0, n)) is Err,
    ensures
        spec_update_markets(m, ms) == spec_update_markets(m, ms.subrange(0, n)),
    decreases ms.len() - n,
{
    if n < ms.len() {
        assert(ms.subrange(0, n + 1).drop_last() =~= ms.subrange(0, n));
        lemma_update_fails_on_prefix(m, ms, n + 1);
    } else {
        assert(ms.subrange(0, n) =~= ms);
    }
}

/// Removes the markets' currency pairs.
fn remove_markets(map: &mut AssocMap<String, Market>, ms: &Vec<Market>)
    requires
        old(map).wf(),
    ensures
        final(map).wf(),
        final(map)@ == spec_remove_markets(old(map)@, ms@),
{
    let mut i: usize = 0;
    while i < ms.len()
        invariant
            0 <= i <= ms@.len(),
            map.wf(),
            spec_remove_markets(old(map)@, ms@.subrange(0, i as int)) == map@,
        decreases ms@.len() - i,
    {
        proof {
            assert(ms@.subrange(0, i + 1).drop_last() =~= ms@.subrange(0, i as int));
        }
        map.remove(&ms[i].currency_pair);
        i = i + 1;
    }
    assert(ms@.subrange(0, ms@.len() as int) =~= ms@);
}

/// Replaces the markets in order.
fn update_markets(map: &mut AssocMap<String, Market>, ms: &Vec<Market>) -> (r: Result<(), Error>)
    requires
        old(map).wf(),
    ensures
        final(map).wf(),
        match spec_update_markets(old(map)@, ms@) {
            Ok(m) => r is Ok && final(map)@ == m,
            Err(e) => r == Err::<(), Error>(e),
        },
{
    let mut i: usize = 0;
    while i < ms.len()
        invariant
            0 <= i <= ms@.len(),
            map.wf(),
            spec_update_markets(old(map)@, ms@.subrange(0, i as int)) == Ok::<
                Map<Seq<char>, MarketView>,
                Error,
            >(map@),
        decreases ms@.len() - i,
    {
        let market = &ms[i];
        proof {
            assert(ms@.subrange(0, i + 1).drop_last() =~= ms@.subrange(0, i as int));
        }
        if !map.contains_key(&market.currency_pair) {
            proof {
                lemma_update_fails_on_prefix(old(map)@, ms@, i as int + 1);
            }
            return Err(Error::MarketNotFound);
        }
        map.insert(market.currency_pair.clone(), market.dup());
        i = i + 1;
    }
    assert(ms@.subrange(0, ms@.len() as int) =~= ms@);
    Ok(())
}

/// A markets change that passed its checks.
pub struct CheckedMarketsChange {
    action: MarketsChange,
    tx_signer: AddressBytes,
}

impl CheckedMarketsChange {
    pub closed spec fn action(&self) -> MarketsChange {
        self.action
    }

    pub closed spec fn tx_signer(&self) -> AddressBytes {
        self.tx_signer
    }

    /// Checks the action against the state: the signer is the sudo address.
    pub fn new(action: MarketsChange, tx_signer: AddressBytes, state: &SequencerState) -> (r: Result<Self, Error>)
        requires
            state.wf(),
        ensures
            match r {
                Ok(c) => spec_ensure_sudo(state@, tx_signer@) is Ok && c.action() == action
                    && c.tx_signer() == tx_signer,
                Err(e) => spec_ensure_sudo(state@, tx_signer@) == Err::<(), Error>(e),
            },
    {
        let checked = CheckedMarketsChange { action, tx_signer };
        checked.run_mutable_checks(state)?;
        Ok(checked)
    }

    /// The signer is the sudo address.
    pub fn run_mutable_checks(&self, state: &SequencerState) -> (r: Result<(), Error>)
        requires
            state.wf(),
        ensures
            r == spec_ensure_sudo(state@, self.tx_signer()@),
    {
        ensure_sudo(state, &self.tx_signer)
    }

    /// Executes the change; on failure the state is unchanged.
    pub fn execute(&self, state: &mut SequencerState) -> (r: Result<(), Error>)
        requires
            old(state).wf(),
        ensures
            final(state).wf(),
            match spec_markets_change_execute(old(state)@, self.action(), self.tx_signer()@) {
                Ok(v) => r is Ok && final(state)@ == v,
                Err(e) => r == Err::<(), Error>(e) && final(state)@ == old(state)@,
            },
    {
        self.run_mutable_checks(state)?;
        let mut market_map = match state.get_market_map() {
            Some(m) => m.dup(),
            None => return Err(Error::MarketMapNotFound),
        };
        match &self.action {
            MarketsChange::Creation(ms) => create_markets(&mut market_map, ms)?,
            MarketsChange::Removal(ms) => remove_markets(&mut market_map, ms),
            MarketsChange::Update(ms) => {
                if market_map.is_empty() {
                    return Err(Error::MarketMapEmpty);
                }
                update_markets(&mut market_map, ms)?
            },
        }
        let height = match state.block_height() {
            Some(h) => h,
            None => return Err(Error::BlockHeightNotFound),
        };
        state.put_market_map(market_map);
        state.put_market_map_last_updated_height(height);
        Ok(())
    }
}

} // verus!
