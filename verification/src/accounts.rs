//! Moving funds between accounts.
use vstd::prelude::*;

use crate::error::Error;
use crate::map::KeyEq;
use crate::primitive::{AddressBytes, IbcPrefixed};
use crate::state::{SequencerState, StateView};

verus! {

/// Takes `amount` of `asset` from `from` and gives it to `to`: fails if `from` holds less, or
/// if the balance of `to` would exceed `u128::MAX`.
pub open spec fn spec_move_funds(v: StateView, from: Seq<u8>, to: Seq<u8>, asset: Seq<u8>, amount: u128) -> Result<StateView, Error> {
    if v.balance(from, asset) < amount {
        Err(Error::InsufficientFunds)
    } else {
        let v1 = v.with_balance(from, asset, (v.balance(from, asset) - amount) as u128);
        if v1.balance(to, asset) + amount > u128::MAX {
            Err(Error::BalanceOverflow)
        } else {
            Ok(v1.with_balance(to, asset, (v1.balance(to, asset) + amount) as u128))
        }
    }
}

/// Takes `amount` of `asset` from `from` and gives it to `to`; on failure nothing changes.
pub fn move_funds(state: &mut SequencerState, from: &AddressBytes, to: &AddressBytes, asset: &IbcPrefixed, amount: u128) -> (r: Result<(), Error>)
    requires
        old(state).wf(),
    ensures
        final(state).wf(),
        match spec_move_funds(old(state)@, from@, to@, asset@, amount) {
            Ok(v) => r is Ok && final(state)@ == v,
            Err(e) => r == Err::<(), Error>(e) && final(state)@ == old(state)@,
        },
{
    let from_balance = state.get_account_balance(from, asset);
    if from_balance < amount {
        return Err(Error::InsufficientFunds);
    }
    if !from.key_eq(to) {
        let to_balance = state.get_account_balance(to, asset);
        if to_balance > u128::MAX - amount {
            proof {
                let v1 = old(state)@.with_balance(from@, asset@, (from_balance - amount) as u128);
                assert(v1.balance(to@, asset@) == to_balance);
            }
            return Err(Error::BalanceOverflow);
        }
    }
    let r1 = state.decrease_balance(*from, *asset, amount);
    assert(r1 is Ok);
    let r2 = state.increase_balance(*to, *asset, amount);
    assert(r2 is Ok);
    Ok(())
}

} // verus!
