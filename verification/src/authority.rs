//! Checks that a signer holds an authority.
use vstd::prelude::*;

use crate::error::Error;
use crate::map::KeyEq;
use crate::primitive::AddressBytes;
use crate::state::{SequencerState, StateView};

verus! {

/// The signer is the stored sudo address.
pub open spec fn spec_ensure_sudo(v: StateView, signer: Seq<u8>) -> Result<(), Error> {
    match v.sudo_address {
        None => Err(Error::SudoAddressNotFound),
        Some(s) => if s == signer {
            Ok(())
        } else {
            Err(Error::NotAuthorized)
        },
    }
}

/// The signer is the stored IBC sudo address.
pub open spec fn spec_ensure_ibc_sudo(v: StateView, signer: Seq<u8>) -> Result<(), Error> {
    match v.ibc_sudo_address {
        None => Err(Error::IbcSudoAddressNotFound),
        Some(s) => if s == signer {
            Ok(())
        } else {
            Err(Error::NotAuthorized)
        },
    }
}

/// Checks that the signer is the sudo address.
pub fn ensure_sudo(state: &SequencerState, signer: &AddressBytes) -> (r: Result<(), Error>)
    ensures
        r == spec_ensure_sudo(state@, signer@),
{
    match state.sudo_address() {
        None => Err(Error::SudoAddressNotFound),
        Some(s) => if s.key_eq(signer) {
            Ok(())
        } else {
            Err(Error::NotAuthorized)
        },
    }
}

/// Checks that the signer is the IBC sudo address.
pub fn ensure_ibc_sudo(state: &SequencerState, signer: &AddressBytes) -> (r: Result<(), Error>)
    ensures
        r == spec_ensure_ibc_sudo(state@, signer@),
{
    match state.ibc_sudo_address() {
        None => Err(Error::IbcSudoAddressNotFound),
        Some(s) => if s.key_eq(signer) {
            Ok(())
        } else {
            Err(Error::NotAuthorized)
        },
    }
}

} // verus!
