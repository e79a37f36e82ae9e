//! Fee arithmetic.
use vstd::prelude::*;

verus! {

/// The fee for `len` bytes of payload: `base_fee + fee_per_byte * len`.
pub open spec fn spec_fee(len: int, fee_per_byte: int, base_fee: int) -> int {
    base_fee + fee_per_byte * len
}

/// Calculates the fee for a sequence action from the length of its `data`.
/// Returns `None` if the fee overflows `u128`.
pub fn calculate_fee(data: &[u8], fee_per_byte: u128, base_fee: u128) -> (r: Option<u128>)
    ensures
        r == (if spec_fee(data@.len() as int, fee_per_byte as int, base_fee as int)
            <= u128::MAX {
            Some(spec_fee(data@.len() as int, fee_per_byte as int, base_fee as int) as u128)
        } else {
            None
        }),
{
    let len = data.len() as u128;
    proof {
        assert(0 <= fee_per_byte * len) by (nonlinear_arith);
    }
    match fee_per_byte.checked_mul(len) {
        Some(product) => base_fee.checked_add(product),
        None => None,
    }
}

} // verus!
