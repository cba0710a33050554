//! Reading the bits of one number type as another.

use vstd::prelude::*;

verus! {

/// The unsigned number with the same 32 bits.
pub fn i32_bits_to_u32(i: i32) -> (u: u32)
    ensures
        u == i as u32,
{
    #[verifier::truncate]
    (i as u32)
}

} // verus!
