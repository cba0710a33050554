//! A small integer hash.

use super::convert::i32_bits_to_u32;
use crate::linalg::ivec2::IVec2;
use crate::linalg::ivec3::IVec3;
use vstd::prelude::*;

verus! {

/// The hash of 32 bits: five rounds of shift and add, or shift and
/// exclusive or, all within 32 bits.
pub open spec fn hash_u32(x: u32) -> u32 {
    let a = x.wrapping_add(x << 10u32);
    let b = a ^ (a >> 6u32);
    let c = b.wrapping_add(b << 3u32);
    let d = c ^ (c >> 11u32);
    d.wrapping_add(d << 15u32)
}

/// The hash of a signed number: that of its 32 bits.
pub open spec fn hash_i32(x: i32) -> u32 {
    hash_u32(x as u32)
}

/// Values that hash to 32 bits.
pub trait Hash {
    /// The hash of the value.
    spec fn hash_spec(self) -> u32;

    /// The hash of the value.
    fn hash(self) -> (h: u32)
        ensures
            h == self.hash_spec(),
    ;
}

impl Hash for u32 {
    open spec fn hash_spec(self) -> u32 {
        hash_u32(self)
    }

    fn hash(self) -> (h: u32) {
        let a: u32 = self.wrapping_add(self << 10u32);
        let b: u32 = a ^ (a >> 6u32);
        let c: u32 = b.wrapping_add(b << 3u32);
        let d: u32 = c ^ (c >> 11u32);
        d.wrapping_add(d << 15u32)
    }
}

impl Hash for i32 {
    open spec fn hash_spec(self) -> u32 {
        hash_i32(self)
    }

    fn hash(self) -> (h: u32) {
        i32_bits_to_u32(self).hash()
    }
}

impl Hash for IVec2 {
    /// The low 32 bits of `x`, mixed with the hash of those of `y`, hashed.
    open spec fn hash_spec(self) -> u32 {
        hash_u32((self.x as i32) as u32 ^ hash_i32(self.y as i32))
    }

    fn hash(self) -> (h: u32) {
        let x: i32 = #[verifier::truncate]
        (self.x as i32);
        let y: i32 = #[verifier::truncate]
        (self.y as i32);
        (i32_bits_to_u32(x) ^ y.hash()).hash()
    }
}

impl Hash for IVec3 {
    /// The low 32 bits of `x`, mixed with the hashes of those of `y` and of
    /// `z`, hashed.
    open spec fn hash_spec(self) -> u32 {
        hash_u32((self.x as i32) as u32 ^ hash_i32(self.y as i32) ^ hash_i32(self.z as i32))
    }

    fn hash(self) -> (h: u32) {
        let x: i32 = #[verifier::truncate]
        (self.x as i32);
        let y: i32 = #[verifier::truncate]
        (self.y as i32);
        let z: i32 = #[verifier::truncate]
        (self.z as i32);
        (i32_bits_to_u32(x) ^ y.hash() ^ z.hash()).hash()
    }
}

} // verus!
