//! Pseudo-random choices: each is a function of its seed.

use super::hash::hash_u32;
use vstd::prelude::*;

verus! {

/// The number below `max` that a seed picks: its hash modulo `max`.
pub open spec fn pick_under(max: usize, seed: u32) -> int {
    hash_u32(seed) as int % max as int
}

/// A number below `max`.
pub fn rand_usize_under(max: usize, seed: u32) -> (r: usize)
    requires
        max > 0,
    ensures
        r == pick_under(max, seed),
        r < max,
{
    crate::noise::hash::Hash::hash(seed) as usize % max
}

/// A number from `min` up to, not including, `max`.
pub fn rand_usize_range(min: usize, max: usize, seed: u32) -> (r: usize)
    requires
        min < max,
    ensures
        r == min + pick_under((max - min) as usize, seed),
        min <= r < max,
{
    rand_usize_under(max - min, seed) + min
}

/// Takes one element out of `seq`, at the position that the seed picks
/// among those of `seq`; `None` where `seq` is empty.
pub fn pick_random<T>(seq: &mut Vec<T>, seed: u32) -> (r: Option<T>)
    ensures
        old(seq)@.len() == 0 ==> r is None && final(seq)@ == old(seq)@,
        old(seq)@.len() > 0 ==> r == Some(old(seq)@[pick_under(old(seq).len(), seed)])
            && final(seq)@ == old(seq)@.remove(pick_under(old(seq).len(), seed)),
{
    let n: usize = seq.len();
    if n == 0 {
        return None;
    }
    let i: usize = rand_usize_under(n, seed);
    Some(seq.remove(i))
}

/// Puts `element` into `seq`, at the position that the seed picks among
/// those of `seq` and the one behind its end.
pub fn insert_random<T>(seq: &mut Vec<T>, element: T, seed: u32)
    requires
        old(seq).len() < usize::MAX,
    ensures
        final(seq)@ == old(seq)@.insert(
            pick_under((old(seq).len() + 1) as usize, seed),
            element,
        ),
{
    let i: usize = rand_usize_under(seq.len() + 1, seed);
    seq.insert(i, element)
}

/// Heads or tails: whether the hash of the seed is even.
pub fn rand_bool(seed: u32) -> (r: bool)
    ensures
        r == (hash_u32(seed) % 2 == 0),
{
    crate::noise::hash::Hash::hash(seed) % 2 == 0
}

} // verus!
