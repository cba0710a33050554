//! A range of positions, as in a text.

use vstd::prelude::*;
use vstd::string::StringSliceAdditionalSpecFns;
use vstd::utf8::encode_utf8_valid_utf8;
use vstd::utf8::is_char_boundary;
use vstd::utf8::is_char_boundary_iff_not_is_continuation_byte;
use vstd::utf8::is_char_boundary_start_end_of_seq;
use vstd::utf8::valid_utf8_split;

verus! {

/// The positions from `x0` up to, not including, `x1`.
#[derive(Debug, Clone, Copy, PartialEq, Eq, Structural)]
pub struct USpan {
    pub x0: usize,
    pub x1: usize,
}

impl USpan {
    /// Both ends are character boundaries of `s`, in order and inside it.
    pub open spec fn fits(self, s: &str) -> bool {
        &&& self.x0 <= self.x1 <= s.spec_bytes().len()
        &&& is_char_boundary(s.spec_bytes(), self.x0 as int)
        &&& is_char_boundary(s.spec_bytes(), self.x1 as int)
    }

    /// The number of positions.
    pub fn len(self) -> (n: usize)
        requires
            self.x0 <= self.x1,
        ensures
            n == self.x1 - self.x0,
    {
        self.x1 - self.x0
    }

    /// The part of `s` whose bytes stand at the positions of the span.
    pub fn substring<'a>(self, s: &'a str) -> (r: &'a str)
        requires
            self.fits(s),
        ensures
            r.spec_bytes() == s.spec_bytes().subrange(self.x0 as int, self.x1 as int),
    {
        let (head, _) = s.split_at(self.x1);
        proof {
            let bytes = s.spec_bytes();
            let front = head.spec_bytes();
            encode_utf8_valid_utf8(s@);
            encode_utf8_valid_utf8(head@);
            assert(front =~= bytes.subrange(0, self.x1 as int));
            if self.x0 < self.x1 {
                is_char_boundary_iff_not_is_continuation_byte(bytes, self.x0 as int);
                is_char_boundary_iff_not_is_continuation_byte(front, self.x0 as int);
            } else {
                is_char_boundary_start_end_of_seq(front);
            }
        }
        let (_, r) = head.split_at(self.x0);
        proof {
            assert(r.spec_bytes() =~= s.spec_bytes().subrange(self.x0 as int, self.x1 as int));
        }
        r
    }
}

impl Default for USpan {
    /// The empty span at position zero.
    fn default() -> (s: USpan)
        ensures
            s == (USpan { x0: 0, x1: 0 }),
    {
        USpan { x0: 0, x1: 0 }
    }
}

} // verus!
