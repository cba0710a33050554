//! Bounds-checked extraction of big-endian fields and variable-length
//! quantities from a byte buffer.
//!
//! Every reader takes the buffer and a read position. On success the position
//! moves past the field; on failure it stays where it was.

use vstd::prelude::*;

verus! {

/// Why a byte stream could not be decoded.
#[derive(Debug, Clone, Copy, PartialEq, Eq, Structural)]
pub enum DecodeError {
    /// Fewer bytes are available than a field, quantity or payload needs.
    TruncatedData,
    /// The header chunk does not start with its four-byte identifier.
    InvalidMagic,
    /// The payload of a text meta event is not valid UTF-8.
    InvalidUtf8,
    /// The status byte belongs to no recognised event.
    UnsupportedEvent,
}

/// The 16-bit big-endian number whose first byte is at `pos`.
pub open spec fn be_u16_at(bytes: Seq<u8>, pos: int) -> int {
    bytes[pos] * 0x100 + bytes[pos + 1]
}

/// The 24-bit big-endian number whose first byte is at `pos`.
pub open spec fn be_u24_at(bytes: Seq<u8>, pos: int) -> int {
    bytes[pos] * 0x1_0000 + bytes[pos + 1] * 0x100 + bytes[pos + 2]
}

/// The 32-bit big-endian number whose first byte is at `pos`.
pub open spec fn be_u32_at(bytes: Seq<u8>, pos: int) -> int {
    bytes[pos] * 0x100_0000 + bytes[pos + 1] * 0x1_0000 + bytes[pos + 2] * 0x100 + bytes[pos + 3]
}

/// Whether `n` bytes can be read at `pos`.
pub open spec fn has_bytes(bytes: Seq<u8>, pos: int, n: int) -> bool {
    0 <= pos && 0 <= n && pos + n <= bytes.len()
}

/// Reads one byte.
pub fn read_u8(bytes: &[u8], cursor: &mut usize) -> (r: Result<u8, DecodeError>)
    ensures
        match r {
            Ok(v) => {
                &&& has_bytes(bytes@, *old(cursor) as int, 1)
                &&& v == bytes@[*old(cursor) as int]
                &&& *final(cursor) == *old(cursor) + 1
            },
            Err(e) => {
                &&& !has_bytes(bytes@, *old(cursor) as int, 1)
                &&& e == DecodeError::TruncatedData
                &&& *final(cursor) == *old(cursor)
            },
        },
{
    if *cursor >= bytes.len() {
        return Err(DecodeError::TruncatedData);
    }
    let b: u8 = bytes[*cursor];
    *cursor = *cursor + 1;
    Ok(b)
}

/// Reads a 16-bit big-endian number.
pub fn read_be_u16(bytes: &[u8], cursor: &mut usize) -> (r: Result<u16, DecodeError>)
    ensures
        match r {
            Ok(v) => {
                &&& has_bytes(bytes@, *old(cursor) as int, 2)
                &&& v == be_u16_at(bytes@, *old(cursor) as int)
                &&& *final(cursor) == *old(cursor) + 2
            },
            Err(e) => {
                &&& !has_bytes(bytes@, *old(cursor) as int, 2)
                &&& e == DecodeError::TruncatedData
                &&& *final(cursor) == *old(cursor)
            },
        },
{
    let at: usize = *cursor;
    if at > bytes.len() || bytes.len() - at < 2 {
        return Err(DecodeError::TruncatedData);
    }
    let hi: u16 = bytes[at] as u16;
    let lo: u16 = bytes[at + 1] as u16;
    *cursor = at + 2;
    Ok(hi * 0x100 + lo)
}

/// Reads a 32-bit big-endian number.
pub fn read_be_u32(bytes: &[u8], cursor: &mut usize) -> (r: Result<u32, DecodeError>)
    ensures
        match r {
            Ok(v) => {
                &&& has_bytes(bytes@, *old(cursor) as int, 4)
                &&& v == be_u32_at(bytes@, *old(cursor) as int)
                &&& *final(cursor) == *old(cursor) + 4
            },
            Err(e) => {
                &&& !has_bytes(bytes@, *old(cursor) as int, 4)
                &&& e == DecodeError::TruncatedData
                &&& *final(cursor) == *old(cursor)
            },
        },
{
    let at: usize = *cursor;
    if at > bytes.len() || bytes.len() - at < 4 {
        return Err(DecodeError::TruncatedData);
    }
    let b0: u32 = bytes[at] as u32;
    let b1: u32 = bytes[at + 1] as u32;
    let b2: u32 = bytes[at + 2] as u32;
    let b3: u32 = bytes[at + 3] as u32;
    *cursor = at + 4;
    Ok(b0 * 0x100_0000 + b1 * 0x1_0000 + b2 * 0x100 + b3)
}

/// Reads `n` bytes into a vector of their own.
pub fn read_bytes(bytes: &[u8], cursor: &mut usize, n: usize) -> (r: Result<Vec<u8>, DecodeError>)
    ensures
        match r {
            Ok(v) => {
                &&& has_bytes(bytes@, *old(cursor) as int, n as int)
                &&& v@ == bytes@.subrange(*old(cursor) as int, *old(cursor) + n)
                &&& *final(cursor) == *old(cursor) + n
            },
            Err(e) => {
                &&& !has_bytes(bytes@, *old(cursor) as int, n as int)
                &&& e == DecodeError::TruncatedData
                &&& *final(cursor) == *old(cursor)
            },
        },
{
    let at: usize = *cursor;
    if at > bytes.len() || bytes.len() - at < n {
        return Err(DecodeError::TruncatedData);
    }
    let mut out: Vec<u8> = Vec::new();
    let mut i: usize = 0;
    while i < n
        invariant
            at + n <= bytes.len(),
            i <= n,
            out@ == bytes@.subrange(at as int, at + i),
        decreases n - i,
    {
        out.push(bytes[at + i]);
        i = i + 1;
        assert(out@ =~= bytes@.subrange(at as int, at + i));
    }
    *cursor = at + n;
    Ok(out)
}

/// One step of a variable-length quantity: the value so far moves up by
/// seven bits within the machine word, bits that leave the word being lost,
/// and the low seven bits of `byte` take the place that was freed.
pub open spec fn vlq_step(acc: usize, byte: u8) -> usize {
    acc.wrapping_mul(128).wrapping_add((byte % 128) as usize)
}

/// The variable-length quantity that continues at `pos` with the value `acc`
/// read so far: its value and the position behind its last byte, or `None`
/// where the buffer ends before a byte with a clear top bit.
pub open spec fn vlq_from(bytes: Seq<u8>, pos: int, acc: usize) -> Option<(usize, int)>
    decreases bytes.len() - pos,
{
    if 0 <= pos < bytes.len() {
        let value = vlq_step(acc, bytes[pos]);
        if bytes[pos] < 0x80 {
            Some((value, pos + 1))
        } else {
            vlq_from(bytes, pos + 1, value)
        }
    } else {
        None
    }
}

/// The variable-length quantity that starts at `pos`.
pub open spec fn vlq_at(bytes: Seq<u8>, pos: int) -> Option<(usize, int)> {
    vlq_from(bytes, pos, 0)
}

/// A quantity ends behind the position where it starts, inside the buffer.
pub proof fn lemma_vlq_advances(bytes: Seq<u8>, pos: int, acc: usize)
    ensures
        vlq_from(bytes, pos, acc) matches Some((_, next)) ==> pos < next <= bytes.len(),
    decreases bytes.len() - pos,
{
    if 0 <= pos < bytes.len() && bytes[pos] >= 0x80 {
        lemma_vlq_advances(bytes, pos + 1, vlq_step(acc, bytes[pos]));
    }
}

/// A quantity of one byte is that byte: every byte below 128 decodes to
/// itself and takes one position.
pub proof fn lemma_vlq_single_byte(bytes: Seq<u8>, pos: int)
    requires
        0 <= pos < bytes.len(),
        bytes[pos] < 0x80,
    ensures
        vlq_at(bytes, pos) == Some((bytes[pos] as usize, pos + 1)),
{
    assert((0nat * 128nat) % (usize::MAX as nat + 1) == 0) by (nonlinear_arith);
    assert(vlq_step(0, bytes[pos]) == bytes[pos]);
}

/// Where nothing leaves the machine word, a step is plain arithmetic: the
/// value so far times 128 plus the seven payload bits.
pub proof fn lemma_vlq_step_exact(acc: usize, byte: u8)
    requires
        acc * 128 + 127 <= usize::MAX,
    ensures
        vlq_step(acc, byte) == acc * 128 + byte % 128,
{
    assert((acc as nat * 128 as nat) % (usize::MAX as nat + 1) == acc * 128) by (nonlinear_arith)
        requires
            acc * 128 <= usize::MAX,
    ;
}

/// Reads one variable-length quantity.
pub fn read_var_len(bytes: &[u8], cursor: &mut usize) -> (r: Result<usize, DecodeError>)
    ensures
        match r {
            Ok(v) => vlq_at(bytes@, *old(cursor) as int) == Some((v, *final(cursor) as int)),
            Err(e) => vlq_at(bytes@, *old(cursor) as int).is_none() && e
                == DecodeError::TruncatedData && *final(cursor) == *old(cursor),
        },
{
    let mut at: usize = *cursor;
    let mut value: usize = 0;
    while at < bytes.len()
        invariant
            *old(cursor) <= at,
            *cursor == *old(cursor),
            vlq_at(bytes@, *old(cursor) as int) == vlq_from(bytes@, at as int, value),
        decreases bytes.len() - at,
    {
        let b: u8 = bytes[at];
        value = value.wrapping_mul(128).wrapping_add((b % 128) as usize);
        at = at + 1;
        if b < 0x80 {
            *cursor = at;
            return Ok(value);
        }
    }
    Err(DecodeError::TruncatedData)
}

} // verus!
