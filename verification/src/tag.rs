//! Direct tag addressing: one-shot reads and write accessors keyed by an
//! absolute address, in the style of IEC 61131-3 addressing
//! (`%<area><type><byte>[.<bit>]`, e.g. `%IX0.4`, `%QW2`).
//!
//! Reads return the decoded value immediately.  Writes of a bit, word,
//! double word or long word return the matching scoped accessor; a byte is
//! its own encoding, so a byte write hands out a direct mutable reference.
//! Word, double-word and long-word addresses are subject to the alignment
//! mode; an address outside the buffer is a caller contract violation, not a
//! recoverable error.

use vstd::prelude::*;

use crate::access::BitMut;
use crate::access::DWordMut;
use crate::access::LWordMut;
use crate::access::WordMut;
use crate::codec::bit_read;
use crate::codec::decode_bit;
use crate::codec::decode_dword;
use crate::codec::decode_lword;
use crate::codec::decode_word;
use crate::codec::dword_at;
use crate::codec::lword_at;
use crate::codec::offset_allowed;
use crate::codec::word_at;
use crate::codec::AlignMode;

verus! {

/// Read the bit at `%X<byte_offset>.<bit_index>`.
pub fn read_bit(buf: &Vec<u8>, byte_offset: usize, bit_index: u8) -> (r: bool)
    requires
        byte_offset < buf.len(),
        bit_index < 8,
    ensures
        r == bit_read(buf@[byte_offset as int], bit_index),
{
    decode_bit(buf[byte_offset], bit_index)
}

/// Read the byte at `%B<byte_offset>`.
pub fn read_u8(buf: &Vec<u8>, byte_offset: usize) -> (r: u8)
    requires
        byte_offset < buf.len(),
    ensures
        r == buf@[byte_offset as int],
{
    buf[byte_offset]
}

/// Read the word at `%W<byte_offset>`, big-endian.
pub fn read_u16(buf: &Vec<u8>, byte_offset: usize, mode: AlignMode) -> (r: u16)
    requires
        byte_offset + 2 <= buf.len(),
        offset_allowed(mode, 2, byte_offset as int),
    ensures
        r == word_at(buf@, byte_offset as int),
{
    decode_word(buf, byte_offset)
}

/// Read the double word at `%D<byte_offset>`, big-endian.
pub fn read_u32(buf: &Vec<u8>, byte_offset: usize, mode: AlignMode) -> (r: u32)
    requires
        byte_offset + 4 <= buf.len(),
        offset_allowed(mode, 4, byte_offset as int),
    ensures
        r == dword_at(buf@, byte_offset as int),
{
    decode_dword(buf, byte_offset)
}

/// Read the long word at `%L<byte_offset>`, big-endian.
pub fn read_u64(buf: &Vec<u8>, byte_offset: usize, mode: AlignMode) -> (r: u64)
    requires
        byte_offset + 8 <= buf.len(),
        offset_allowed(mode, 8, byte_offset as int),
    ensures
        r == lword_at(buf@, byte_offset as int),
{
    decode_lword(buf, byte_offset)
}

/// Scoped accessor for the bit at `%X<byte_offset>.<bit_index>`, initialised
/// with the bit's current value.
pub fn write_bit(buf: &Vec<u8>, byte_offset: usize, bit_index: u8) -> (a: BitMut)
    requires
        byte_offset < buf.len(),
        bit_index < 8,
    ensures
        a.spec_offset() == byte_offset,
        a.spec_index() == bit_index,
        a.spec_value() == bit_read(buf@[byte_offset as int], bit_index),
{
    BitMut::new(buf, byte_offset, bit_index)
}

/// Direct mutable reference to the byte at `%B<byte_offset>`; a byte is its
/// own encoding, so no accessor is needed.
pub fn write_u8(buf: &mut Vec<u8>, byte_offset: usize) -> (r: &mut u8)
    requires
        byte_offset < old(buf).len(),
    ensures
        *r == old(buf)@[byte_offset as int],
        final(buf)@ == old(buf)@.update(byte_offset as int, *final(r)),
{
    &mut buf[byte_offset]
}

/// Scoped accessor for the word at `%W<byte_offset>`, initialised with the
/// word's current value.
pub fn write_u16(buf: &Vec<u8>, byte_offset: usize, mode: AlignMode) -> (a: WordMut)
    requires
        byte_offset + 2 <= buf.len(),
        offset_allowed(mode, 2, byte_offset as int),
    ensures
        a.spec_offset() == byte_offset,
        a.spec_value() == word_at(buf@, byte_offset as int),
{
    WordMut::new(buf, byte_offset)
}

/// Scoped accessor for the double word at `%D<byte_offset>`, initialised
/// with the double word's current value.
pub fn write_u32(buf: &Vec<u8>, byte_offset: usize, mode: AlignMode) -> (a: DWordMut)
    requires
        byte_offset + 4 <= buf.len(),
        offset_allowed(mode, 4, byte_offset as int),
    ensures
        a.spec_offset() == byte_offset,
        a.spec_value() == dword_at(buf@, byte_offset as int),
{
    DWordMut::new(buf, byte_offset)
}

/// Scoped accessor for the long word at `%L<byte_offset>`, initialised with
/// the long word's current value.
pub fn write_u64(buf: &Vec<u8>, byte_offset: usize, mode: AlignMode) -> (a: LWordMut)
    requires
        byte_offset + 8 <= buf.len(),
        offset_allowed(mode, 8, byte_offset as int),
    ensures
        a.spec_offset() == byte_offset,
        a.spec_value() == lword_at(buf@, byte_offset as int),
{
    LWordMut::new(buf, byte_offset)
}

} // verus!
