//! Scoped accessors: typed, mutable views of one field of a byte buffer.
//!
//! An accessor is constructed by decoding the field's current bytes, behaves
//! as a mutable cell of the decoded type while alive, and re-encodes the held
//! value into the buffer exactly once when [`BitMut::commit`] (or the
//! corresponding method of the other widths) is called — unconditionally,
//! even if the value was never changed.  The accessor records the field's
//! address; validation of the address (bounds, alignment) happens before
//! construction, and no accessor operation can fail.

use vstd::prelude::*;

use crate::codec::bit_put;
use crate::codec::bit_read;
use crate::codec::decode_bit;
use crate::codec::decode_dword;
use crate::codec::decode_lword;
use crate::codec::decode_word;
use crate::codec::dword_at;
use crate::codec::dword_put;
use crate::codec::encode_bit;
use crate::codec::encode_dword;
use crate::codec::encode_lword;
use crate::codec::encode_word;
use crate::codec::lword_at;
use crate::codec::lword_put;
use crate::codec::word_at;
use crate::codec::word_put;

verus! {

/// Mutable accessor for a single bit.
///
/// Holds the decoded bit value; `commit` performs a read-modify-write of the
/// single containing byte, leaving the other seven bits of that byte exactly
/// as they are in the buffer at commit time.
pub struct BitMut {
    offset: usize,
    index: u8,
    value: bool,
}

impl BitMut {
    /// Byte offset of the bit's containing byte.
    pub closed spec fn spec_offset(self) -> usize {
        self.offset
    }

    /// Index of the bit inside its byte (0 is least significant).
    pub closed spec fn spec_index(self) -> u8 {
        self.index
    }

    /// The held bit value.
    pub closed spec fn spec_value(self) -> bool {
        self.value
    }

    /// Decode bit `index` of the byte at `offset` and take it as the
    /// accessor's initial value.
    pub fn new(buf: &Vec<u8>, offset: usize, index: u8) -> (a: Self)
        requires
            offset < buf.len(),
            index < 8,
        ensures
            a.spec_offset() == offset,
            a.spec_index() == index,
            a.spec_value() == bit_read(buf@[offset as int], index),
    {
        let value = decode_bit(buf[offset], index);
        BitMut { offset, index, value }
    }

    /// The currently held value.
    pub fn get(&self) -> (v: bool)
        ensures
            v == self.spec_value(),
    {
        self.value
    }

    /// Overwrite the held value; the buffer is untouched until `commit`.
    pub fn set(&mut self, value: bool)
        ensures
            final(self).spec_value() == value,
            final(self).spec_offset() == old(self).spec_offset(),
            final(self).spec_index() == old(self).spec_index(),
    {
        self.value = value;
    }

    /// Write the held value back: bit `index` of the byte at `offset`
    /// becomes the held value, all other bits of that byte and all other
    /// bytes are unchanged.  Consumes the accessor, so the write-back
    /// happens exactly once.
    pub fn commit(self, buf: &mut Vec<u8>)
        requires
            self.spec_offset() < old(buf).len(),
            self.spec_index() < 8,
        ensures
            final(buf)@ == bit_put(
                old(buf)@,
                self.spec_offset() as int,
                self.spec_index(),
                self.spec_value(),
            ),
            final(buf)@.len() == old(buf)@.len(),
    {
        let byte = encode_bit(buf[self.offset], self.index, self.value);
        buf.set(self.offset, byte);
    }
}

/// Mutable accessor for a word (`u16`).
///
/// Holds the decoded value; `commit` re-encodes it big-endian into the
/// two-byte range it was constructed over.
pub struct WordMut {
    offset: usize,
    value: u16,
}

impl WordMut {
    /// Byte offset of the word's first (most significant) byte.
    pub closed spec fn spec_offset(self) -> usize {
        self.offset
    }

    /// The held word value.
    pub closed spec fn spec_value(self) -> u16 {
        self.value
    }

    /// Decode the word at `offset` and take it as the accessor's initial
    /// value.
    pub fn new(buf: &Vec<u8>, offset: usize) -> (a: Self)
        requires
            offset + 2 <= buf.len(),
        ensures
            a.spec_offset() == offset,
            a.spec_value() == word_at(buf@, offset as int),
    {
        let value = decode_word(buf, offset);
        WordMut { offset, value }
    }

    /// The currently held value.
    pub fn get(&self) -> (v: u16)
        ensures
            v == self.spec_value(),
    {
        self.value
    }

    /// Overwrite the held value; the buffer is untouched until `commit`.
    pub fn set(&mut self, value: u16)
        ensures
            final(self).spec_value() == value,
            final(self).spec_offset() == old(self).spec_offset(),
    {
        self.value = value;
    }

    /// Write the held value back into the two bytes at `offset`,
    /// big-endian, leaving every other byte unchanged.  Consumes the
    /// accessor, so the write-back happens exactly once.
    pub fn commit(self, buf: &mut Vec<u8>)
        requires
            self.spec_offset() + 2 <= old(buf).len(),
        ensures
            final(buf)@ == word_put(old(buf)@, self.spec_offset() as int, self.spec_value()),
            final(buf)@.len() == old(buf)@.len(),
    {
        encode_word(buf, self.offset, self.value);
    }
}

/// Mutable accessor for a double word (`u32`).
///
/// Holds the decoded value; `commit` re-encodes it big-endian into the
/// four-byte range it was constructed over.
pub struct DWordMut {
    offset: usize,
    value: u32,
}

impl DWordMut {
    /// Byte offset of the double word's first (most significant) byte.
    pub closed spec fn spec_offset(self) -> usize {
        self.offset
    }

    /// The held double-word value.
    pub closed spec fn spec_value(self) -> u32 {
        self.value
    }

    /// Decode the double word at `offset` and take it as the accessor's
    /// initial value.
    pub fn new(buf: &Vec<u8>, offset: usize) -> (a: Self)
        requires
            offset + 4 <= buf.len(),
        ensures
            a.spec_offset() == offset,
            a.spec_value() == dword_at(buf@, offset as int),
    {
        let value = decode_dword(buf, offset);
        DWordMut { offset, value }
    }

    /// The currently held value.
    pub fn get(&self) -> (v: u32)
        ensures
            v == self.spec_value(),
    {
        self.value
    }

    /// Overwrite the held value; the buffer is untouched until `commit`.
    pub fn set(&mut self, value: u32)
        ensures
            final(self).spec_value() == value,
            final(self).spec_offset() == old(self).spec_offset(),
    {
        self.value = value;
    }

    /// Write the held value back into the four bytes at `offset`,
    /// big-endian, leaving every other byte unchanged.  Consumes the
    /// accessor, so the write-back happens exactly once.
    pub fn commit(self, buf: &mut Vec<u8>)
        requires
            self.spec_offset() + 4 <= old(buf).len(),
        ensures
            final(buf)@ == dword_put(old(buf)@, self.spec_offset() as int, self.spec_value()),
            final(buf)@.len() == old(buf)@.len(),
    {
        encode_dword(buf, self.offset, self.value);
    }
}

/// Mutable accessor for a long word (`u64`).
///
/// Holds the decoded value; `commit` re-encodes it big-endian into the
/// eight-byte range it was constructed over.
pub struct LWordMut {
    offset: usize,
    value: u64,
}

impl LWordMut {
    /// Byte offset of the long word's first (most significant) byte.
    pub closed spec fn spec_offset(self) -> usize {
        self.offset
    }

    /// The held long-word value.
    pub closed spec fn spec_value(self) -> u64 {
        self.value
    }

    /// Decode the long word at `offset` and take it as the accessor's
    /// initial value.
    pub fn new(buf: &Vec<u8>, offset: usize) -> (a: Self)
        requires
            offset + 8 <= buf.len(),
        ensures
            a.spec_offset() == offset,
            a.spec_value() == lword_at(buf@, offset as int),
    {
        let value = decode_lword(buf, offset);
        LWordMut { offset, value }
    }

    /// The currently held value.
    pub fn get(&self) -> (v: u64)
        ensures
            v == self.spec_value(),
    {
        self.value
    }

    /// Overwrite the held value; the buffer is untouched until `commit`.
    pub fn set(&mut self, value: u64)
        ensures
            final(self).spec_value() == value,
            final(self).spec_offset() == old(self).spec_offset(),
    {
        self.value = value;
    }

    /// Write the held value back into the eight bytes at `offset`,
    /// big-endian, leaving every other byte unchanged.  Consumes the
    /// accessor, so the write-back happens exactly once.
    pub fn commit(self, buf: &mut Vec<u8>)
        requires
            self.spec_offset() + 8 <= old(buf).len(),
        ensures
            final(buf)@ == lword_put(old(buf)@, self.spec_offset() as int, self.spec_value()),
            final(buf)@.len() == old(buf)@.len(),
    {
        encode_lword(buf, self.offset, self.value);
    }
}

} // verus!
