//! Field codec: pure conversions between byte ranges and unsigned integers,
//! bit-level read and write on a single byte, and the alignment policy.
//!
//! All multi-byte conversions use big-endian (MSB-first) byte order.

use vstd::prelude::*;

verus! {

/// Alignment policy for multi-byte fields.
///
/// Under [`AlignMode::Strict`] the byte offset of a width-`W` field must be
/// divisible by `W`; under [`AlignMode::Relaxed`] any offset is accepted.
/// The mode is a single configuration value for a whole buffer or call
/// chain, never a per-access choice.
#[derive(Clone, Copy, Debug, PartialEq, Eq, Structural)]
pub enum AlignMode {
    Strict,
    Relaxed,
}

/// Whether a field of width `width` bytes may start at byte offset `offset`
/// under alignment mode `mode`.
pub open spec fn offset_allowed(mode: AlignMode, width: int, offset: int) -> bool
    recommends
        width > 0,
{
    mode == AlignMode::Relaxed || offset % width == 0
}

/// Alignment guard: true exactly when `offset` is an acceptable start for a
/// field of `width` bytes under `mode`.
pub fn alignment_ok(mode: AlignMode, width: usize, offset: usize) -> (r: bool)
    requires
        width >= 1,
    ensures
        r == offset_allowed(mode, width as int, offset as int),
{
    match mode {
        AlignMode::Relaxed => true,
        AlignMode::Strict => offset % width == 0,
    }
}

/// The alignment policy in one statement: relaxed mode accepts every offset,
/// strict mode accepts exactly the offsets divisible by the field width.
pub proof fn lemma_alignment_policy(mode: AlignMode, width: int, offset: int)
    ensures
        mode == AlignMode::Relaxed ==> offset_allowed(mode, width, offset),
        mode == AlignMode::Strict ==> (offset_allowed(mode, width, offset) <==> offset % width
            == 0),
{
}

/// Value of bit `index` of `byte`.
pub open spec fn bit_read(byte: u8, index: u8) -> bool
    recommends
        index < 8,
{
    byte & (1u8 << index) != 0
}

/// `byte` with bit `index` set to `value` and all other bits unchanged.
pub open spec fn bit_write(byte: u8, index: u8, value: bool) -> u8
    recommends
        index < 8,
{
    if value {
        byte | (1u8 << index)
    } else {
        byte & !(1u8 << index)
    }
}

/// Decode a single bit: true iff bit `index` of `byte` is set.
pub fn decode_bit(byte: u8, index: u8) -> (r: bool)
    requires
        index < 8,
    ensures
        r == bit_read(byte, index),
{
    byte & (1u8 << index) != 0
}

/// Encode a single bit: clear bit `index` of `byte`, then set it if `value`
/// is true.  All other bits of `byte` are preserved exactly.
pub fn encode_bit(byte: u8, index: u8, value: bool) -> (r: u8)
    requires
        index < 8,
    ensures
        r == bit_write(byte, index, value),
{
    if value {
        byte | (1u8 << index)
    } else {
        byte & !(1u8 << index)
    }
}

/// Round trip for bits: writing `value` at bit `index` and reading the same
/// bit back yields `value`, for every starting byte.
pub proof fn lemma_bit_round_trip(byte: u8, index: u8, value: bool)
    requires
        index < 8,
    ensures
        bit_read(bit_write(byte, index, value), index) == value,
{
    if value {
        assert((byte | (1u8 << index)) & (1u8 << index) != 0) by (bit_vector)
            requires
                index < 8,
        ;
    } else {
        assert((byte & !(1u8 << index)) & (1u8 << index) == 0) by (bit_vector)
            requires
                index < 8,
        ;
    }
}

/// Bit isolation: writing bit `index` leaves every other bit of the byte
/// unchanged, for every starting byte and every pair of distinct indices.
pub proof fn lemma_bit_isolation(byte: u8, index: u8, other: u8, value: bool)
    requires
        index < 8,
        other < 8,
        other != index,
    ensures
        bit_read(bit_write(byte, index, value), other) == bit_read(byte, other),
{
    if value {
        assert(((byte | (1u8 << index)) & (1u8 << other) != 0) == (byte & (1u8 << other) != 0))
            by (bit_vector)
            requires
                index < 8,
                other < 8,
                other != index,
        ;
    } else {
        assert(((byte & !(1u8 << index)) & (1u8 << other) != 0) == (byte & (1u8 << other) != 0))
            by (bit_vector)
            requires
                index < 8,
                other < 8,
                other != index,
        ;
    }
}

/// Big-endian value of the two bytes `b0 b1` (`b0` is the most significant).
pub open spec fn word_from_bytes(b0: u8, b1: u8) -> u16 {
    ((b0 as int) * 0x100 + (b1 as int)) as u16
}

/// Most significant byte of a word.
pub open spec fn word_byte0(v: u16) -> u8 {
    (v as int / 0x100) as u8
}

/// Least significant byte of a word.
pub open spec fn word_byte1(v: u16) -> u8 {
    (v as int % 0x100) as u8
}

/// Big-endian value of the four bytes `b0 .. b3` (`b0` most significant).
pub open spec fn dword_from_bytes(b0: u8, b1: u8, b2: u8, b3: u8) -> u32 {
    ((b0 as int) * 0x100_0000 + (b1 as int) * 0x1_0000 + (b2 as int) * 0x100 + (b3 as int)) as u32
}

/// Byte 0 (most significant) of a double word.
pub open spec fn dword_byte0(v: u32) -> u8 {
    (v as int / 0x100_0000) as u8
}

/// Byte 1 of a double word.
pub open spec fn dword_byte1(v: u32) -> u8 {
    ((v as int / 0x1_0000) % 0x100) as u8
}

/// Byte 2 of a double word.
pub open spec fn dword_byte2(v: u32) -> u8 {
    ((v as int / 0x100) % 0x100) as u8
}

/// Byte 3 (least significant) of a double word.
pub open spec fn dword_byte3(v: u32) -> u8 {
    (v as int % 0x100) as u8
}

/// Big-endian value of the eight bytes `b0 .. b7` (`b0` most significant).
pub open spec fn lword_from_bytes(
    b0: u8,
    b1: u8,
    b2: u8,
    b3: u8,
    b4: u8,
    b5: u8,
    b6: u8,
    b7: u8,
) -> u64 {
    ((b0 as int) * 0x100_0000_0000_0000 + (b1 as int) * 0x1_0000_0000_0000 + (b2 as int)
        * 0x100_0000_0000 + (b3 as int) * 0x1_0000_0000 + (b4 as int) * 0x100_0000 + (b5 as int)
        * 0x1_0000 + (b6 as int) * 0x100 + (b7 as int)) as u64
}

/// Byte 0 (most significant) of a long word.
pub open spec fn lword_byte0(v: u64) -> u8 {
    (v as int / 0x100_0000_0000_0000) as u8
}

/// Byte 1 of a long word.
pub open spec fn lword_byte1(v: u64) -> u8 {
    ((v as int / 0x1_0000_0000_0000) % 0x100) as u8
}

/// Byte 2 of a long word.
pub open spec fn lword_byte2(v: u64) -> u8 {
    ((v as int / 0x100_0000_0000) % 0x100) as u8
}

/// Byte 3 of a long word.
pub open spec fn lword_byte3(v: u64) -> u8 {
    ((v as int / 0x1_0000_0000) % 0x100) as u8
}

/// Byte 4 of a long word.
pub open spec fn lword_byte4(v: u64) -> u8 {
    ((v as int / 0x100_0000) % 0x100) as u8
}

/// Byte 5 of a long word.
pub open spec fn lword_byte5(v: u64) -> u8 {
    ((v as int / 0x1_0000) % 0x100) as u8
}

/// Byte 6 of a long word.
pub open spec fn lword_byte6(v: u64) -> u8 {
    ((v as int / 0x100) % 0x100) as u8
}

/// Byte 7 (least significant) of a long word.
pub open spec fn lword_byte7(v: u64) -> u8 {
    (v as int % 0x100) as u8
}

/// Round trip for words: reassembling the two bytes of `v` yields `v`.
pub proof fn lemma_word_round_trip(v: u16)
    ensures
        word_from_bytes(word_byte0(v), word_byte1(v)) == v,
{
    assert(word_from_bytes(word_byte0(v), word_byte1(v)) == v) by (bit_vector);
}

/// Round trip for double words: reassembling the four bytes of `v` yields `v`.
pub proof fn lemma_dword_round_trip(v: u32)
    ensures
        dword_from_bytes(dword_byte0(v), dword_byte1(v), dword_byte2(v), dword_byte3(v)) == v,
{
    assert(dword_from_bytes(dword_byte0(v), dword_byte1(v), dword_byte2(v), dword_byte3(v)) == v)
        by (bit_vector);
}

/// Round trip for long words: reassembling the eight bytes of `v` yields `v`.
pub proof fn lemma_lword_round_trip(v: u64)
    ensures
        lword_from_bytes(
            lword_byte0(v),
            lword_byte1(v),
            lword_byte2(v),
            lword_byte3(v),
            lword_byte4(v),
            lword_byte5(v),
            lword_byte6(v),
            lword_byte7(v),
        ) == v,
{
    assert(lword_from_bytes(
        lword_byte0(v),
        lword_byte1(v),
        lword_byte2(v),
        lword_byte3(v),
        lword_byte4(v),
        lword_byte5(v),
        lword_byte6(v),
        lword_byte7(v),
    ) == v) by (bit_vector);
}

/// Word decoded from `s` at byte offset `off`.
pub open spec fn word_at(s: Seq<u8>, off: int) -> u16
    recommends
        0 <= off,
        off + 2 <= s.len(),
{
    word_from_bytes(s[off], s[off + 1])
}

/// Double word decoded from `s` at byte offset `off`.
pub open spec fn dword_at(s: Seq<u8>, off: int) -> u32
    recommends
        0 <= off,
        off + 4 <= s.len(),
{
    dword_from_bytes(s[off], s[off + 1], s[off + 2], s[off + 3])
}

/// Long word decoded from `s` at byte offset `off`.
pub open spec fn lword_at(s: Seq<u8>, off: int) -> u64
    recommends
        0 <= off,
        off + 8 <= s.len(),
{
    lword_from_bytes(
        s[off],
        s[off + 1],
        s[off + 2],
        s[off + 3],
        s[off + 4],
        s[off + 5],
        s[off + 6],
        s[off + 7],
    )
}

/// `s` with bit `index` of the byte at `off` set to `value`; every other bit
/// of that byte and every other byte unchanged.
pub open spec fn bit_put(s: Seq<u8>, off: int, index: u8, value: bool) -> Seq<u8>
    recommends
        0 <= off < s.len(),
        index < 8,
{
    s.update(off, bit_write(s[off], index, value))
}

/// `s` with the word `v` encoded big-endian at byte offset `off`.
pub open spec fn word_put(s: Seq<u8>, off: int, v: u16) -> Seq<u8>
    recommends
        0 <= off,
        off + 2 <= s.len(),
{
    s.update(off, word_byte0(v)).update(off + 1, word_byte1(v))
}

/// `s` with the double word `v` encoded big-endian at byte offset `off`.
pub open spec fn dword_put(s: Seq<u8>, off: int, v: u32) -> Seq<u8>
    recommends
        0 <= off,
        off + 4 <= s.len(),
{
    s.update(off, dword_byte0(v)).update(off + 1, dword_byte1(v)).update(
        off + 2,
        dword_byte2(v),
    ).update(off + 3, dword_byte3(v))
}

/// `s` with the long word `v` encoded big-endian at byte offset `off`.
pub open spec fn lword_put(s: Seq<u8>, off: int, v: u64) -> Seq<u8>
    recommends
        0 <= off,
        off + 8 <= s.len(),
{
    s.update(off, lword_byte0(v)).update(off + 1, lword_byte1(v)).update(
        off + 2,
        lword_byte2(v),
    ).update(off + 3, lword_byte3(v)).update(off + 4, lword_byte4(v)).update(
        off + 5,
        lword_byte5(v),
    ).update(off + 6, lword_byte6(v)).update(off + 7, lword_byte7(v))
}

/// Decode the word stored big-endian in `buf` at byte offset `offset`.
pub fn decode_word(buf: &Vec<u8>, offset: usize) -> (r: u16)
    requires
        offset + 2 <= buf.len(),
    ensures
        r == word_at(buf@, offset as int),
{
    let b0 = buf[offset];
    let b1 = buf[offset + 1];
    (b0 as u16) * 0x100 + (b1 as u16)
}

/// Decode the double word stored big-endian in `buf` at byte offset `offset`.
pub fn decode_dword(buf: &Vec<u8>, offset: usize) -> (r: u32)
    requires
        offset + 4 <= buf.len(),
    ensures
        r == dword_at(buf@, offset as int),
{
    let b0 = buf[offset];
    let b1 = buf[offset + 1];
    let b2 = buf[offset + 2];
    let b3 = buf[offset + 3];
    (b0 as u32) * 0x100_0000 + (b1 as u32) * 0x1_0000 + (b2 as u32) * 0x100 + (b3 as u32)
}

/// Decode the long word stored big-endian in `buf` at byte offset `offset`.
pub fn decode_lword(buf: &Vec<u8>, offset: usize) -> (r: u64)
    requires
        offset + 8 <= buf.len(),
    ensures
        r == lword_at(buf@, offset as int),
{
    let b0 = buf[offset];
    let b1 = buf[offset + 1];
    let b2 = buf[offset + 2];
    let b3 = buf[offset + 3];
    let b4 = buf[offset + 4];
    let b5 = buf[offset + 5];
    let b6 = buf[offset + 6];
    let b7 = buf[offset + 7];
    (b0 as u64) * 0x100_0000_0000_0000 + (b1 as u64) * 0x1_0000_0000_0000 + (b2 as u64)
        * 0x100_0000_0000 + (b3 as u64) * 0x1_0000_0000 + (b4 as u64) * 0x100_0000 + (b5 as u64)
        * 0x1_0000 + (b6 as u64) * 0x100 + (b7 as u64)
}

/// Encode `value` big-endian into `buf` at byte offset `offset`, leaving
/// every byte outside the two-byte range unchanged.
pub fn encode_word(buf: &mut Vec<u8>, offset: usize, value: u16)
    requires
        offset + 2 <= old(buf).len(),
    ensures
        final(buf)@ == word_put(old(buf)@, offset as int, value),
        final(buf)@.len() == old(buf)@.len(),
{
    let b0 = (value / 0x100) as u8;
    let b1 = (value % 0x100) as u8;
    buf.set(offset, b0);
    buf.set(offset + 1, b1);
}

/// Encode `value` big-endian into `buf` at byte offset `offset`, leaving
/// every byte outside the four-byte range unchanged.
pub fn encode_dword(buf: &mut Vec<u8>, offset: usize, value: u32)
    requires
        offset + 4 <= old(buf).len(),
    ensures
        final(buf)@ == dword_put(old(buf)@, offset as int, value),
        final(buf)@.len() == old(buf)@.len(),
{
    let b0 = (value / 0x100_0000) as u8;
    let b1 = ((value / 0x1_0000) % 0x100) as u8;
    let b2 = ((value / 0x100) % 0x100) as u8;
    let b3 = (value % 0x100) as u8;
    buf.set(offset, b0);
    buf.set(offset + 1, b1);
    buf.set(offset + 2, b2);
    buf.set(offset + 3, b3);
}

/// Encode `value` big-endian into `buf` at byte offset `offset`, leaving
/// every byte outside the eight-byte range unchanged.
pub fn encode_lword(buf: &mut Vec<u8>, offset: usize, value: u64)
    requires
        offset + 8 <= old(buf).len(),
    ensures
        final(buf)@ == lword_put(old(buf)@, offset as int, value),
        final(buf)@.len() == old(buf)@.len(),
{
    let b0 = (value / 0x100_0000_0000_0000) as u8;
    let b1 = ((value / 0x1_0000_0000_0000) % 0x100) as u8;
    let b2 = ((value / 0x100_0000_0000) % 0x100) as u8;
    let b3 = ((value / 0x1_0000_0000) % 0x100) as u8;
    let b4 = ((value / 0x100_0000) % 0x100) as u8;
    let b5 = ((value / 0x1_0000) % 0x100) as u8;
    let b6 = ((value / 0x100) % 0x100) as u8;
    let b7 = (value % 0x100) as u8;
    buf.set(offset, b0);
    buf.set(offset + 1, b1);
    buf.set(offset + 2, b2);
    buf.set(offset + 3, b3);
    buf.set(offset + 4, b4);
    buf.set(offset + 5, b5);
    buf.set(offset + 6, b6);
    buf.set(offset + 7, b7);
}

/// Committing a bit: after `bit_put`, bit `index` of the byte at `off` holds
/// exactly `value`, the other seven bits of that byte are unchanged, and
/// every other byte of the buffer is unchanged.
pub proof fn lemma_bit_put_effect(s: Seq<u8>, off: int, index: u8, value: bool)
    requires
        0 <= off < s.len(),
        index < 8,
    ensures
        bit_put(s, off, index, value).len() == s.len(),
        bit_read(bit_put(s, off, index, value)[off], index) == value,
        forall|j: u8|
            j < 8 && j != index ==> bit_read(bit_put(s, off, index, value)[off], j) == bit_read(
                s[off],
                j,
            ),
        forall|k: int| 0 <= k < s.len() && k != off ==> bit_put(s, off, index, value)[k] == s[k],
{
    lemma_bit_round_trip(s[off], index, value);
    assert forall|j: u8| j < 8 && j != index implies bit_read(
        bit_put(s, off, index, value)[off],
        j,
    ) == bit_read(s[off], j) by {
        lemma_bit_isolation(s[off], index, j, value);
    }
}

/// Committing a word: after `word_put`, the word decoded at `off` is exactly
/// `v`, and every byte outside the two-byte range is unchanged.
pub proof fn lemma_word_put_effect(s: Seq<u8>, off: int, v: u16)
    requires
        0 <= off,
        off + 2 <= s.len(),
    ensures
        word_put(s, off, v).len() == s.len(),
        word_at(word_put(s, off, v), off) == v,
        forall|k: int|
            0 <= k < s.len() && !(off <= k < off + 2) ==> word_put(s, off, v)[k] == s[k],
{
    lemma_word_round_trip(v);
}

/// Committing a double word: after `dword_put`, the double word decoded at
/// `off` is exactly `v`, and every byte outside the four-byte range is
/// unchanged.
pub proof fn lemma_dword_put_effect(s: Seq<u8>, off: int, v: u32)
    requires
        0 <= off,
        off + 4 <= s.len(),
    ensures
        dword_put(s, off, v).len() == s.len(),
        dword_at(dword_put(s, off, v), off) == v,
        forall|k: int|
            0 <= k < s.len() && !(off <= k < off + 4) ==> dword_put(s, off, v)[k] == s[k],
{
    lemma_dword_round_trip(v);
}

/// Committing a long word: after `lword_put`, the long word decoded at `off`
/// is exactly `v`, and every byte outside the eight-byte range is unchanged.
pub proof fn lemma_lword_put_effect(s: Seq<u8>, off: int, v: u64)
    requires
        0 <= off,
        off + 8 <= s.len(),
    ensures
        lword_put(s, off, v).len() == s.len(),
        lword_at(lword_put(s, off, v), off) == v,
        forall|k: int|
            0 <= k < s.len() && !(off <= k < off + 8) ==> lword_put(s, off, v)[k] == s[k],
{
    lemma_lword_round_trip(v);
}

} // verus!
