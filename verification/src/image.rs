//! Process image: an owned, fixed-size byte buffer with typed field access.
//!
//! A [`ProcessImage`] owns its buffer and carries the alignment mode chosen
//! for the whole image at construction.  Construction from a slice is checked
//! against the declared size and fails with a recoverable [`SizeMismatch`];
//! this is the only soft failure in the crate.  Field reads return decoded
//! values immediately; field writes go through the scoped accessors of
//! [`crate::access`], committed back into the image's buffer.

use vstd::prelude::*;

use crate::access::BitMut;
use crate::access::DWordMut;
use crate::access::LWordMut;
use crate::access::WordMut;
use crate::codec::bit_put;
use crate::codec::bit_read;
use crate::codec::dword_at;
use crate::codec::dword_put;
use crate::codec::lword_at;
use crate::codec::lword_put;
use crate::codec::offset_allowed;
use crate::codec::word_at;
use crate::codec::word_put;
use crate::codec::AlignMode;
use crate::tag;
use vstd::slice::slice_to_vec;

verus! {

/// Recoverable failure of [`ProcessImage::try_from_slice`]: the slice's
/// length does not equal the declared size of the process image.
#[derive(Clone, Copy, Debug, PartialEq, Eq, Structural)]
pub struct SizeMismatch {
    /// The declared size of the process image, in bytes.
    pub expected: usize,
    /// The length the given slice actually had.
    pub actual: usize,
}

/// An owned process-image buffer of fixed size, with one alignment mode for
/// every access made through it.
#[derive(Debug)]
pub struct ProcessImage {
    buf: Vec<u8>,
    mode: AlignMode,
}

impl ProcessImage {
    /// The bytes of the image.
    pub closed spec fn bytes(self) -> Seq<u8> {
        self.buf@
    }

    /// The alignment mode every multi-byte access through this image obeys.
    pub closed spec fn align_mode(self) -> AlignMode {
        self.mode
    }

    /// An image of `size` zero bytes.
    pub fn new_zeroed(size: usize, mode: AlignMode) -> (pi: Self)
        ensures
            pi.bytes().len() == size,
            forall|k: int| 0 <= k < size ==> pi.bytes()[k] == 0u8,
            pi.align_mode() == mode,
    {
        let mut buf: Vec<u8> = Vec::new();
        let mut i: usize = 0;
        while i < size
            invariant
                i <= size,
                buf@.len() == i,
                forall|k: int| 0 <= k < i ==> buf@[k] == 0u8,
            decreases size - i,
        {
            buf.push(0u8);
            i = i + 1;
        }
        ProcessImage { buf, mode }
    }

    /// An image owning a copy of `data`, declared to be exactly `size` bytes:
    /// succeeds if and only if `data` has that length, and fails with a
    /// [`SizeMismatch`] naming both lengths otherwise.
    pub fn try_from_slice(data: &[u8], size: usize, mode: AlignMode) -> (r: Result<
        Self,
        SizeMismatch,
    >)
        ensures
            match r {
                Ok(pi) => data@.len() == size && pi.bytes() == data@ && pi.align_mode() == mode,
                Err(e) => data@.len() != size && e.expected == size && e.actual == data@.len(),
            },
    {
        if data.len() == size {
            Ok(ProcessImage { buf: slice_to_vec(data), mode })
        } else {
            Err(SizeMismatch { expected: size, actual: data.len() })
        }
    }

    /// An image taking ownership of `buf`; construction from an owned buffer
    /// is infallible, its length being the image's size.
    pub fn from_vec(buf: Vec<u8>, mode: AlignMode) -> (pi: Self)
        ensures
            pi.bytes() == buf@,
            pi.align_mode() == mode,
    {
        ProcessImage { buf, mode }
    }

    /// Size of the image in bytes.
    pub fn len(&self) -> (n: usize)
        ensures
            n == self.bytes().len(),
    {
        self.buf.len()
    }

    /// The image's alignment mode.
    pub fn mode(&self) -> (m: AlignMode)
        ensures
            m == self.align_mode(),
    {
        self.mode
    }

    /// The image's bytes, read-only.
    pub fn buffer(&self) -> (r: &Vec<u8>)
        ensures
            r@ == self.bytes(),
    {
        &self.buf
    }

    /// Overwrite the whole image with `data`, which must have exactly the
    /// image's size.
    pub fn copy_from_slice(&mut self, data: &[u8])
        requires
            data@.len() == old(self).bytes().len(),
        ensures
            final(self).bytes() == data@,
            final(self).align_mode() == old(self).align_mode(),
    {
        self.buf = slice_to_vec(data);
    }

    /// Read the bit at `%X<byte_offset>.<bit_index>`.
    pub fn read_bit(&self, byte_offset: usize, bit_index: u8) -> (r: bool)
        requires
            byte_offset < self.bytes().len(),
            bit_index < 8,
        ensures
            r == bit_read(self.bytes()[byte_offset as int], bit_index),
    {
        tag::read_bit(&self.buf, byte_offset, bit_index)
    }

    /// Read the byte at `%B<byte_offset>`.
    pub fn read_u8(&self, byte_offset: usize) -> (r: u8)
        requires
            byte_offset < self.bytes().len(),
        ensures
            r == self.bytes()[byte_offset as int],
    {
        tag::read_u8(&self.buf, byte_offset)
    }

    /// Read the word at `%W<byte_offset>`, big-endian, under the image's
    /// alignment mode.
    pub fn read_u16(&self, byte_offset: usize) -> (r: u16)
        requires
            byte_offset + 2 <= self.bytes().len(),
            offset_allowed(self.align_mode(), 2, byte_offset as int),
        ensures
            r == word_at(self.bytes(), byte_offset as int),
    {
        tag::read_u16(&self.buf, byte_offset, self.mode)
    }

    /// Read the double word at `%D<byte_offset>`, big-endian, under the
    /// image's alignment mode.
    pub fn read_u32(&self, byte_offset: usize) -> (r: u32)
        requires
            byte_offset + 4 <= self.bytes().len(),
            offset_allowed(self.align_mode(), 4, byte_offset as int),
        ensures
            r == dword_at(self.bytes(), byte_offset as int),
    {
        tag::read_u32(&self.buf, byte_offset, self.mode)
    }

    /// Read the long word at `%L<byte_offset>`, big-endian, under the
    /// image's alignment mode.
    pub fn read_u64(&self, byte_offset: usize) -> (r: u64)
        requires
            byte_offset + 8 <= self.bytes().len(),
            offset_allowed(self.align_mode(), 8, byte_offset as int),
        ensures
            r == lword_at(self.bytes(), byte_offset as int),
    {
        tag::read_u64(&self.buf, byte_offset, self.mode)
    }

    /// Overwrite the byte at `%B<byte_offset>`; a byte is its own encoding.
    pub fn set_u8(&mut self, byte_offset: usize, value: u8)
        requires
            byte_offset < old(self).bytes().len(),
        ensures
            final(self).bytes() == old(self).bytes().update(byte_offset as int, value),
            final(self).align_mode() == old(self).align_mode(),
    {
        self.buf.set(byte_offset, value);
    }

    /// Scoped accessor for the bit at `%X<byte_offset>.<bit_index>`, to be
    /// committed with [`ProcessImage::commit_bit`].
    pub fn bit_mut(&self, byte_offset: usize, bit_index: u8) -> (a: BitMut)
        requires
            byte_offset < self.bytes().len(),
            bit_index < 8,
        ensures
            a.spec_offset() == byte_offset,
            a.spec_index() == bit_index,
            a.spec_value() == bit_read(self.bytes()[byte_offset as int], bit_index),
    {
        tag::write_bit(&self.buf, byte_offset, bit_index)
    }

    /// Scoped accessor for the word at `%W<byte_offset>`, to be committed
    /// with [`ProcessImage::commit_word`].
    pub fn word_mut(&self, byte_offset: usize) -> (a: WordMut)
        requires
            byte_offset + 2 <= self.bytes().len(),
            offset_allowed(self.align_mode(), 2, byte_offset as int),
        ensures
            a.spec_offset() == byte_offset,
            a.spec_value() == word_at(self.bytes(), byte_offset as int),
    {
        tag::write_u16(&self.buf, byte_offset, self.mode)
    }

    /// Scoped accessor for the double word at `%D<byte_offset>`, to be
    /// committed with [`ProcessImage::commit_dword`].
    pub fn dword_mut(&self, byte_offset: usize) -> (a: DWordMut)
        requires
            byte_offset + 4 <= self.bytes().len(),
            offset_allowed(self.align_mode(), 4, byte_offset as int),
        ensures
            a.spec_offset() == byte_offset,
            a.spec_value() == dword_at(self.bytes(), byte_offset as int),
    {
        tag::write_u32(&self.buf, byte_offset, self.mode)
    }

    /// Scoped accessor for the long word at `%L<byte_offset>`, to be
    /// committed with [`ProcessImage::commit_lword`].
    pub fn lword_mut(&self, byte_offset: usize) -> (a: LWordMut)
        requires
            byte_offset + 8 <= self.bytes().len(),
            offset_allowed(self.align_mode(), 8, byte_offset as int),
        ensures
            a.spec_offset() == byte_offset,
            a.spec_value() == lword_at(self.bytes(), byte_offset as int),
    {
        tag::write_u64(&self.buf, byte_offset, self.mode)
    }

    /// Commit a bit accessor into the image: the addressed bit becomes the
    /// accessor's held value, all other bits of its byte and all other bytes
    /// are unchanged.
    pub fn commit_bit(&mut self, a: BitMut)
        requires
            a.spec_offset() < old(self).bytes().len(),
            a.spec_index() < 8,
        ensures
            final(self).bytes() == bit_put(
                old(self).bytes(),
                a.spec_offset() as int,
                a.spec_index(),
                a.spec_value(),
            ),
            final(self).align_mode() == old(self).align_mode(),
    {
        a.commit(&mut self.buf);
    }

    /// Commit a word accessor into the image: the two addressed bytes hold
    /// the accessor's value big-endian, every other byte is unchanged.
    pub fn commit_word(&mut self, a: WordMut)
        requires
            a.spec_offset() + 2 <= old(self).bytes().len(),
        ensures
            final(self).bytes() == word_put(
                old(self).bytes(),
                a.spec_offset() as int,
                a.spec_value(),
            ),
            final(self).align_mode() == old(self).align_mode(),
    {
        a.commit(&mut self.buf);
    }

    /// Commit a double-word accessor into the image: the four addressed
    /// bytes hold the accessor's value big-endian, every other byte is
    /// unchanged.
    pub fn commit_dword(&mut self, a: DWordMut)
        requires
            a.spec_offset() + 4 <= old(self).bytes().len(),
        ensures
            final(self).bytes() == dword_put(
                old(self).bytes(),
                a.spec_offset() as int,
                a.spec_value(),
            ),
            final(self).align_mode() == old(self).align_mode(),
    {
        a.commit(&mut self.buf);
    }

    /// Commit a long-word accessor into the image: the eight addressed bytes
    /// hold the accessor's value big-endian, every other byte is unchanged.
    pub fn commit_lword(&mut self, a: LWordMut)
        requires
            a.spec_offset() + 8 <= old(self).bytes().len(),
        ensures
            final(self).bytes() == lword_put(
                old(self).bytes(),
                a.spec_offset() as int,
                a.spec_value(),
            ),
            final(self).align_mode() == old(self).align_mode(),
    {
        a.commit(&mut self.buf);
    }
}

} // verus!
