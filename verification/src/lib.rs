//! Symbolic, typed access to fields packed inside a fixed-size byte buffer
//! (a controller's *process image*).
//!
//! A process image is a snapshot of everything a controller knows about the
//! system it drives: inputs, outputs and internal state, packed into one
//! fixed-size chunk of memory.  Fields inside it are addressed by absolute
//! byte offset (plus a bit offset for single bits) and come in five widths:
//! bit, byte, word (`u16`), double word (`u32`) and long word (`u64`).
//!
//! The crate is split into four layers:
//!
//! - [`codec`]: pure conversions between byte ranges and unsigned integers
//!   (big-endian throughout), bit-level read and write on a single byte, and
//!   the alignment policy for multi-byte fields.
//! - [`access`]: scoped accessors, one per width.  An accessor decodes the
//!   current value on construction, behaves as a mutable cell while alive,
//!   and re-encodes the held value into the buffer exactly once when it is
//!   committed.
//! - [`tag`]: direct, one-shot addressing of a buffer: read a value at an
//!   absolute address, or obtain a scoped accessor for writing.
//! - [`image`]: a process-image wrapper owning a buffer of a declared size,
//!   with checked construction from slices and per-width field access.
//!
//! All multi-byte values are encoded and decoded in big-endian (MSB-first)
//! byte order, uniformly across every width and every layer.
//!
//! Word, double-word and long-word addresses must be aligned to the width of
//! the type unless the relaxed alignment mode is selected.  The mode is a
//! single configuration value threaded through the addressing layer, never a
//! per-call choice.

pub mod access;
pub mod codec;
pub mod image;
pub mod tag;

pub use access::BitMut;
pub use access::DWordMut;
pub use access::LWordMut;
pub use access::WordMut;
