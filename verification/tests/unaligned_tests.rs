//! Unaligned addressing under the relaxed alignment mode: every access
//! succeeds and decodes or encodes the bytes at the exact offset given.

use process_image::codec::alignment_ok;
use process_image::codec::AlignMode;
use process_image::image::ProcessImage;
use process_image::tag;

#[test]
fn test_unaligned_word_tag() {
    let buf: Vec<u8> = vec![
        0xde, 0xad, 0xbe, 0xef, 0xde, 0xad, 0xbe, 0xef, 0xde, 0xad, 0xbe, 0xef,
    ];
    assert_eq!(tag::read_u16(&buf, 1, AlignMode::Relaxed), 0xadbe);
}

#[test]
fn test_unaligned_word_tag_mut() {
    let mut buf: Vec<u8> = vec![
        0xde, 0xad, 0xbe, 0xef, 0xde, 0xad, 0xbe, 0xef, 0xde, 0xad, 0xbe, 0xef,
    ];
    let mut w = tag::write_u16(&buf, 1, AlignMode::Relaxed);
    w.set(0xcafe);
    w.commit(&mut buf);
    assert_eq!(tag::read_u16(&buf, 1, AlignMode::Relaxed), 0xcafe);
}

#[test]
fn test_unaligned_word() {
    let data: Vec<u8> = vec![
        0xde, 0xad, 0xbe, 0xef, 0xde, 0xad, 0xbe, 0xef, 0xde, 0xad, 0xbe, 0xef,
    ];
    let pi = ProcessImage::try_from_slice(&data, 12, AlignMode::Relaxed).unwrap();
    assert_eq!(pi.read_u16(1), 0xadbe);
}

#[test]
fn test_unaligned_word_mut() {
    let data: Vec<u8> = vec![
        0xde, 0xad, 0xbe, 0xef, 0xde, 0xad, 0xbe, 0xef, 0xde, 0xad, 0xbe, 0xef,
    ];
    let mut pi = ProcessImage::try_from_slice(&data, 12, AlignMode::Relaxed).unwrap();
    let mut w = pi.word_mut(1);
    w.set(0xcafe);
    pi.commit_word(w);
    assert_eq!(pi.read_u16(1), 0xcafe);
}

#[test]
fn test_unaligned_dword() {
    let data: Vec<u8> = vec![
        0xde, 0xad, 0xbe, 0xef, 0xde, 0xad, 0xbe, 0xef, 0xde, 0xad, 0xbe, 0xef,
    ];
    let pi = ProcessImage::try_from_slice(&data, 12, AlignMode::Relaxed).unwrap();
    assert_eq!(pi.read_u32(2), 0xbeefdead);
}

#[test]
fn test_unaligned_dword_mut() {
    let data: Vec<u8> = vec![
        0xde, 0xad, 0xbe, 0xef, 0xde, 0xad, 0xbe, 0xef, 0xde, 0xad, 0xbe, 0xef,
    ];
    let mut pi = ProcessImage::try_from_slice(&data, 12, AlignMode::Relaxed).unwrap();
    let mut d = pi.dword_mut(2);
    d.set(0xc0ffee77);
    pi.commit_dword(d);
    assert_eq!(pi.read_u32(2), 0xc0ffee77);
}

#[test]
fn test_unaligned_lword() {
    let data: Vec<u8> = vec![
        0xde, 0xad, 0xbe, 0xef, 0xde, 0xad, 0xbe, 0xef, 0xde, 0xad, 0xbe, 0xef,
    ];
    let pi = ProcessImage::try_from_slice(&data, 12, AlignMode::Relaxed).unwrap();
    assert_eq!(pi.read_u64(4), 0xdeadbeefdeadbeef);
}

#[test]
fn test_unaligned_lword_mut() {
    let data: Vec<u8> = vec![
        0xde, 0xad, 0xbe, 0xef, 0xde, 0xad, 0xbe, 0xef, 0xde, 0xad, 0xbe, 0xef,
    ];
    let mut pi = ProcessImage::try_from_slice(&data, 12, AlignMode::Relaxed).unwrap();
    let mut l = pi.lword_mut(4);
    l.set(0x7fff000000c0ffee);
    pi.commit_lword(l);
    assert_eq!(pi.read_u64(4), 0x7fff000000c0ffee);
}

#[test]
fn strict_mode_rejects_exactly_the_unaligned_offsets() {
    // The guard a caller consults before any strict multi-byte access.
    assert!(!alignment_ok(AlignMode::Strict, 2, 1));
    assert!(!alignment_ok(AlignMode::Strict, 4, 2));
    assert!(!alignment_ok(AlignMode::Strict, 8, 4));
    assert!(alignment_ok(AlignMode::Strict, 2, 0));
    assert!(alignment_ok(AlignMode::Strict, 4, 8));
    assert!(alignment_ok(AlignMode::Strict, 8, 16));
    // Relaxed mode accepts every offset.
    for offset in 0..32 {
        assert!(alignment_ok(AlignMode::Relaxed, 2, offset));
        assert!(alignment_ok(AlignMode::Relaxed, 4, offset));
        assert!(alignment_ok(AlignMode::Relaxed, 8, offset));
    }
}
