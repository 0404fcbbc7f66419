use process_image::codec::AlignMode;
use process_image::image::ProcessImage;
use process_image::tag;

#[test]
fn pi_macro_smoke1() {
    let pi_buffer: Vec<u8> = vec![128, 0x55, 0xde, 0xad];

    let pi = ProcessImage::try_from_slice(&pi_buffer, 4, AlignMode::Strict).unwrap();
    assert_eq!(pi.read_bit(1, 0), true);
    assert_eq!(pi.read_bit(1, 1), false);
    assert_eq!(pi.read_bit(1, 2), true);
    assert_eq!(pi.read_u16(2), 0xdead);
    assert_eq!(pi.read_u8(0), 128);

    let mut pi = ProcessImage::try_from_slice(&pi_buffer, 4, AlignMode::Strict).unwrap();
    let a = pi.bit_mut(1, 0);
    assert_eq!(a.get(), true);
    pi.commit_bit(a);
    let a = pi.bit_mut(1, 1);
    assert_eq!(a.get(), false);
    pi.commit_bit(a);
    let a = pi.bit_mut(1, 2);
    assert_eq!(a.get(), true);
    pi.commit_bit(a);
    let w = pi.word_mut(2);
    assert_eq!(w.get(), 0xdead);
    pi.commit_word(w);
    assert_eq!(pi.read_u8(0), 128);

    let mut a = pi.bit_mut(1, 0);
    a.set(false);
    pi.commit_bit(a);
    let mut a = pi.bit_mut(1, 1);
    a.set(true);
    pi.commit_bit(a);

    let mut w = pi.word_mut(2);
    w.set(1337);
    pi.commit_word(w);
    pi.set_u8(0, 1);

    assert_eq!(pi.read_bit(1, 0), false);
    assert_eq!(pi.read_bit(1, 1), true);
    assert_eq!(pi.read_bit(1, 2), true);
    assert_eq!(pi.read_u16(2), 1337);
    assert_eq!(pi.read_u8(0), 1);

    assert_eq!(tag::read_bit(pi.buffer(), 1, 0), false);
    assert_eq!(tag::read_u16(pi.buffer(), 2, AlignMode::Strict), 1337);
    assert_eq!(tag::read_u8(pi.buffer(), 0), 1);
}

#[test]
fn pi_owned_macro_smoke() {
    let pi_buffer: Vec<u8> = vec![128, 0x55, 0xde, 0xad];

    let mut pi = ProcessImage::new_zeroed(4, AlignMode::Strict);
    assert_eq!(pi.read_bit(1, 0), false);
    assert_eq!(pi.read_bit(1, 1), false);
    assert_eq!(pi.read_bit(1, 2), false);
    assert_eq!(pi.read_u16(2), 0);
    assert_eq!(pi.read_u8(0), 0);

    pi.copy_from_slice(&pi_buffer);
    assert_eq!(pi.read_bit(1, 0), true);
    assert_eq!(pi.read_bit(1, 1), false);
    assert_eq!(pi.read_bit(1, 2), true);
    assert_eq!(pi.read_u16(2), 0xdead);
    assert_eq!(pi.read_u8(0), 128);

    let mut pi = ProcessImage::try_from_slice(&pi_buffer, 4, AlignMode::Strict).unwrap();
    assert_eq!(pi.read_bit(1, 0), true);
    assert_eq!(pi.read_bit(1, 1), false);
    assert_eq!(pi.read_bit(1, 2), true);
    assert_eq!(pi.read_u16(2), 0xdead);
    assert_eq!(pi.read_u8(0), 128);

    let mut a = pi.bit_mut(1, 0);
    a.set(false);
    pi.commit_bit(a);
    let mut a = pi.bit_mut(1, 1);
    a.set(true);
    pi.commit_bit(a);
    let mut a = pi.bit_mut(1, 2);
    a.set(true);
    pi.commit_bit(a);

    let mut w = pi.word_mut(2);
    w.set(1337);
    pi.commit_word(w);
    pi.set_u8(0, 1);

    assert_eq!(pi.read_bit(1, 0), false);
    assert_eq!(pi.read_bit(1, 1), true);
    assert_eq!(pi.read_bit(1, 2), true);
    assert_eq!(pi.read_u16(2), 1337);
    assert_eq!(pi.read_u8(0), 1);

    let pi_buffer = pi.buffer();
    assert_eq!(tag::read_bit(pi_buffer, 1, 0), false);
    assert_eq!(tag::read_u16(pi_buffer, 2, AlignMode::Strict), 1337);
    assert_eq!(tag::read_u8(pi_buffer, 0), 1);
}

#[test]
fn size_mismatch_on_wrong_slice_length() {
    let three: Vec<u8> = vec![1, 2, 3];
    let four: Vec<u8> = vec![1, 2, 3, 4];
    let five: Vec<u8> = vec![1, 2, 3, 4, 5];

    let err = ProcessImage::try_from_slice(&three, 4, AlignMode::Strict).unwrap_err();
    assert_eq!(err.expected, 4);
    assert_eq!(err.actual, 3);

    let err = ProcessImage::try_from_slice(&five, 4, AlignMode::Strict).unwrap_err();
    assert_eq!(err.expected, 4);
    assert_eq!(err.actual, 5);

    let pi = ProcessImage::try_from_slice(&four, 4, AlignMode::Strict).unwrap();
    assert_eq!(pi.len(), 4);
    assert_eq!(pi.read_u8(0), 1);
    assert_eq!(pi.read_u8(3), 4);
}

#[test]
fn new_zeroed_image_is_all_zero() {
    let pi = ProcessImage::new_zeroed(16, AlignMode::Strict);
    assert_eq!(pi.len(), 16);
    for i in 0..16 {
        assert_eq!(pi.read_u8(i), 0);
    }
    assert_eq!(pi.read_u64(8), 0);
    assert_eq!(pi.mode(), AlignMode::Strict);
}

#[test]
fn relaxed_image_accepts_unaligned_fields() {
    let data: Vec<u8> = vec![0xde, 0xad, 0xbe, 0xef, 0x01, 0x02, 0x03, 0x04, 0x05];
    let mut pi = ProcessImage::try_from_slice(&data, 9, AlignMode::Relaxed).unwrap();
    assert_eq!(pi.read_u16(1), 0xadbe);
    assert_eq!(pi.read_u32(3), 0xef010203);
    assert_eq!(pi.read_u64(1), 0xadbeef0102030405);

    let mut w = pi.word_mut(1);
    w.set(0xcafe);
    pi.commit_word(w);
    assert_eq!(pi.read_u16(1), 0xcafe);
    assert_eq!(pi.read_u8(0), 0xde);
}

#[test]
fn commit_bit_preserves_other_bits_of_the_byte() {
    let data: Vec<u8> = vec![0b0101_0101];
    let mut pi = ProcessImage::try_from_slice(&data, 1, AlignMode::Strict).unwrap();
    let mut a = pi.bit_mut(0, 1);
    a.set(true);
    pi.commit_bit(a);
    assert_eq!(pi.read_u8(0), 0b0101_0111);

    let mut a = pi.bit_mut(0, 0);
    a.set(false);
    pi.commit_bit(a);
    assert_eq!(pi.read_u8(0), 0b0101_0110);
}

#[test]
fn copy_from_slice_replaces_every_byte() {
    let mut pi = ProcessImage::new_zeroed(4, AlignMode::Strict);
    let data: Vec<u8> = vec![9, 8, 7, 6];
    pi.copy_from_slice(&data);
    assert_eq!(pi.read_u8(0), 9);
    assert_eq!(pi.read_u8(1), 8);
    assert_eq!(pi.read_u8(2), 7);
    assert_eq!(pi.read_u8(3), 6);
    assert_eq!(pi.mode(), AlignMode::Strict);
}
