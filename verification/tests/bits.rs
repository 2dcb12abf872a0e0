use md5::bits::{add32, rotate_left, swap_bytes, word_byte, word_from_le};
use md5::words::decode_words;

const SAMPLES: [u32; 8] = [
    0,
    1,
    0x8000_0000,
    0xffff_ffff,
    0x0123_4567,
    0x89ab_cdef,
    0xdead_beef,
    0x0000_ff00,
];

#[test]
fn word_from_little_endian_bytes() {
    assert_eq!(word_from_le(0x01, 0x23, 0x45, 0x67), 0x67452301);
    assert_eq!(word_from_le(0xff, 0, 0, 0), 0xff);
    assert_eq!(word_from_le(0, 0, 0, 0x80), 0x8000_0000);
    assert_eq!(word_from_le(0xff, 0xff, 0xff, 0xff), 0xffff_ffff);
    assert_eq!(word_from_le(1, 2, 3, 4), u32::from_le_bytes([1, 2, 3, 4]));
}

#[test]
fn bytes_of_a_word() {
    for &x in SAMPLES.iter() {
        let bytes = x.to_le_bytes();
        for k in 0..4 {
            assert_eq!(word_byte(x, k), bytes[k]);
        }
        assert_eq!(
            word_from_le(word_byte(x, 0), word_byte(x, 1), word_byte(x, 2), word_byte(x, 3)),
            x
        );
    }
}

#[test]
fn addition_wraps() {
    assert_eq!(add32(1, 2), 3);
    assert_eq!(add32(0xffff_ffff, 1), 0);
    assert_eq!(add32(0xffff_ffff, 0xffff_ffff), 0xffff_fffe);
    assert_eq!(add32(0x8000_0000, 0x8000_0000), 0);
}

#[test]
fn rotation_by_known_amounts() {
    assert_eq!(rotate_left(1, 1), 2);
    assert_eq!(rotate_left(0x8000_0000, 1), 1);
    assert_eq!(rotate_left(0x1234_5678, 8), 0x3456_7812);
    assert_eq!(rotate_left(0x1234_5678, 0), 0x1234_5678);
    assert_eq!(rotate_left(0x1234_5678, 32), 0x1234_5678);
    assert_eq!(rotate_left(0x1234_5678, 36), 0x2345_6781);
}

#[test]
fn rotation_agrees_with_std() {
    for &x in SAMPLES.iter() {
        for s in 0..70u32 {
            assert_eq!(rotate_left(x, s), x.rotate_left(s));
        }
        assert_eq!(rotate_left(x, u32::MAX), x.rotate_left(u32::MAX));
    }
}

#[test]
fn byte_swap() {
    assert_eq!(swap_bytes(0x0123_4567), 0x6745_2301);
    assert_eq!(swap_bytes(0xd98c_1dd4), 0xd41d_8cd9);
    for &x in SAMPLES.iter() {
        assert_eq!(swap_bytes(x), x.swap_bytes());
        assert_eq!(swap_bytes(swap_bytes(x)), x);
    }
}

#[test]
fn words_are_decoded_little_endian() {
    let bytes: Vec<u8> = vec![0x61, 0x80, 0, 0, 0x78, 0x56, 0x34, 0x12, 0xff, 0xff, 0xff, 0xff];
    assert_eq!(decode_words(&bytes), vec![0x0000_8061, 0x1234_5678, 0xffff_ffff]);
}

#[test]
fn no_bytes_no_words() {
    assert_eq!(decode_words(&Vec::new()), Vec::<u32>::new());
}
