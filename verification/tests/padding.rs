use md5::padding::{add_padding, is_paddable, push_length_field};
use md5::words::decode_words;

fn message(len: usize) -> Vec<u8> {
    (0..len).map(|i| (i % 251) as u8 + 1).collect()
}

#[test]
fn padded_length_is_a_multiple_of_64() {
    for len in 0..300 {
        let padded = add_padding(&message(len));
        assert_eq!(padded.len() % 64, 0, "length {}", len);
        assert!(padded.len() >= len + 9, "length {}", len);
        assert!(padded.len() <= len + 72, "length {}", len);
    }
}

#[test]
fn padded_length_follows_the_bit_formula() {
    for len in 0..300u64 {
        let padded = add_padding(&message(len as usize));
        let before_field = ((len * 8 + 64 + 512) / 512 * 512 - 64) / 8;
        assert_eq!(padded.len() as u64, before_field + 8);
    }
}

#[test]
fn length_field_holds_the_bit_length() {
    for len in [0usize, 1, 3, 55, 56, 63, 64, 65, 119, 120, 1000] {
        let padded = add_padding(&message(len));
        let mut field = [0u8; 8];
        field.copy_from_slice(&padded[padded.len() - 8..]);
        assert_eq!(u64::from_le_bytes(field), 8 * len as u64);
    }
}

#[test]
fn padding_keeps_the_message_and_marks_its_end() {
    for len in [0usize, 1, 54, 55, 56, 57, 64, 130] {
        let plain = message(len);
        let padded = add_padding(&plain);
        assert_eq!(&padded[..len], &plain[..]);
        assert_eq!(padded[len], 0x80);
        for k in len + 1..padded.len() - 8 {
            assert_eq!(padded[k], 0);
        }
    }
}

#[test]
fn padding_of_empty_message() {
    let padded = add_padding(&Vec::new());
    let mut expected = vec![0u8; 64];
    expected[0] = 0x80;
    assert_eq!(padded, expected);
}

#[test]
fn padding_of_abc() {
    let padded = add_padding(&b"abc".to_vec());
    let mut expected = vec![0u8; 64];
    expected[0] = b'a';
    expected[1] = b'b';
    expected[2] = b'c';
    expected[3] = 0x80;
    expected[56] = 24;
    assert_eq!(padded, expected);
}

#[test]
fn fifty_five_bytes_fit_one_block() {
    let padded = add_padding(&message(55));
    assert_eq!(padded.len(), 64);
    assert_eq!(padded[55], 0x80);
    assert_eq!(&padded[56..], &(440u64).to_le_bytes());
}

#[test]
fn fifty_six_bytes_spill_into_a_second_block() {
    let padded = add_padding(&message(56));
    assert_eq!(padded.len(), 128);
    assert_eq!(padded[56], 0x80);
    assert!(padded[57..120].iter().all(|b| *b == 0));
    assert_eq!(&padded[120..], &(448u64).to_le_bytes());
}

#[test]
fn a_full_block_gets_a_block_of_padding() {
    assert_eq!(add_padding(&message(63)).len(), 128);
    assert_eq!(add_padding(&message(64)).len(), 128);
    assert_eq!(add_padding(&message(119)).len(), 128);
    assert_eq!(add_padding(&message(120)).len(), 192);
}

#[test]
fn length_field_is_little_endian() {
    let mut out = vec![0xaa];
    push_length_field(&mut out, 0x0102030405060708);
    assert_eq!(out, vec![0xaa, 0x08, 0x07, 0x06, 0x05, 0x04, 0x03, 0x02, 0x01]);
}

#[test]
fn length_field_matches_to_le_bytes() {
    for bits in [0u64, 1, 255, 256, 440, 0xffff_ffff, 0x1_0000_0000, u64::MAX] {
        let mut out = Vec::new();
        push_length_field(&mut out, bits);
        assert_eq!(out, bits.to_le_bytes().to_vec());
    }
}

#[test]
fn long_message_length_uses_the_upper_bytes() {
    let len = 70_000usize;
    let padded = add_padding(&vec![0x55; len]);
    assert_eq!(padded.len() % 64, 0);
    assert_eq!(&padded[padded.len() - 8..], &(560_000u64).to_le_bytes());
}

#[test]
fn padded_message_decodes_into_whole_blocks() {
    for len in [0usize, 55, 56, 64, 200] {
        let padded = add_padding(&message(len));
        let words = decode_words(&padded);
        assert_eq!(words.len() * 4, padded.len());
        assert_eq!(words.len() % 16, 0);
    }
}

#[test]
fn lengths_that_can_be_padded() {
    assert!(is_paddable(0));
    assert!(is_paddable(55));
    assert!(is_paddable(1 << 20));
    assert!(!is_paddable(usize::MAX));
    assert!(!is_paddable(usize::MAX - 71));
    let most = (usize::MAX - 72).min((u64::MAX / 8) as usize);
    assert!(is_paddable(most));
    assert!(!is_paddable(most + 1));
}
