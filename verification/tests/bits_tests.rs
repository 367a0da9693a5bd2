//! Tests of the word-level field model: flag decode/encode, the atomic
//! set/clear word transitions, and bit-range extract/replace.

use mstatus::apply_clear_mask;
use mstatus::apply_set_mask;
use mstatus::bits::extract_field;
use mstatus::bits::low_mask_val;
use mstatus::bits::set_bit_to;
use mstatus::bits::set_bits_range;
use mstatus::decode_flag;
use mstatus::encode_flag;

#[test]
fn decode_flag_reads_exact_bits() {
    let w: usize = 0b1010_1001;
    assert!(decode_flag(w, 0));
    assert!(!decode_flag(w, 1));
    assert!(!decode_flag(w, 2));
    assert!(decode_flag(w, 3));
    assert!(decode_flag(w, 5));
    assert!(decode_flag(w, 7));
    assert!(!decode_flag(w, 8));
    for i in 0usize..(usize::BITS as usize) {
        assert_eq!(decode_flag(w, i), w & (1usize << i) != 0);
        assert_eq!(decode_flag(0, i), false);
        assert_eq!(decode_flag(usize::MAX, i), true);
    }
}

#[test]
fn encode_flag_produces_single_bit_masks() {
    assert_eq!(encode_flag(0, true), (1, 0));
    assert_eq!(encode_flag(0, false), (0, 1));
    assert_eq!(encode_flag(3, true), (0b1000, 0));
    assert_eq!(encode_flag(3, false), (0, 0b1000));
    assert_eq!(encode_flag(12, true), (0x1000, 0));
}

#[test]
fn flag_round_trip_on_any_starting_word() {
    let words: [usize; 4] = [0, usize::MAX, 0xABCD, 0x8000_0001];
    for w in words {
        for i in 0usize..16 {
            let (set_mask, unused_clear) = encode_flag(i, true);
            assert_eq!(unused_clear, 0);
            let after_set = apply_set_mask(w, set_mask);
            assert!(decode_flag(after_set, i));

            let (unused_set, clear_mask) = encode_flag(i, false);
            assert_eq!(unused_set, 0);
            let after_clear = apply_clear_mask(w, clear_mask);
            assert!(!decode_flag(after_clear, i));
        }
    }
}

#[test]
fn atomic_set_is_pure_or_and_clear_restores() {
    // bit 3 starts clear: setting it ORs exactly its mask in,
    // clearing it again restores the original word
    let w: usize = 0b0101_0001;
    let (set_mask, _) = encode_flag(3, true);
    let after = apply_set_mask(w, set_mask);
    assert_eq!(after, w | (1usize << 3));
    let (_, clear_mask) = encode_flag(3, false);
    assert_eq!(apply_clear_mask(after, clear_mask), w);
}

#[test]
fn interleaved_atomic_set_and_clear_commute() {
    let words: [usize; 4] = [0, usize::MAX, 0b1111_0000_1010, 0x12345];
    let pairs: [(usize, usize); 3] = [(3, 7), (7, 3), (0, 12)];
    for w in words {
        for (a, b) in pairs {
            let set_first = apply_clear_mask(apply_set_mask(w, 1usize << a), 1usize << b);
            let clear_first = apply_set_mask(apply_clear_mask(w, 1usize << b), 1usize << a);
            assert_eq!(set_first, clear_first);
            assert!(decode_flag(set_first, a));
            assert!(!decode_flag(set_first, b));
            for i in 0usize..(usize::BITS as usize) {
                if i != a && i != b {
                    assert_eq!(decode_flag(set_first, i), decode_flag(w, i));
                }
            }
        }
    }
}

#[test]
fn set_bit_to_forces_one_bit() {
    assert_eq!(set_bit_to(0, 7, true), 0b1000_0000);
    assert_eq!(set_bit_to(usize::MAX, 7, false), usize::MAX & !(1usize << 7));
    assert_eq!(set_bit_to(0b1000_0000, 7, true), 0b1000_0000);
    assert_eq!(set_bit_to(0b1000_0001, 7, false), 1);
}

#[test]
fn low_mask_values() {
    assert_eq!(low_mask_val(0), 0);
    assert_eq!(low_mask_val(1), 1);
    assert_eq!(low_mask_val(2), 0b11);
    assert_eq!(low_mask_val(13), 0x1FFF);
    assert_eq!(low_mask_val(usize::BITS as usize), usize::MAX);
}

#[test]
fn field_extract_and_replace() {
    let w: usize = 0xABCD;
    assert_eq!(extract_field(w, 4, 12), 0xBC);
    assert_eq!(extract_field(w, 0, 4), 0xD);
    assert_eq!(set_bits_range(w, 4, 12, 0x55), 0xA55D);
    assert_eq!(set_bits_range(0, 11, 13, 0b11), 0b11 << 11);
    assert_eq!(set_bits_range(usize::MAX, 11, 13, 0), usize::MAX & !(0b11 << 11));
}
