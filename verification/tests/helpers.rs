use lc3vm::{complement, is_negative, is_negative_u16, sign_extend, CorruptCond, FL};

fn low_mask(bit_count: u16) -> u16 {
    if bit_count >= 16 {
        0xFFFF
    } else {
        (1u16 << bit_count) - 1
    }
}

#[test]
fn is_negative_looks_at_the_sign_bit_only() {
    assert!(is_negative(0b10000, 5));
    assert!(!is_negative(0b01111, 5));
    // bits above the field do not hide the sign bit
    assert!(is_negative(0b110000, 5));
    assert!(is_negative(0xFFFF, 1));
    assert!(!is_negative(0xFFFE, 1));
    assert!(is_negative(0x8000, 16));
    assert!(!is_negative(0x7FFF, 16));
    assert!(is_negative(0x0100, 9));
    assert!(!is_negative(0x00FF, 9));
}

#[test]
fn is_negative_u16_is_bit_fifteen() {
    for v in 0..=u16::MAX {
        assert_eq!(is_negative_u16(v), v >= 0x8000);
        assert_eq!(is_negative_u16(v), is_negative(v, 16));
    }
}

#[test]
fn complement_sets_the_high_bits() {
    assert_eq!(complement(0b10001, 5), 0xFFF1);
    assert_eq!(complement(0, 5), 0xFFE0);
    assert_eq!(complement(0x0123, 12), 0xF123);
    assert_eq!(complement(0, 0), 0xFFFF);
    assert_eq!(complement(0x1234, 15), 0x9234);
    // no bit lies above the sixteenth
    assert_eq!(complement(0x1234, 16), 0x1234);
    assert_eq!(complement(0x1234, 17), 0x1234);
    assert_eq!(complement(0, u16::MAX), 0);
}

#[test]
fn sign_extend_exact_values() {
    assert_eq!(sign_extend(0b01111, 5), 15);
    assert_eq!(sign_extend(0b10001, 5), 0xFFF1);
    assert_eq!(sign_extend(0b11111, 5), 0xFFFF);
    assert_eq!(sign_extend(0b10000, 5), 0xFFF0);
    assert_eq!(sign_extend(0x3F, 6), 0xFFFF);
    assert_eq!(sign_extend(0x1F, 6), 0x001F);
    assert_eq!(sign_extend(0x100, 9), 0xFF00);
    assert_eq!(sign_extend(0x0FF, 9), 0x00FF);
    assert_eq!(sign_extend(0x400, 11), 0xFC00);
    assert_eq!(sign_extend(0x3FF, 11), 0x03FF);
}

#[test]
fn sign_extend_of_a_whole_word_changes_nothing() {
    for v in 0..=u16::MAX {
        assert_eq!(sign_extend(v, 16), v);
    }
}

#[test]
fn sign_extend_of_one_bit() {
    assert_eq!(sign_extend(0, 1), 0);
    assert_eq!(sign_extend(1, 1), 0xFFFF);
}

#[test]
fn sign_extend_keeps_the_number_and_is_idempotent() {
    for bit_count in 1..=16u16 {
        let mask = low_mask(bit_count);
        for v in 0..=u16::MAX {
            let field = v & mask;
            let extended = sign_extend(field, bit_count);
            // the number the field stands for in two's complement
            let unsigned = field as i32;
            let number = if unsigned >= 1 << (bit_count - 1) {
                unsigned - (1 << bit_count)
            } else {
                unsigned
            };
            assert_eq!(extended as i16 as i32, number);
            assert_eq!(extended & mask, field);
            for i in bit_count..16 {
                assert_eq!((extended >> i) & 1, (v >> (bit_count - 1)) & 1);
            }
            assert_eq!(sign_extend(extended, bit_count), extended);
        }
    }
}

#[test]
fn every_value_has_exactly_one_flag() {
    for v in 0..=u16::MAX {
        let flag = FL::from(v);
        let bit15 = (v >> 15) & 1 == 1;
        assert_eq!(flag == FL::POS, v != 0 && !bit15);
        assert_eq!(flag == FL::ZRO, v == 0);
        assert_eq!(flag == FL::NEG, bit15);
        let signed = v as i16;
        assert_eq!(flag == FL::POS, signed > 0);
        assert_eq!(flag == FL::ZRO, signed == 0);
        assert_eq!(flag == FL::NEG, signed < 0);
    }
}

#[test]
fn flags_at_the_boundaries() {
    assert_eq!(FL::from(1), FL::POS);
    assert_eq!(FL::from(0x7FFF), FL::POS);
    assert_eq!(FL::from(0x8000), FL::NEG);
    assert_eq!(FL::from(0xFFFF), FL::NEG);
    assert_eq!(FL::from(0), FL::ZRO);
}

#[test]
fn flag_from_bits() {
    assert_eq!(FL::from_bits(1), Ok(FL::POS));
    assert_eq!(FL::from_bits(2), Ok(FL::ZRO));
    assert_eq!(FL::from_bits(4), Ok(FL::NEG));
    assert_eq!(FL::from_bits(0), Err(CorruptCond { cond: 0 }));
    assert_eq!(FL::from_bits(3), Err(CorruptCond { cond: 3 }));
    assert_eq!(FL::from_bits(8), Err(CorruptCond { cond: 8 }));
    for cond in 0..=u16::MAX {
        let flag = FL::from_bits(cond);
        match flag {
            Ok(flag) => assert_eq!(flag.bits(), cond),
            Err(corrupt) => {
                assert_eq!(corrupt.cond, cond);
                assert!(cond != 1 && cond != 2 && cond != 4);
            }
        }
    }
}
