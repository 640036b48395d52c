use arm_instructions::branch::{decode_int24, INT24_MASK, INT24_MAX, INT24_MODULUS};
use arm_instructions::{decode_arm_instruction, decode_operation, ArmInstruction, Cond, Operation};

#[test]
fn branch_offset_one() {
    let decoded = decode_arm_instruction(&0xEA00_0001);
    assert_eq!(decoded, ArmInstruction { cond: Cond::AL, op: Operation::B { offset: 1 } });
}

#[test]
fn branch_offset_all_ones_is_minus_one() {
    let decoded = decode_arm_instruction(&0xEAFF_FFFF);
    assert_eq!(decoded.cond, Cond::AL);
    assert_eq!(decoded.op, Operation::B { offset: -1 });
}

#[test]
fn branch_with_link_offset_one() {
    let decoded = decode_arm_instruction(&0xEB00_0001);
    assert_eq!(decoded.op, Operation::BL { offset: 1 });
    assert_ne!(decoded.op, Operation::B { offset: 1 });
}

#[test]
fn branch_with_link_offset_all_ones_is_minus_one() {
    assert_eq!(decode_operation(&0xEBFF_FFFF), Operation::BL { offset: -1 });
}

#[test]
fn branch_offset_extremes() {
    assert_eq!(decode_operation(&0xEA7F_FFFF), Operation::B { offset: 8_388_607 });
    assert_eq!(decode_operation(&0xEA80_0000), Operation::B { offset: -8_388_608 });
    assert_eq!(decode_operation(&0xEA00_0000), Operation::B { offset: 0 });
    assert_eq!(decode_operation(&0xEBFF_FFFE), Operation::BL { offset: -2 });
}

#[test]
fn branch_offset_is_not_scaled_to_bytes() {
    assert_eq!(decode_operation(&0xEA00_0010), Operation::B { offset: 16 });
}

#[test]
fn branch_under_every_condition() {
    for code in 0u32..16 {
        let word = (code << 28) | 0x0A00_0005;
        assert_eq!(decode_operation(&word), Operation::B { offset: 5 });
        let word = (code << 28) | 0x0B00_0005;
        assert_eq!(decode_operation(&word), Operation::BL { offset: 5 });
    }
}

#[test]
fn int24_sign_extension_boundaries() {
    assert_eq!(decode_int24(&0), 0);
    assert_eq!(decode_int24(&1), 1);
    assert_eq!(decode_int24(&0x7F_FFFF), 8_388_607);
    assert_eq!(decode_int24(&0x80_0000), -8_388_608);
    assert_eq!(decode_int24(&0x80_0001), -8_388_607);
    assert_eq!(decode_int24(&0xFF_FFFF), -1);
}

#[test]
fn int24_constants() {
    assert_eq!(INT24_MASK, 16_777_215);
    assert_eq!(INT24_MAX, 8_388_607);
    assert_eq!(INT24_MODULUS, 16_777_216);
}

#[test]
fn int24_differs_from_its_pattern_by_nothing_or_the_modulus() {
    let mut pattern: u32 = 0;
    while pattern <= INT24_MASK {
        let number = decode_int24(&pattern);
        if pattern <= INT24_MAX {
            assert_eq!(number as i64, pattern as i64);
        } else {
            assert_eq!(number as i64, pattern as i64 - 16_777_216);
        }
        assert_eq!((number as i64).rem_euclid(16_777_216), pattern as i64);
        pattern += 4099;
    }
}
