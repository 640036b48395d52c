use arm_instructions::fields::{extract, extract_u16, extract_u8, test_bit};

#[test]
fn extract_reads_the_named_bits() {
    assert_eq!(extract(0xE083_5001, 28, 4), 0xE);
    assert_eq!(extract(0xE083_5001, 21, 4), 0b0100);
    assert_eq!(extract(0xE083_5001, 16, 4), 3);
    assert_eq!(extract(0xE083_5001, 12, 4), 5);
    assert_eq!(extract(0xE083_5001, 0, 12), 1);
    assert_eq!(extract(0x1234_5678, 4, 24), 0x23_4567);
    assert_eq!(extract(0x1234_5678, 0, 32), 0x1234_5678);
    assert_eq!(extract(0x8000_0000, 31, 1), 1);
    assert_eq!(extract(0x7FFF_FFFF, 31, 1), 0);
    assert_eq!(extract(0xFFFF_FFFF, 1, 31), 0x7FFF_FFFF);
}

#[test]
fn extract_narrow_fields() {
    assert_eq!(extract_u8(0xABCD_EF12, 4, 8), 0xF1);
    assert_eq!(extract_u8(0xABCD_EF12, 24, 8), 0xAB);
    assert_eq!(extract_u8(0xABCD_EF12, 5, 3), 0b000);
    assert_eq!(extract_u8(0xABCD_EFF2, 5, 3), 0b111);
    assert_eq!(extract_u16(0xABCD_EF12, 0, 16), 0xEF12);
    assert_eq!(extract_u16(0xABCD_EF12, 16, 16), 0xABCD);
    assert_eq!(extract_u16(0xABCD_EF12, 0, 12), 0xF12);
}

#[test]
fn test_bit_reads_one_bit() {
    for index in 0u32..32 {
        assert!(test_bit(1 << index, index));
        assert!(!test_bit(!(1 << index), index));
        assert_eq!(test_bit(0x8000_0001, index), index == 0 || index == 31);
    }
}

#[test]
fn a_field_is_quotient_and_remainder_by_powers_of_two() {
    let words = [0u32, 1, 0xE083_5001, 0xFFFF_FFFF, 0x8000_0000, 0x1234_5678, 0xDEAD_BEEF];
    for word in words {
        for low in 0u32..32 {
            for width in 1..=(32 - low) {
                let expected = ((word as u64 >> low) % (1u64 << width)) as u32;
                assert_eq!(extract(word, low, width), expected, "{word:#x} {low} {width}");
            }
        }
    }
}
