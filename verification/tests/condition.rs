use arm_instructions::{decode_arm_instruction, decode_cond, Cond};

const CONDITIONS: [Cond; 16] = [
    Cond::EQ,
    Cond::NE,
    Cond::CS,
    Cond::CC,
    Cond::MI,
    Cond::PL,
    Cond::VS,
    Cond::VC,
    Cond::HI,
    Cond::LS,
    Cond::GE,
    Cond::LT,
    Cond::GT,
    Cond::LE,
    Cond::AL,
    Cond::NV,
];

#[test]
fn every_condition_pattern_has_its_tag() {
    for code in 0u32..16 {
        let word = code << 28;
        assert_eq!(decode_cond(&word), CONDITIONS[code as usize], "pattern {code:#06b}");
    }
}

#[test]
fn condition_ignores_the_low_bits() {
    for code in 0u32..16 {
        let word = (code << 28) | 0x0FFF_FFFF;
        assert_eq!(decode_cond(&word), CONDITIONS[code as usize]);
        let word = (code << 28) | 0x0A5A_5A5A;
        assert_eq!(decode_arm_instruction(&word).cond, CONDITIONS[code as usize]);
    }
}

#[test]
fn pattern_zero_is_equal() {
    assert_eq!(decode_cond(&0x0000_0000), Cond::EQ);
}

#[test]
fn pattern_1110_is_always() {
    assert_eq!(decode_cond(&0xE000_0000), Cond::AL);
}

#[test]
fn pattern_1111_is_reserved_and_not_always() {
    assert_eq!(decode_cond(&0xF000_0000), Cond::NV);
    assert_ne!(decode_cond(&0xF000_0000), Cond::AL);
    assert_eq!(decode_arm_instruction(&0xFA00_0001).cond, Cond::NV);
}

#[test]
fn condition_tags_are_pairwise_different() {
    for first in 0..16 {
        for second in 0..16 {
            assert_eq!(CONDITIONS[first] == CONDITIONS[second], first == second);
        }
    }
}
