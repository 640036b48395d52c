use arm_instructions::data_processing::{
    decode_data_processing, decode_operand2, DataProcessingOperation, Operand2,
};
use arm_instructions::operation::decode_opcode;
use arm_instructions::{decode_arm_instruction, decode_operation, Cond, Operation};

fn operands_of(op: Operation) -> Option<DataProcessingOperation> {
    match op {
        Operation::AND(o)
        | Operation::EOR(o)
        | Operation::SUB(o)
        | Operation::RSB(o)
        | Operation::ADD(o)
        | Operation::ADC(o)
        | Operation::SBC(o)
        | Operation::RSC(o)
        | Operation::TST(o)
        | Operation::TEQ(o)
        | Operation::CMP(o)
        | Operation::CMN(o)
        | Operation::ORR(o)
        | Operation::MOV(o)
        | Operation::BIC(o)
        | Operation::MVN(o) => Some(o),
        _ => None,
    }
}

fn with_opcode(opcode: u8, o: DataProcessingOperation) -> Operation {
    match opcode {
        0 => Operation::AND(o),
        1 => Operation::EOR(o),
        2 => Operation::SUB(o),
        3 => Operation::RSB(o),
        4 => Operation::ADD(o),
        5 => Operation::ADC(o),
        6 => Operation::SBC(o),
        7 => Operation::RSC(o),
        8 => Operation::TST(o),
        9 => Operation::TEQ(o),
        10 => Operation::CMP(o),
        11 => Operation::CMN(o),
        12 => Operation::ORR(o),
        13 => Operation::MOV(o),
        14 => Operation::BIC(o),
        15 => Operation::MVN(o),
        _ => unreachable!(),
    }
}

#[test]
fn add_with_register_operand() {
    let decoded = decode_arm_instruction(&0xE083_5001);
    assert_eq!(decoded.cond, Cond::AL);
    assert_eq!(
        decoded.op,
        Operation::ADD(DataProcessingOperation {
            destination: 5,
            set_flag: false,
            operand1: 3,
            operand2: Operand2::Register { register: 1, shift: 0 },
        })
    );
}

#[test]
fn add_with_register_operand_keeps_the_shift_byte() {
    // Register 2 shifted left by 4: bits 11..4 are 0010_0000.
    let decoded = decode_operation(&0xE083_5202);
    assert_eq!(
        decoded,
        Operation::ADD(DataProcessingOperation {
            destination: 5,
            set_flag: false,
            operand1: 3,
            operand2: Operand2::Register { register: 2, shift: 0x20 },
        })
    );
}

#[test]
fn add_with_immediate_operand() {
    let decoded = decode_operation(&0xE283_5AFF);
    assert_eq!(
        decoded,
        Operation::ADD(DataProcessingOperation {
            destination: 5,
            set_flag: false,
            operand1: 3,
            operand2: Operand2::Immediate { value: 0xFF, rotate: 0xA },
        })
    );
}

#[test]
fn immediate_rotation_is_not_applied() {
    let decoded = decode_operation(&0xE283_5C01);
    assert_eq!(
        operands_of(decoded).unwrap().operand2,
        Operand2::Immediate { value: 1, rotate: 12 }
    );
}

#[test]
fn flag_bit_is_reported() {
    let plain = operands_of(decode_operation(&0xE083_5001)).unwrap();
    let flagged = operands_of(decode_operation(&0xE093_5001)).unwrap();
    assert!(!plain.set_flag);
    assert!(flagged.set_flag);
    assert_eq!(DataProcessingOperation { set_flag: false, ..flagged }, plain);
}

#[test]
fn comparison_reports_a_clear_flag_bit_as_encoded() {
    // A compare of register 3 with the immediate 7, bit 20 clear.
    let decoded = decode_operation(&0xE343_0007);
    assert_eq!(
        decoded,
        Operation::CMP(DataProcessingOperation {
            destination: 0,
            set_flag: false,
            operand1: 3,
            operand2: Operand2::Immediate { value: 7, rotate: 0 },
        })
    );
    let decoded = decode_operation(&0xE353_0007);
    assert_eq!(operands_of(decoded).map(|o| o.set_flag), Some(true));
    assert!(matches!(decoded, Operation::CMP(_)));
}

#[test]
fn every_opcode_selects_its_operation() {
    let operands = DataProcessingOperation {
        destination: 5,
        set_flag: true,
        operand1: 3,
        operand2: Operand2::Register { register: 1, shift: 0 },
    };
    for opcode in 0u8..16 {
        let word = 0xE010_0000 | ((opcode as u32) << 21) | (3 << 16) | (5 << 12) | 1;
        assert_eq!(decode_operation(&word), with_opcode(opcode, operands), "opcode {opcode}");
        assert_eq!(decode_opcode(opcode, operands), with_opcode(opcode, operands));
    }
}

#[test]
fn opcode_order() {
    let o = DataProcessingOperation {
        destination: 0,
        set_flag: false,
        operand1: 0,
        operand2: Operand2::Immediate { value: 0, rotate: 0 },
    };
    assert_eq!(decode_opcode(0b0000, o), Operation::AND(o));
    assert_eq!(decode_opcode(0b0001, o), Operation::EOR(o));
    assert_eq!(decode_opcode(0b0010, o), Operation::SUB(o));
    assert_eq!(decode_opcode(0b0011, o), Operation::RSB(o));
    assert_eq!(decode_opcode(0b0100, o), Operation::ADD(o));
    assert_eq!(decode_opcode(0b0101, o), Operation::ADC(o));
    assert_eq!(decode_opcode(0b0110, o), Operation::SBC(o));
    assert_eq!(decode_opcode(0b0111, o), Operation::RSC(o));
    assert_eq!(decode_opcode(0b1000, o), Operation::TST(o));
    assert_eq!(decode_opcode(0b1001, o), Operation::TEQ(o));
    assert_eq!(decode_opcode(0b1010, o), Operation::CMP(o));
    assert_eq!(decode_opcode(0b1011, o), Operation::CMN(o));
    assert_eq!(decode_opcode(0b1100, o), Operation::ORR(o));
    assert_eq!(decode_opcode(0b1101, o), Operation::MOV(o));
    assert_eq!(decode_opcode(0b1110, o), Operation::BIC(o));
    assert_eq!(decode_opcode(0b1111, o), Operation::MVN(o));
}

#[test]
fn opcodes_select_different_operations() {
    let o = DataProcessingOperation {
        destination: 1,
        set_flag: false,
        operand1: 2,
        operand2: Operand2::Immediate { value: 3, rotate: 4 },
    };
    for first in 0u8..16 {
        for second in 0u8..16 {
            assert_eq!(decode_opcode(first, o) == decode_opcode(second, o), first == second);
        }
    }
}

#[test]
fn operands_are_read_from_their_own_bits() {
    for operand1 in 0u8..16 {
        for destination in 0u8..16 {
            let word =
                0xE080_0000 | ((operand1 as u32) << 16) | ((destination as u32) << 12) | 0x0AB;
            assert_eq!(
                decode_data_processing(&word),
                DataProcessingOperation {
                    destination,
                    set_flag: false,
                    operand1,
                    operand2: Operand2::Register { register: 0xB, shift: 0x0A },
                }
            );
        }
    }
}

#[test]
fn second_operand_forms() {
    assert_eq!(decode_operand2(&0x0000_0FED), Operand2::Register { register: 0xD, shift: 0xFE });
    assert_eq!(decode_operand2(&0x0200_0FED), Operand2::Immediate { value: 0xED, rotate: 0xF });
    assert_eq!(decode_operand2(&0xFDFF_F000), Operand2::Register { register: 0, shift: 0 });
    assert_eq!(decode_operand2(&0xFFFF_F000), Operand2::Immediate { value: 0, rotate: 0 });
}

#[test]
fn move_and_logic_examples() {
    // MOV r0, #1
    assert_eq!(
        decode_operation(&0xE3A0_0001),
        Operation::MOV(DataProcessingOperation {
            destination: 0,
            set_flag: false,
            operand1: 0,
            operand2: Operand2::Immediate { value: 1, rotate: 0 },
        })
    );
    // ORRS r7, r8, r9
    assert_eq!(
        decode_operation(&0xE198_7009),
        Operation::ORR(DataProcessingOperation {
            destination: 7,
            set_flag: true,
            operand1: 8,
            operand2: Operand2::Register { register: 9, shift: 0 },
        })
    );
    // SUBNE r15, r14, #4
    let decoded = decode_arm_instruction(&0x124E_F004);
    assert_eq!(decoded.cond, Cond::NE);
    assert_eq!(
        decoded.op,
        Operation::SUB(DataProcessingOperation {
            destination: 15,
            set_flag: false,
            operand1: 14,
            operand2: Operand2::Immediate { value: 4, rotate: 0 },
        })
    );
}
