use riscv_instruction_parser::decoder::{
    immediate_b, immediate_i, immediate_j, immediate_s, immediate_u, sign_extend,
};
use riscv_instruction_parser::registers::Register;
use riscv_instruction_parser::{
    decode, parse, parse_32bit_operation, DecodeError, Instruction, InstructionWidth, Operation,
};

#[test]
fn instruction_size() {
    let instruction_32 = Instruction {
        width: InstructionWidth::Bit32,
        operation: Operation::ADD {
            rs2: Register::ZERO,
            rs1: Register::ZERO,
            rd: Register::ZERO,
        },
    };
    assert_eq!(instruction_32.is_32bit(), true);
}

#[test]
fn sign_extension_twelve_bits() {
    assert_eq!(sign_extend(0xfff, 12), 0xffff_ffff);
    assert_eq!(sign_extend(0x7ff, 12), 0x0000_07ff);
    assert_eq!(sign_extend(0x800, 12), 0xffff_f800);
    assert_eq!(sign_extend(0x800, 12) as i32, -2048);
    assert_eq!(sign_extend(0x1e, 5) as i32, -2);
    assert_eq!(sign_extend(0xffff_f0ff, 8), 0xffff_ffff);
    assert_eq!(sign_extend(0x8000_007f, 8), 0x7f);
    assert_eq!(sign_extend(0x8000_0000, 32), 0x8000_0000);
}

#[test]
fn immediates_by_format() {
    // addi x1, x2, -1
    assert_eq!(immediate_i(0xfff1_0093), 0xffff_ffff);
    // sw x9, -8(x2)
    assert_eq!(immediate_s(0xfe91_2c23) as i32, -8);
    // sb x1, 2047(x2)
    assert_eq!(immediate_s(0x7e11_0fa3), 2047);
    // bne x1, x2, +8
    assert_eq!(immediate_b(0x0020_9463), 8);
    // lui x5, 0xabcde
    assert_eq!(immediate_u(0xabcd_e2b7), 0xabcd_e000);
    // jal x1, +2048
    assert_eq!(immediate_j(0x0010_00ef), 2048);
}

#[test]
fn branch_sign_bit_only() {
    assert_eq!(immediate_b(0x8000_0063) as i32, -4096);
    assert_eq!(immediate_b(0x8020_8063) as i32, -4096);
    assert_eq!(
        parse_32bit_operation(0x8020_8063),
        Ok(Operation::BEQ {
            imm: (-4096i16) as u16,
            rs1: Register::RA,
            rs2: Register::SP
        })
    );
}

#[test]
fn every_opcode_classified() {
    let known = [
        0b0110011u32,
        0b0010011,
        0b0000011,
        0b0100011,
        0b1100011,
        0b1100111,
        0b1101111,
        0b0110111,
        0b0010111,
        0b1110011,
    ];
    for op in 0u32..128 {
        for high in [0u32, 0xffff_ff80, 0x0000_1000, 0x4000_5000] {
            let r = parse_32bit_operation(high | op);
            if known.contains(&op) {
                assert!(!matches!(r, Err(DecodeError::UnrecognizedOpcode(_))));
                assert!(!matches!(r, Err(DecodeError::InvalidRegister(_))));
            } else {
                assert_eq!(r, Err(DecodeError::UnrecognizedOpcode(op as u8)));
            }
        }
    }
}

#[test]
fn canonical_nop() {
    assert_eq!(
        parse_32bit_operation(0x0000_0013),
        Ok(Operation::ADDI {
            rd: Register::ZERO,
            rs1: Register::ZERO,
            imm: 0
        })
    );
}

#[test]
fn system_fixed_words() {
    assert_eq!(parse_32bit_operation(0x0010_0073), Ok(Operation::EBREAK {}));
    assert_eq!(parse_32bit_operation(0x0000_0073), Ok(Operation::ECALL {}));
    assert_eq!(parse_32bit_operation(0x3020_0073), Ok(Operation::MRET {}));
    assert_eq!(
        parse_32bit_operation(0x0000_4073),
        Err(DecodeError::InvalidFunct3(0b1110011, 4))
    );
    assert_eq!(
        parse_32bit_operation(0x3030_0073),
        Err(DecodeError::InvalidFunct3(0b1110011, 0))
    );
}

#[test]
fn store_with_undefined_funct3() {
    assert_eq!(
        parse_32bit_operation(0x0000_3023),
        Err(DecodeError::InvalidFunct3(0b0100011, 0b011))
    );
}

#[test]
fn load_and_branch_with_undefined_funct3() {
    assert_eq!(
        parse_32bit_operation(0x0000_3003),
        Err(DecodeError::InvalidFunct3(0b0000011, 3))
    );
    assert_eq!(
        parse_32bit_operation(0x0000_2063),
        Err(DecodeError::InvalidFunct3(0b1100011, 2))
    );
}

#[test]
fn unrecognized_opcode() {
    assert_eq!(
        parse_32bit_operation(0x0000_007f),
        Err(DecodeError::UnrecognizedOpcode(0b1111111))
    );
    assert_eq!(
        parse_32bit_operation(0xffff_ffff),
        Err(DecodeError::UnrecognizedOpcode(0b1111111))
    );
    // FENCE is outside the accepted classes
    assert_eq!(
        parse_32bit_operation(0x0ff0_000f),
        Err(DecodeError::UnrecognizedOpcode(0b0001111))
    );
}

#[test]
fn jal_most_negative_offset() {
    let r = parse_32bit_operation(0x8000_006f);
    assert_eq!(
        r,
        Ok(Operation::JAL {
            rd: Register::ZERO,
            imm: (-(1i32 << 20)) as u32
        })
    );
    assert_eq!(immediate_j(0x8000_006f) & 1, 0);
    assert_eq!(
        parse_32bit_operation(0x8000_00ef),
        Ok(Operation::JAL {
            rd: Register::RA,
            imm: 0xfff0_0000
        })
    );
}

#[test]
fn register_register_ops() {
    assert_eq!(
        parse_32bit_operation(0x4020_81b3),
        Ok(Operation::SUB {
            rs2: Register::SP,
            rs1: Register::RA,
            rd: Register::GP
        })
    );
    assert_eq!(
        parse_32bit_operation(0x4073_52b3),
        Ok(Operation::SRA {
            rs2: Register::T2,
            rs1: Register::T1,
            rd: Register::T0
        })
    );
    assert_eq!(
        parse_32bit_operation(0x0220_81b3),
        Err(DecodeError::InvalidFunct7(0, 1))
    );
}

#[test]
fn immediate_ops() {
    assert_eq!(
        parse_32bit_operation(0xfff1_0093),
        Ok(Operation::ADDI {
            imm: 0xffff,
            rs1: Register::SP,
            rd: Register::RA
        })
    );
    assert_eq!(
        parse_32bit_operation(0x4075_d513),
        Ok(Operation::SRAI {
            shamt: 7,
            rs1: Register::A1,
            rd: Register::A0
        })
    );
    assert_eq!(
        parse_32bit_operation(0x6075_d513),
        Err(DecodeError::InvalidFunct7(5, 0b0110000))
    );
}

#[test]
fn loads_stores_and_jumps() {
    assert_eq!(
        parse_32bit_operation(0xffc1_2403),
        Ok(Operation::LW {
            imm: (-4i16) as u16,
            rs1: Register::SP,
            rd: Register::S0
        })
    );
    assert_eq!(
        parse_32bit_operation(0xfe91_2c23),
        Ok(Operation::SW {
            imm: (-8i16) as u16,
            rs2: Register::S1,
            rs1: Register::SP
        })
    );
    assert_eq!(
        parse_32bit_operation(0xff02_80e7),
        Ok(Operation::JALR {
            rd: Register::RA,
            rs1: Register::T0,
            imm: (-16i16) as u16
        })
    );
    assert_eq!(
        parse_32bit_operation(0x0020_9463),
        Ok(Operation::BNE {
            imm: 8,
            rs1: Register::RA,
            rs2: Register::SP
        })
    );
}

#[test]
fn upper_immediates() {
    assert_eq!(
        parse_32bit_operation(0xabcd_e2b7),
        Ok(Operation::LUI {
            rd: Register::T0,
            imm: 0xabcd_e000
        })
    );
    assert_eq!(
        parse_32bit_operation(0x8000_0317),
        Ok(Operation::AUIPC {
            rd: Register::T1,
            imm: 0x8000_0000
        })
    );
}

#[test]
fn csr_instructions() {
    assert_eq!(
        parse_32bit_operation(0x3051_10f3),
        Ok(Operation::CSRRW {
            csr: 0x305,
            rs1: Register::SP,
            rd: Register::RA
        })
    );
    assert_eq!(
        parse_32bit_operation(0xfff2_e1f3),
        Ok(Operation::CSRRSI {
            csr: 0xfff,
            zimm: 5,
            rd: Register::GP
        })
    );
}

#[test]
fn parse_little_endian_bytes() {
    let r = parse(&[0x13, 0x00, 0x00, 0x00]);
    assert_eq!(
        r,
        Ok(Instruction {
            width: InstructionWidth::Bit32,
            operation: Operation::ADDI {
                imm: 0,
                rs1: Register::ZERO,
                rd: Register::ZERO
            }
        })
    );
    assert_eq!(
        parse(&[0x73, 0x00, 0x10, 0x00, 0xaa]),
        Ok(Instruction {
            width: InstructionWidth::Bit32,
            operation: Operation::EBREAK {}
        })
    );
    assert_eq!(
        parse(&[0x7f, 0x00, 0x00, 0x00]),
        Err(DecodeError::UnrecognizedOpcode(0x7f))
    );
    assert_eq!(decode(0x0000_0013).map(|i| i.is_32bit()), Ok(true));
}
