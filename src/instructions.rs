//! The decoded form of an instruction word.

use vstd::prelude::*;

use crate::registers::Register;

verus! {

/// A decoded instruction: its encoding width and what it does.
#[derive(Debug, Clone, Copy, PartialEq, Eq, Structural)]
pub struct Instruction {
    pub width: InstructionWidth,
    pub operation: Operation,
}

/// The width of an instruction's binary encoding.
#[derive(Debug, Clone, Copy, PartialEq, Eq, Structural)]
pub enum InstructionWidth {
    Bit32,
}

impl Instruction {
    /// Whether the instruction was encoded in 32 bits.
    pub fn is_32bit(&self) -> (r: bool)
        ensures
            r == (self.width == InstructionWidth::Bit32),
    {
        match self.width {
            InstructionWidth::Bit32 => true,
        }
    }
}

/// What an instruction does, with its operands.
///
/// Register operands are resolved registers. An immediate of 12 or 13
/// significant bits is held sign-extended in a `u16`; the immediates of
/// `LUI`, `AUIPC` and `JAL` are held as 32-bit two's complement values.
/// `csr` is the unsigned 12-bit CSR index and `zimm` the unsigned 5-bit
/// immediate of the CSR instructions; `shamt` is the unsigned 5-bit shift
/// amount.
#[allow(non_camel_case_types, inconsistent_fields)]
#[derive(Debug, Clone, Copy, PartialEq, Eq, Structural)]
pub enum Operation {
    LUI {
        rd: Register,
        imm: u32,
    },
    AUIPC {
        rd: Register,
        imm: u32,
    },
    JAL {
        rd: Register,
        imm: u32,
    },
    JALR {
        rd: Register,
        rs1: Register,
        imm: u16,
    },
    BEQ {
        imm: u16,
        rs1: Register,
        rs2: Register,
    },
    BNE {
        imm: u16,
        rs1: Register,
        rs2: Register,
    },
    BLT {
        imm: u16,
        rs1: Register,
        rs2: Register,
    },
    BGE {
        imm: u16,
        rs1: Register,
        rs2: Register,
    },
    BLTU {
        imm: u16,
        rs1: Register,
        rs2: Register,
    },
    BGEU {
        imm: u16,
        rs1: Register,
        rs2: Register,
    },
    LB {
        imm: u16,
        rs1: Register,
        rd: Register,
    },
    LH {
        imm: u16,
        rs1: Register,
        rd: Register,
    },
    LW {
        imm: u16,
        rs1: Register,
        rd: Register,
    },
    LBU {
        imm: u16,
        rs1: Register,
        rd: Register,
    },
    LHU {
        imm: u16,
        rs1: Register,
        rd: Register,
    },
    SB {
        imm: u16,
        rs2: Register,
        rs1: Register,
    },
    SH {
        imm: u16,
        rs2: Register,
        rs1: Register,
    },
    SW {
        imm: u16,
        rs2: Register,
        rs1: Register,
    },
    ADDI {
        imm: u16,
        rs1: Register,
        rd: Register,
    },
    SLTI {
        imm: u16,
        rs1: Register,
        rd: Register,
    },
    SLTIU {
        imm: u16,
        rs1: Register,
        rd: Register,
    },
    XORI {
        imm: u16,
        rs1: Register,
        rd: Register,
    },
    ORI {
        imm: u16,
        rs1: Register,
        rd: Register,
    },
    ANDI {
        imm: u16,
        rs1: Register,
        rd: Register,
    },
    SLLI {
        shamt: u8,
        rs1: Register,
        rd: Register,
    },
    SRLI {
        shamt: u8,
        rs1: Register,
        rd: Register,
    },
    SRAI {
        shamt: u8,
        rs1: Register,
        rd: Register,
    },
    ADD {
        rs2: Register,
        rs1: Register,
        rd: Register,
    },
    SUB {
        rs2: Register,
        rs1: Register,
        rd: Register,
    },
    SLL {
        rs2: Register,
        rs1: Register,
        rd: Register,
    },
    SLT {
        rs2: Register,
        rs1: Register,
        rd: Register,
    },
    SLTU {
        rs2: Register,
        rs1: Register,
        rd: Register,
    },
    XOR {
        rs2: Register,
        rs1: Register,
        rd: Register,
    },
    SRL {
        rs2: Register,
        rs1: Register,
        rd: Register,
    },
    SRA {
        rs2: Register,
        rs1: Register,
        rd: Register,
    },
    OR {
        rs2: Register,
        rs1: Register,
        rd: Register,
    },
    AND {
        rs2: Register,
        rs1: Register,
        rd: Register,
    },
    FENCE {},
    FENCE_I {},
    ECALL {},
    EBREAK {},
    MRET {},
    CSRRW {
        csr: u16,
        rs1: Register,
        rd: Register,
    },
    CSRRS {
        csr: u16,
        rs1: Register,
        rd: Register,
    },
    CSRRC {
        csr: u16,
        rs1: Register,
        rd: Register,
    },
    CSRRWI {
        csr: u16,
        zimm: u8,
        rd: Register,
    },
    CSRRSI {
        csr: u16,
        zimm: u8,
        rd: Register,
    },
    CSRRCI {
        csr: u16,
        zimm: u8,
        rd: Register,
    },
}

/// Why a word does not decode.
#[derive(Debug, Clone, Copy, PartialEq, Eq, Structural)]
pub enum DecodeError {
    /// The low 7 bits name no known opcode.
    UnrecognizedOpcode(u8),
    /// The opcode (first) has no instruction with this funct3 (second).
    InvalidFunct3(u8, u8),
    /// The funct3 (first) has no instruction with this funct7 (second).
    InvalidFunct7(u8, u8),
    /// A register index outside `0..32`.
    InvalidRegister(u8),
}

} // verus!
