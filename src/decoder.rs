//! Decoding of a 32-bit RV32I word: fields, immediates and dispatch.
//!
//! Each field and immediate has a spec function that says where its bits
//! stand in the word; the executable helpers are proved to compute exactly
//! those, and `decoded` is the decoding table stated over them.

use vstd::prelude::*;

use crate::instructions::{DecodeError, Operation};
use crate::registers::{register_of, Register};

verus! {

pub const OPCODE_LOAD: u8 = 0b0000011;

pub const OPCODE_OP_IMM: u8 = 0b0010011;

pub const OPCODE_AUIPC: u8 = 0b0010111;

pub const OPCODE_STORE: u8 = 0b0100011;

pub const OPCODE_OP: u8 = 0b0110011;

pub const OPCODE_LUI: u8 = 0b0110111;

pub const OPCODE_BRANCH: u8 = 0b1100011;

pub const OPCODE_JALR: u8 = 0b1100111;

pub const OPCODE_JAL: u8 = 0b1101111;

pub const OPCODE_SYSTEM: u8 = 0b1110011;

/// The class of `FENCE` and `FENCE.I`, which this decoder does not accept.
pub const OPCODE_MISC_MEM: u8 = 0b0001111;

/// The one encoding of `ECALL`.
pub const ECALL_WORD: u32 = 0x0000_0073;

/// The one encoding of `EBREAK`.
pub const EBREAK_WORD: u32 = 0x0010_0073;

/// The one encoding of `MRET`.
pub const MRET_WORD: u32 = 0x3020_0073;

// ---------------------------------------------------------------------
// Fields

/// Bits [6:0].
pub open spec fn opcode(w: u32) -> u8 {
    (w & 0x7f) as u8
}

/// Bits [14:12].
pub open spec fn funct3(w: u32) -> u8 {
    ((w >> 12) & 0x7) as u8
}

/// Bits [31:25].
pub open spec fn funct7(w: u32) -> u8 {
    ((w >> 25) & 0x7f) as u8
}

/// Bits [11:7].
pub open spec fn rd_field(w: u32) -> u8 {
    ((w >> 7) & 0x1f) as u8
}

/// Bits [19:15]; also the `zimm` of the CSR immediate forms.
pub open spec fn rs1_field(w: u32) -> u8 {
    ((w >> 15) & 0x1f) as u8
}

/// Bits [24:20]; also the `shamt` of the shift-immediate forms.
pub open spec fn rs2_field(w: u32) -> u8 {
    ((w >> 20) & 0x1f) as u8
}

/// Bits [31:20], unsigned.
pub open spec fn csr_field(w: u32) -> u16 {
    (w >> 20) as u16
}

pub open spec fn rd_reg(w: u32) -> Register {
    register_of(rd_field(w))
}

pub open spec fn rs1_reg(w: u32) -> Register {
    register_of(rs1_field(w))
}

pub open spec fn rs2_reg(w: u32) -> Register {
    register_of(rs2_field(w))
}

// ---------------------------------------------------------------------
// Sign extension and immediates

/// The low `size` bits set.
pub open spec fn field_mask(size: u32) -> u32 {
    if size >= 32 {
        0xffff_ffffu32
    } else {
        ((1u32 << size) - 1) as u32
    }
}

/// The low `size` bits of `data` as a signed field, extended to 32 bits:
/// where bit `size - 1` is set every bit above it is set, and otherwise
/// every bit above it is clear.
pub open spec fn sign_extended(data: u32, size: u32) -> u32 {
    let low = data & field_mask(size);
    if low & (1u32 << ((size - 1) as u32)) != 0 {
        low | !field_mask(size)
    } else {
        low
    }
}

/// I-format: bits [31:20], signed 12-bit.
pub open spec fn i_imm(w: u32) -> u32 {
    sign_extended(w >> 20, 12)
}

/// S-format: bits [31:25] above bits [11:7], signed 12-bit.
pub open spec fn s_imm(w: u32) -> u32 {
    sign_extended(((w >> 25) << 5) | ((w >> 7) & 0x1f), 12)
}

/// B-format: bit 31 to 12, bits [30:25] to [10:5], bits [11:8] to [4:1],
/// bit 7 to 11, bit 0 clear; signed 13-bit.
pub open spec fn b_imm(w: u32) -> u32 {
    sign_extended(
        ((w >> 31) << 12) | (((w >> 25) & 0x3f) << 5) | (((w >> 8) & 0xf) << 1) | (((w >> 7) & 1)
            << 11),
        13,
    )
}

/// U-format: bits [31:12] in place, the low 12 bits clear.
pub open spec fn u_imm(w: u32) -> u32 {
    w & 0xffff_f000
}

/// J-format: bit 31 to 20, bits [30:21] to [10:1], bit 20 to 11,
/// bits [19:12] in place, bit 0 clear; signed 21-bit.
pub open spec fn j_imm(w: u32) -> u32 {
    sign_extended(
        ((w >> 31) << 20) | (((w >> 21) & 0x3ff) << 1) | (((w >> 20) & 1) << 11) | (((w >> 12)
            & 0xff) << 12),
        21,
    )
}

/// Relies on bitutils::sign_extend32, which computes
/// `((data << (32 - size)) as i32) >> (32 - size)` and panics unless
/// `0 < size <= 32`.
#[verifier::external_body]
fn sign_extend32(data: u32, size: u32) -> (r: i32)
    requires
        1 <= size <= 32,
    ensures
        r as u32 == sign_extended(data, size),
{
    bitutils::sign_extend32(data, size)
}

/// The low `size` bits of `data` sign-extended to 32 bits.
pub fn sign_extend(data: u32, size: u32) -> (r: u32)
    requires
        1 <= size <= 32,
    ensures
        r == sign_extended(data, size),
{
    sign_extend32(data, size) as u32
}

/// The immediate of an I-format word.
pub fn immediate_i(word: u32) -> (r: u32)
    ensures
        r == i_imm(word),
{
    sign_extend(word >> 20, 12)
}

/// The immediate of an S-format word.
pub fn immediate_s(word: u32) -> (r: u32)
    ensures
        r == s_imm(word),
{
    sign_extend(((word >> 25) << 5) | ((word >> 7) & 0x1f), 12)
}

/// The immediate of a B-format word.
pub fn immediate_b(word: u32) -> (r: u32)
    ensures
        r == b_imm(word),
{
    sign_extend(
        ((word >> 31) << 12) | (((word >> 25) & 0x3f) << 5) | (((word >> 8) & 0xf) << 1) | (((word
            >> 7) & 1) << 11),
        13,
    )
}

/// The immediate of a U-format word.
pub fn immediate_u(word: u32) -> (r: u32)
    ensures
        r == u_imm(word),
{
    word & 0xffff_f000
}

/// The immediate of a J-format word.
pub fn immediate_j(word: u32) -> (r: u32)
    ensures
        r == j_imm(word),
{
    sign_extend(
        ((word >> 31) << 20) | (((word >> 21) & 0x3ff) << 1) | (((word >> 20) & 1) << 11) | (((word
            >> 12) & 0xff) << 12),
        21,
    )
}

// ---------------------------------------------------------------------
// Register operands

fn rd_register(w: u32) -> (r: Register)
    ensures
        r == rd_reg(w),
{
    assert(((w >> 7) & 0x1f) < 32) by (bit_vector);
    Register::from_index(((w >> 7) & 0x1f) as u8)
}

fn rs1_register(w: u32) -> (r: Register)
    ensures
        r == rs1_reg(w),
{
    assert(((w >> 15) & 0x1f) < 32) by (bit_vector);
    Register::from_index(((w >> 15) & 0x1f) as u8)
}

fn rs2_register(w: u32) -> (r: Register)
    ensures
        r == rs2_reg(w),
{
    assert(((w >> 20) & 0x1f) < 32) by (bit_vector);
    Register::from_index(((w >> 20) & 0x1f) as u8)
}

// ---------------------------------------------------------------------
// The decoding table

/// OP: register-register arithmetic, selected by funct3 and funct7.
pub open spec fn decoded_op(w: u32) -> Result<Operation, DecodeError> {
    let (rd, rs1, rs2) = (rd_reg(w), rs1_reg(w), rs2_reg(w));
    let f3 = funct3(w);
    let f7 = funct7(w);
    if f7 == 0 {
        Ok(
            if f3 == 0 {
                Operation::ADD { rs2, rs1, rd }
            } else if f3 == 1 {
                Operation::SLL { rs2, rs1, rd }
            } else if f3 == 2 {
                Operation::SLT { rs2, rs1, rd }
            } else if f3 == 3 {
                Operation::SLTU { rs2, rs1, rd }
            } else if f3 == 4 {
                Operation::XOR { rs2, rs1, rd }
            } else if f3 == 5 {
                Operation::SRL { rs2, rs1, rd }
            } else if f3 == 6 {
                Operation::OR { rs2, rs1, rd }
            } else {
                Operation::AND { rs2, rs1, rd }
            },
        )
    } else if f7 == 0b0100000 && f3 == 0 {
        Ok(Operation::SUB { rs2, rs1, rd })
    } else if f7 == 0b0100000 && f3 == 5 {
        Ok(Operation::SRA { rs2, rs1, rd })
    } else {
        Err(DecodeError::InvalidFunct7(f3, f7))
    }
}

/// OP-IMM: arithmetic with an I-format immediate, and the shifts by `shamt`.
pub open spec fn decoded_op_imm(w: u32) -> Result<Operation, DecodeError> {
    let (rd, rs1) = (rd_reg(w), rs1_reg(w));
    let imm = i_imm(w) as u16;
    let shamt = rs2_field(w);
    let f3 = funct3(w);
    if f3 == 0 {
        Ok(Operation::ADDI { imm, rs1, rd })
    } else if f3 == 1 {
        Ok(Operation::SLLI { shamt, rs1, rd })
    } else if f3 == 2 {
        Ok(Operation::SLTI { imm, rs1, rd })
    } else if f3 == 3 {
        Ok(Operation::SLTIU { imm, rs1, rd })
    } else if f3 == 4 {
        Ok(Operation::XORI { imm, rs1, rd })
    } else if f3 == 5 {
        if funct7(w) == 0 {
            Ok(Operation::SRLI { shamt, rs1, rd })
        } else if funct7(w) == 0b0100000 {
            Ok(Operation::SRAI { shamt, rs1, rd })
        } else {
            Err(DecodeError::InvalidFunct7(f3, funct7(w)))
        }
    } else if f3 == 6 {
        Ok(Operation::ORI { imm, rs1, rd })
    } else {
        Ok(Operation::ANDI { imm, rs1, rd })
    }
}

/// LOAD: the five loads, with an I-format offset.
pub open spec fn decoded_load(w: u32) -> Result<Operation, DecodeError> {
    let (rd, rs1) = (rd_reg(w), rs1_reg(w));
    let imm = i_imm(w) as u16;
    let f3 = funct3(w);
    if f3 == 0 {
        Ok(Operation::LB { imm, rs1, rd })
    } else if f3 == 1 {
        Ok(Operation::LH { imm, rs1, rd })
    } else if f3 == 2 {
        Ok(Operation::LW { imm, rs1, rd })
    } else if f3 == 4 {
        Ok(Operation::LBU { imm, rs1, rd })
    } else if f3 == 5 {
        Ok(Operation::LHU { imm, rs1, rd })
    } else {
        Err(DecodeError::InvalidFunct3(OPCODE_LOAD, f3))
    }
}

/// STORE: the three stores, with an S-format offset.
pub open spec fn decoded_store(w: u32) -> Result<Operation, DecodeError> {
    let (rs1, rs2) = (rs1_reg(w), rs2_reg(w));
    let imm = s_imm(w) as u16;
    let f3 = funct3(w);
    if f3 == 0 {
        Ok(Operation::SB { imm, rs2, rs1 })
    } else if f3 == 1 {
        Ok(Operation::SH { imm, rs2, rs1 })
    } else if f3 == 2 {
        Ok(Operation::SW { imm, rs2, rs1 })
    } else {
        Err(DecodeError::InvalidFunct3(OPCODE_STORE, f3))
    }
}

/// BRANCH: the six conditional branches, with a B-format offset.
pub open spec fn decoded_branch(w: u32) -> Result<Operation, DecodeError> {
    let (rs1, rs2) = (rs1_reg(w), rs2_reg(w));
    let imm = b_imm(w) as u16;
    let f3 = funct3(w);
    if f3 == 0 {
        Ok(Operation::BEQ { imm, rs1, rs2 })
    } else if f3 == 1 {
        Ok(Operation::BNE { imm, rs1, rs2 })
    } else if f3 == 4 {
        Ok(Operation::BLT { imm, rs1, rs2 })
    } else if f3 == 5 {
        Ok(Operation::BGE { imm, rs1, rs2 })
    } else if f3 == 6 {
        Ok(Operation::BLTU { imm, rs1, rs2 })
    } else if f3 == 7 {
        Ok(Operation::BGEU { imm, rs1, rs2 })
    } else {
        Err(DecodeError::InvalidFunct3(OPCODE_BRANCH, f3))
    }
}

/// SYSTEM: the fixed words of `MRET`, `ECALL` and `EBREAK`, then the six
/// CSR instructions by funct3.
pub open spec fn decoded_system(w: u32) -> Result<Operation, DecodeError> {
    let (rd, rs1) = (rd_reg(w), rs1_reg(w));
    let csr = csr_field(w);
    let zimm = rs1_field(w);
    let f3 = funct3(w);
    if w == MRET_WORD {
        Ok(Operation::MRET {  })
    } else if w == ECALL_WORD {
        Ok(Operation::ECALL {  })
    } else if w == EBREAK_WORD {
        Ok(Operation::EBREAK {  })
    } else if f3 == 1 {
        Ok(Operation::CSRRW { csr, rs1, rd })
    } else if f3 == 2 {
        Ok(Operation::CSRRS { csr, rs1, rd })
    } else if f3 == 3 {
        Ok(Operation::CSRRC { csr, rs1, rd })
    } else if f3 == 5 {
        Ok(Operation::CSRRWI { csr, zimm, rd })
    } else if f3 == 6 {
        Ok(Operation::CSRRSI { csr, zimm, rd })
    } else if f3 == 7 {
        Ok(Operation::CSRRCI { csr, zimm, rd })
    } else {
        Err(DecodeError::InvalidFunct3(OPCODE_SYSTEM, f3))
    }
}

/// Whether `op` is one of the ten opcodes that decode.
pub open spec fn is_known_opcode(op: u8) -> bool {
    op == OPCODE_OP || op == OPCODE_OP_IMM || op == OPCODE_LOAD || op == OPCODE_STORE || op
        == OPCODE_BRANCH || op == OPCODE_JALR || op == OPCODE_JAL || op == OPCODE_LUI || op
        == OPCODE_AUIPC || op == OPCODE_SYSTEM
}

/// What a word decodes to: the handler of its opcode, or
/// `UnrecognizedOpcode` for any other opcode.
pub open spec fn decoded(w: u32) -> Result<Operation, DecodeError> {
    let op = opcode(w);
    if op == OPCODE_OP {
        decoded_op(w)
    } else if op == OPCODE_OP_IMM {
        decoded_op_imm(w)
    } else if op == OPCODE_LOAD {
        decoded_load(w)
    } else if op == OPCODE_STORE {
        decoded_store(w)
    } else if op == OPCODE_BRANCH {
        decoded_branch(w)
    } else if op == OPCODE_JALR {
        Ok(Operation::JALR { rd: rd_reg(w), rs1: rs1_reg(w), imm: i_imm(w) as u16 })
    } else if op == OPCODE_JAL {
        Ok(Operation::JAL { rd: rd_reg(w), imm: j_imm(w) })
    } else if op == OPCODE_LUI {
        Ok(Operation::LUI { rd: rd_reg(w), imm: u_imm(w) })
    } else if op == OPCODE_AUIPC {
        Ok(Operation::AUIPC { rd: rd_reg(w), imm: u_imm(w) })
    } else if op == OPCODE_SYSTEM {
        decoded_system(w)
    } else {
        Err(DecodeError::UnrecognizedOpcode(op))
    }
}

fn decode_op(w: u32) -> (r: Result<Operation, DecodeError>)
    ensures
        r == decoded_op(w),
{
    let rd = rd_register(w);
    let rs1 = rs1_register(w);
    let rs2 = rs2_register(w);
    let f3 = ((w >> 12) & 0x7) as u8;
    let f7 = ((w >> 25) & 0x7f) as u8;
    if f7 == 0 {
        Ok(
            match f3 {
                0 => Operation::ADD { rs2, rs1, rd },
                1 => Operation::SLL { rs2, rs1, rd },
                2 => Operation::SLT { rs2, rs1, rd },
                3 => Operation::SLTU { rs2, rs1, rd },
                4 => Operation::XOR { rs2, rs1, rd },
                5 => Operation::SRL { rs2, rs1, rd },
                6 => Operation::OR { rs2, rs1, rd },
                _ => Operation::AND { rs2, rs1, rd },
            },
        )
    } else if f7 == 0b0100000 && f3 == 0 {
        Ok(Operation::SUB { rs2, rs1, rd })
    } else if f7 == 0b0100000 && f3 == 5 {
        Ok(Operation::SRA { rs2, rs1, rd })
    } else {
        Err(DecodeError::InvalidFunct7(f3, f7))
    }
}

fn decode_op_imm(w: u32) -> (r: Result<Operation, DecodeError>)
    ensures
        r == decoded_op_imm(w),
{
    let rd = rd_register(w);
    let rs1 = rs1_register(w);
    let imm = immediate_i(w) as u16;
    let shamt = ((w >> 20) & 0x1f) as u8;
    let f3 = ((w >> 12) & 0x7) as u8;
    let f7 = ((w >> 25) & 0x7f) as u8;
    match f3 {
        0 => Ok(Operation::ADDI { imm, rs1, rd }),
        1 => Ok(Operation::SLLI { shamt, rs1, rd }),
        2 => Ok(Operation::SLTI { imm, rs1, rd }),
        3 => Ok(Operation::SLTIU { imm, rs1, rd }),
        4 => Ok(Operation::XORI { imm, rs1, rd }),
        5 => {
            if f7 == 0 {
                Ok(Operation::SRLI { shamt, rs1, rd })
            } else if f7 == 0b0100000 {
                Ok(Operation::SRAI { shamt, rs1, rd })
            } else {
                Err(DecodeError::InvalidFunct7(f3, f7))
            }
        },
        6 => Ok(Operation::ORI { imm, rs1, rd }),
        _ => Ok(Operation::ANDI { imm, rs1, rd }),
    }
}

fn decode_load(w: u32) -> (r: Result<Operation, DecodeError>)
    ensures
        r == decoded_load(w),
{
    let rd = rd_register(w);
    let rs1 = rs1_register(w);
    let imm = immediate_i(w) as u16;
    let f3 = ((w >> 12) & 0x7) as u8;
    match f3 {
        0 => Ok(Operation::LB { imm, rs1, rd }),
        1 => Ok(Operation::LH { imm, rs1, rd }),
        2 => Ok(Operation::LW { imm, rs1, rd }),
        4 => Ok(Operation::LBU { imm, rs1, rd }),
        5 => Ok(Operation::LHU { imm, rs1, rd }),
        _ => Err(DecodeError::InvalidFunct3(OPCODE_LOAD, f3)),
    }
}

fn decode_store(w: u32) -> (r: Result<Operation, DecodeError>)
    ensures
        r == decoded_store(w),
{
    let rs1 = rs1_register(w);
    let rs2 = rs2_register(w);
    let imm = immediate_s(w) as u16;
    let f3 = ((w >> 12) & 0x7) as u8;
    match f3 {
        0 => Ok(Operation::SB { imm, rs2, rs1 }),
        1 => Ok(Operation::SH { imm, rs2, rs1 }),
        2 => Ok(Operation::SW { imm, rs2, rs1 }),
        _ => Err(DecodeError::InvalidFunct3(OPCODE_STORE, f3)),
    }
}

fn decode_branch(w: u32) -> (r: Result<Operation, DecodeError>)
    ensures
        r == decoded_branch(w),
{
    let rs1 = rs1_register(w);
    let rs2 = rs2_register(w);
    let imm = immediate_b(w) as u16;
    let f3 = ((w >> 12) & 0x7) as u8;
    match f3 {
        0 => Ok(Operation::BEQ { imm, rs1, rs2 }),
        1 => Ok(Operation::BNE { imm, rs1, rs2 }),
        4 => Ok(Operation::BLT { imm, rs1, rs2 }),
        5 => Ok(Operation::BGE { imm, rs1, rs2 }),
        6 => Ok(Operation::BLTU { imm, rs1, rs2 }),
        7 => Ok(Operation::BGEU { imm, rs1, rs2 }),
        _ => Err(DecodeError::InvalidFunct3(OPCODE_BRANCH, f3)),
    }
}

fn decode_system(w: u32) -> (r: Result<Operation, DecodeError>)
    ensures
        r == decoded_system(w),
{
    let rd = rd_register(w);
    let rs1 = rs1_register(w);
    let csr = (w >> 20) as u16;
    let zimm = ((w >> 15) & 0x1f) as u8;
    let f3 = ((w >> 12) & 0x7) as u8;
    if w == MRET_WORD {
        Ok(Operation::MRET {  })
    } else if w == ECALL_WORD {
        Ok(Operation::ECALL {  })
    } else if w == EBREAK_WORD {
        Ok(Operation::EBREAK {  })
    } else {
        match f3 {
            1 => Ok(Operation::CSRRW { csr, rs1, rd }),
            2 => Ok(Operation::CSRRS { csr, rs1, rd }),
            3 => Ok(Operation::CSRRC { csr, rs1, rd }),
            5 => Ok(Operation::CSRRWI { csr, zimm, rd }),
            6 => Ok(Operation::CSRRSI { csr, zimm, rd }),
            7 => Ok(Operation::CSRRCI { csr, zimm, rd }),
            _ => Err(DecodeError::InvalidFunct3(OPCODE_SYSTEM, f3)),
        }
    }
}

/// Decodes one instruction word: the operation it encodes, or the first
/// field that names none.
pub fn parse_32bit_operation(instruction: u32) -> (r: Result<Operation, DecodeError>)
    ensures
        r == decoded(instruction),
{
    let opcode = (instruction & 0x7f) as u8;
    if opcode == OPCODE_OP {
        decode_op(instruction)
    } else if opcode == OPCODE_OP_IMM {
        decode_op_imm(instruction)
    } else if opcode == OPCODE_LOAD {
        decode_load(instruction)
    } else if opcode == OPCODE_STORE {
        decode_store(instruction)
    } else if opcode == OPCODE_BRANCH {
        decode_branch(instruction)
    } else if opcode == OPCODE_JALR {
        let imm = immediate_i(instruction) as u16;
        Ok(Operation::JALR { rd: rd_register(instruction), rs1: rs1_register(instruction), imm })
    } else if opcode == OPCODE_JAL {
        Ok(Operation::JAL { rd: rd_register(instruction), imm: immediate_j(instruction) })
    } else if opcode == OPCODE_LUI {
        Ok(Operation::LUI { rd: rd_register(instruction), imm: immediate_u(instruction) })
    } else if opcode == OPCODE_AUIPC {
        Ok(Operation::AUIPC { rd: rd_register(instruction), imm: immediate_u(instruction) })
    } else if opcode == OPCODE_SYSTEM {
        decode_system(instruction)
    } else {
        Err(DecodeError::UnrecognizedOpcode(opcode))
    }
}

} // verus!
