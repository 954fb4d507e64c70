//! Facts about the decoder that span several of its functions.

use vstd::arithmetic::power2::{lemma2_to64, lemma_pow2_unfold, pow2};
use vstd::prelude::*;

use crate::decoder::{
    b_imm, decoded, field_mask, funct3, funct7, is_known_opcode, j_imm, opcode, sign_extended,
    OPCODE_AUIPC, OPCODE_BRANCH, OPCODE_JAL, OPCODE_JALR, OPCODE_LOAD, OPCODE_LUI,
    OPCODE_MISC_MEM, OPCODE_OP, OPCODE_OP_IMM, OPCODE_STORE, OPCODE_SYSTEM,
};
use crate::instructions::{DecodeError, Operation};

verus! {

/// The opcode of the encoding class that `op` belongs to.
pub open spec fn opcode_class(op: Operation) -> u8 {
    match op {
        Operation::LUI { .. } => OPCODE_LUI,
        Operation::AUIPC { .. } => OPCODE_AUIPC,
        Operation::JAL { .. } => OPCODE_JAL,
        Operation::JALR { .. } => OPCODE_JALR,
        Operation::BEQ { .. }
        | Operation::BNE { .. }
        | Operation::BLT { .. }
        | Operation::BGE { .. }
        | Operation::BLTU { .. }
        | Operation::BGEU { .. } => OPCODE_BRANCH,
        Operation::LB { .. }
        | Operation::LH { .. }
        | Operation::LW { .. }
        | Operation::LBU { .. }
        | Operation::LHU { .. } => OPCODE_LOAD,
        Operation::SB { .. }
        | Operation::SH { .. }
        | Operation::SW { .. } => OPCODE_STORE,
        Operation::ADDI { .. }
        | Operation::SLTI { .. }
        | Operation::SLTIU { .. }
        | Operation::XORI { .. }
        | Operation::ORI { .. }
        | Operation::ANDI { .. }
        | Operation::SLLI { .. }
        | Operation::SRLI { .. }
        | Operation::SRAI { .. } => OPCODE_OP_IMM,
        Operation::ADD { .. }
        | Operation::SUB { .. }
        | Operation::SLL { .. }
        | Operation::SLT { .. }
        | Operation::SLTU { .. }
        | Operation::XOR { .. }
        | Operation::SRL { .. }
        | Operation::SRA { .. }
        | Operation::OR { .. }
        | Operation::AND { .. } => OPCODE_OP,
        Operation::ECALL { .. }
        | Operation::EBREAK { .. }
        | Operation::MRET { .. }
        | Operation::CSRRW { .. }
        | Operation::CSRRS { .. }
        | Operation::CSRRC { .. }
        | Operation::CSRRWI { .. }
        | Operation::CSRRSI { .. }
        | Operation::CSRRCI { .. } => OPCODE_SYSTEM,
        Operation::FENCE { .. }
        | Operation::FENCE_I { .. } => OPCODE_MISC_MEM,
    }
}

/// Every word decodes: a word with one of the ten known opcodes gives an
/// operation of that opcode's class or an error on its funct3 or funct7,
/// and any other word gives `UnrecognizedOpcode` with its opcode. No word
/// gives `InvalidRegister`.
pub proof fn lemma_opcode_classification(w: u32)
    ensures
        !is_known_opcode(opcode(w)) ==> decoded(w) == Err::<Operation, DecodeError>(
            DecodeError::UnrecognizedOpcode(opcode(w)),
        ),
        is_known_opcode(opcode(w)) ==> match decoded(w) {
            Ok(op) => opcode_class(op) == opcode(w),
            Err(DecodeError::InvalidFunct3(o, f3)) => o == opcode(w) && f3 == funct3(w),
            Err(DecodeError::InvalidFunct7(f3, f7)) => f3 == funct3(w) && f7 == funct7(w),
            Err(_) => false,
        },
{
}

/// The widths of the sign-extended fields that the decoder uses.
proof fn lemma_field_masks()
    ensures
        field_mask(12) == 0xfffu32,
        field_mask(13) == 0x1fffu32,
        field_mask(21) == 0x1f_ffffu32,
{
    assert(((1u32 << 12u32) - 1) as u32 == 0xfffu32) by (bit_vector);
    assert(((1u32 << 13u32) - 1) as u32 == 0x1fffu32) by (bit_vector);
    assert(((1u32 << 21u32) - 1) as u32 == 0x1f_ffffu32) by (bit_vector);
}

/// A branch word whose only offset bit is the sign bit (bit 31) has the
/// most negative branch offset, -4096, in 32-bit two's complement; as the
/// 16-bit field of a branch operation it is -4096 too.
pub proof fn lemma_branch_most_negative(w: u32)
    requires
        w & 0xfe00_0f80 == 0x8000_0000,
    ensures
        b_imm(w) == 0xffff_f000u32,
        b_imm(w) as u16 == 0xf000u16,
{
    lemma_field_masks();
    assert(w & 0xfe00_0f80 == 0x8000_0000 ==> (((w >> 31) << 12) | (((w >> 25) & 0x3f) << 5) | (((w >> 8) & 0xf) << 1) | (((w >> 7) & 1) << 11)) & 0x1fff == 0x1000) by (bit_vector);
    assert((0x1000u32 & (1u32 << 12u32)) != 0 && (0x1000u32 | !0x1fffu32) == 0xffff_f000u32)
        by (bit_vector);
    assert(0xffff_f000u32 as u16 == 0xf000u16) by (bit_vector);
}

/// Branch and jump offsets are even: bit 0 of each is clear.
pub proof fn lemma_offsets_even(w: u32)
    ensures
        b_imm(w) & 1 == 0,
        j_imm(w) & 1 == 0,
{
    lemma_field_masks();
    assert(((((w >> 31) << 12) | (((w >> 25) & 0x3f) << 5) | (((w >> 8) & 0xf) << 1) | (((w >> 7) & 1) << 11)) & 0x1fff) & 1 == 0) by (bit_vector);
    assert((((((w >> 31) << 12) | (((w >> 25) & 0x3f) << 5) | (((w >> 8) & 0xf) << 1) | (((w >> 7) & 1) << 11)) & 0x1fff) | !0x1fffu32) & 1 == 0) by (bit_vector);
    assert(((((w >> 31) << 20) | (((w >> 21) & 0x3ff) << 1) | (((w >> 20) & 1) << 11) | (((w >> 12) & 0xff) << 12)) & 0x1f_ffff) & 1 == 0) by (bit_vector);
    assert((((((w >> 31) << 20) | (((w >> 21) & 0x3ff) << 1) | (((w >> 20) & 1) << 11) | (((w >> 12) & 0xff) << 12)) & 0x1f_ffff) | !0x1f_ffffu32) & 1 == 0) by (bit_vector);
}

/// Bit `size - 1` of `data`: the sign bit of a `size`-bit field.
pub open spec fn sign_bit_set(data: u32, size: u32) -> bool {
    data & (1u32 << ((size - 1) as u32)) != 0
}

/// The low `size` bits set are `2^size - 1`.
proof fn lemma_field_mask_pow2(size: u32)
    requires
        1 <= size <= 32,
    ensures
        field_mask(size) as int == pow2(size as nat) - 1,
    decreases size,
{
    lemma2_to64();
    if size == 1 {
        assert(((1u32 << 1u32) - 1) as u32 == 1u32) by (bit_vector);
    } else if size < 32 {
        let s = (size - 1) as u32;
        lemma_field_mask_pow2(s);
        assert(size == s + 1 && 1 <= s && s < 31 ==> ((1u32 << size) - 1) as u32 == (2 * (((1u32
            << s) - 1) as u32) + 1) as u32 && (((1u32 << s) - 1) as u32) < 0x8000_0000u32)
            by (bit_vector);
        lemma_pow2_unfold(size as nat);
    }
}

/// Sign extension of a `size`-bit field, whose value is the low `size` bits
/// of `data`: with the sign bit set, the result is the 32-bit two's
/// complement encoding of that value minus `2^size`, a negative number;
/// with it clear, the result is that value, every higher bit zero.
pub proof fn lemma_sign_extension(data: u32, size: u32)
    requires
        1 <= size <= 32,
    ensures
        ({
            let low = data & field_mask(size);
            &&& (low as int) < pow2(size as nat)
            &&& sign_bit_set(data, size) ==> sign_extended(data, size) as int == low as int - pow2(
                size as nat,
            ) + pow2(32)
            &&& !sign_bit_set(data, size) ==> sign_extended(data, size) == low
        }),
{
    lemma2_to64();
    lemma_field_mask_pow2(size);
    let m = field_mask(size);
    let low = data & m;
    let bit = 1u32 << ((size - 1) as u32);
    assert(low <= m) by (bit_vector)
        requires
            low == data & m,
    ;
    assert(((low | !m) - low) as u32 == !m && (low | !m) >= low && !m == (0xffff_ffffu32 - m) as u32)
        by (bit_vector)
        requires
            low == data & m,
    ;
    assert((low & bit != 0) == (data & bit != 0)) by (bit_vector)
        requires
            low == data & m,
            size == 32 ==> m == 0xffff_ffffu32,
            size < 32 ==> m == ((1u32 << size) - 1) as u32,
            bit == 1u32 << ((size - 1) as u32),
            1 <= size <= 32,
    ;
}

} // verus!
