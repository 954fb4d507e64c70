//! A decoder for 32-bit RISC-V base integer (RV32I) instructions, with the
//! machine-mode CSR instructions.
//!
//! `decode` turns an instruction word into an [`Instruction`]; `parse` does
//! the same for the four little-endian bytes of the word.

use vstd::prelude::*;

pub mod decoder;
pub mod instructions;
pub mod lemmas;
pub mod registers;

pub use decoder::parse_32bit_operation;
pub use instructions::{DecodeError, Instruction, InstructionWidth, Operation};
pub use registers::{register_list_from_bit_array, Register};

use decoder::decoded;

verus! {

/// The word whose least significant byte is `b[0]` and most significant
/// byte is `b[3]`.
pub open spec fn word_from_le_bytes(b: Seq<u8>) -> u32
    recommends
        b.len() >= 4,
{
    (b[0] as u32) | ((b[1] as u32) << 8u32) | ((b[2] as u32) << 16u32) | ((b[3] as u32) << 24u32)
}

/// A 32-bit instruction carrying the operation of `w`, or the error that
/// decoding `w` gives.
pub open spec fn decoded_instruction(w: u32) -> Result<Instruction, DecodeError> {
    match decoded(w) {
        Ok(operation) => Ok(Instruction { width: InstructionWidth::Bit32, operation }),
        Err(e) => Err(e),
    }
}

/// Decodes one 32-bit instruction word.
pub fn decode(word: u32) -> (r: Result<Instruction, DecodeError>)
    ensures
        r == decoded_instruction(word),
{
    match parse_32bit_operation(word) {
        Ok(operation) => Ok(Instruction { width: InstructionWidth::Bit32, operation }),
        Err(e) => Err(e),
    }
}

/// Decodes the instruction whose word is held little-endian in the first
/// four bytes of `input`.
pub fn parse(input: &[u8]) -> (r: Result<Instruction, DecodeError>)
    requires
        input@.len() >= 4,
    ensures
        r == decoded_instruction(word_from_le_bytes(input@)),
{
    let word = (input[0] as u32) | ((input[1] as u32) << 8u32) | ((input[2] as u32) << 16u32) | ((
    input[3] as u32) << 24u32);
    decode(word)
}

} // verus!
