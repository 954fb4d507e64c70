//! The integer register file: names for the 32 architectural registers and
//! the mapping between a register and its 5-bit index.

use vstd::prelude::*;

use crate::instructions::DecodeError;

verus! {

/// One of the 32 integer registers, by its ABI name.
#[derive(Debug, Clone, Copy, PartialEq, Eq, Structural)]
pub enum Register {
    ZERO,
    RA,
    SP,
    GP,
    TP,
    T0,
    T1,
    T2,
    S0,
    S1,
    A0,
    A1,
    A2,
    A3,
    A4,
    A5,
    A6,
    A7,
    S2,
    S3,
    S4,
    S5,
    S6,
    S7,
    S8,
    S9,
    S10,
    S11,
    T3,
    T4,
    T5,
    T6,
}

/// The register whose index is `i`, for `i` in `0..32`.
pub open spec fn register_of(i: u8) -> Register
    recommends
        i < 32,
{
    match i {
        0 => Register::ZERO,
        1 => Register::RA,
        2 => Register::SP,
        3 => Register::GP,
        4 => Register::TP,
        5 => Register::T0,
        6 => Register::T1,
        7 => Register::T2,
        8 => Register::S0,
        9 => Register::S1,
        10 => Register::A0,
        11 => Register::A1,
        12 => Register::A2,
        13 => Register::A3,
        14 => Register::A4,
        15 => Register::A5,
        16 => Register::A6,
        17 => Register::A7,
        18 => Register::S2,
        19 => Register::S3,
        20 => Register::S4,
        21 => Register::S5,
        22 => Register::S6,
        23 => Register::S7,
        24 => Register::S8,
        25 => Register::S9,
        26 => Register::S10,
        27 => Register::S11,
        28 => Register::T3,
        29 => Register::T4,
        30 => Register::T5,
        _ => Register::T6,
    }
}

impl Register {
    /// The 5-bit index of the register.
    pub open spec fn index(self) -> u8 {
        match self {
            Register::ZERO => 0,
            Register::RA => 1,
            Register::SP => 2,
            Register::GP => 3,
            Register::TP => 4,
            Register::T0 => 5,
            Register::T1 => 6,
            Register::T2 => 7,
            Register::S0 => 8,
            Register::S1 => 9,
            Register::A0 => 10,
            Register::A1 => 11,
            Register::A2 => 12,
            Register::A3 => 13,
            Register::A4 => 14,
            Register::A5 => 15,
            Register::A6 => 16,
            Register::A7 => 17,
            Register::S2 => 18,
            Register::S3 => 19,
            Register::S4 => 20,
            Register::S5 => 21,
            Register::S6 => 22,
            Register::S7 => 23,
            Register::S8 => 24,
            Register::S9 => 25,
            Register::S10 => 26,
            Register::S11 => 27,
            Register::T3 => 28,
            Register::T4 => 29,
            Register::T5 => 30,
            Register::T6 => 31,
        }
    }

    /// The register table read in the other direction: `Ok` for an index
    /// below 32, `InvalidRegister` for any other byte.
    pub open spec fn resolve_spec(value: u8) -> Result<Register, DecodeError> {
        if value < 32 {
            Ok(register_of(value))
        } else {
            Err(DecodeError::InvalidRegister(value))
        }
    }

    /// The 5-bit index of the register.
    pub fn to_index(self) -> (r: u8)
        ensures
            r == self.index(),
            r < 32,
    {
        match self {
            Register::ZERO => 0,
            Register::RA => 1,
            Register::SP => 2,
            Register::GP => 3,
            Register::TP => 4,
            Register::T0 => 5,
            Register::T1 => 6,
            Register::T2 => 7,
            Register::S0 => 8,
            Register::S1 => 9,
            Register::A0 => 10,
            Register::A1 => 11,
            Register::A2 => 12,
            Register::A3 => 13,
            Register::A4 => 14,
            Register::A5 => 15,
            Register::A6 => 16,
            Register::A7 => 17,
            Register::S2 => 18,
            Register::S3 => 19,
            Register::S4 => 20,
            Register::S5 => 21,
            Register::S6 => 22,
            Register::S7 => 23,
            Register::S8 => 24,
            Register::S9 => 25,
            Register::S10 => 26,
            Register::S11 => 27,
            Register::T3 => 28,
            Register::T4 => 29,
            Register::T5 => 30,
            Register::T6 => 31,
        }
    }

    /// The register with index `i`.
    pub fn from_index(i: u8) -> (r: Register)
        requires
            i < 32,
        ensures
            r == register_of(i),
            r.index() == i,
    {
        match i {
            0 => Register::ZERO,
            1 => Register::RA,
            2 => Register::SP,
            3 => Register::GP,
            4 => Register::TP,
            5 => Register::T0,
            6 => Register::T1,
            7 => Register::T2,
            8 => Register::S0,
            9 => Register::S1,
            10 => Register::A0,
            11 => Register::A1,
            12 => Register::A2,
            13 => Register::A3,
            14 => Register::A4,
            15 => Register::A5,
            16 => Register::A6,
            17 => Register::A7,
            18 => Register::S2,
            19 => Register::S3,
            20 => Register::S4,
            21 => Register::S5,
            22 => Register::S6,
            23 => Register::S7,
            24 => Register::S8,
            25 => Register::S9,
            26 => Register::S10,
            27 => Register::S11,
            28 => Register::T3,
            29 => Register::T4,
            30 => Register::T5,
            _ => Register::T6,
        }
    }

    /// The register with index `value`, or `InvalidRegister(value)` where
    /// `value` is 32 or more.
    pub fn resolve(value: u8) -> (r: Result<Register, DecodeError>)
        ensures
            r == Register::resolve_spec(value),
    {
        if value < 32 {
            Ok(Register::from_index(value))
        } else {
            Err(DecodeError::InvalidRegister(value))
        }
    }
}

impl TryFrom<u8> for Register {
    type Error = DecodeError;

    fn try_from(value: u8) -> (r: Result<Register, DecodeError>) {
        Register::resolve(value)
    }
}

impl vstd::std_specs::convert::TryFromSpecImpl<u8> for Register {
    open spec fn obeys_try_from_spec() -> bool {
        true
    }

    open spec fn try_from_spec(value: u8) -> Result<Register, DecodeError> {
        Register::resolve_spec(value)
    }
}

/// Every index in `0..32` resolves to a register whose index is that value
/// again.
pub proof fn lemma_index_round_trip(i: u8)
    requires
        i < 32,
    ensures
        Register::resolve_spec(i) == Ok::<Register, DecodeError>(register_of(i)),
        register_of(i).index() == i,
{
}

/// Every register is named by its own index.
pub proof fn lemma_register_round_trip(r: Register)
    ensures
        r.index() < 32,
        register_of(r.index()) == r,
{
}

/// Whether bit `k` of `mask` is set.
pub open spec fn mask_bit(mask: u32, k: u32) -> bool {
    (mask >> k) & 1 == 1
}

/// The registers whose index is below `n` and whose bit is set in `mask`,
/// in ascending order of index.
pub open spec fn registers_in(mask: u32, n: nat) -> Seq<Register>
    decreases n,
{
    if n == 0 {
        Seq::empty()
    } else {
        let k = (n - 1) as nat;
        let below = registers_in(mask, k);
        if mask_bit(mask, k as u32) {
            below.push(register_of(k as u8))
        } else {
            below
        }
    }
}

/// The registers whose bits are set in `bit_array`, bit 0 first.
pub fn register_list_from_bit_array(bit_array: u32) -> (r: Vec<Register>)
    ensures
        r@ == registers_in(bit_array, 32),
{
    let mut ret: Vec<Register> = Vec::new();
    let mut i: u8 = 0;
    while i < 32
        invariant
            i <= 32,
            ret@ == registers_in(bit_array, i as nat),
        decreases 32 - i,
    {
        if (bit_array >> (i as u32)) & 1 == 1 {
            ret.push(Register::from_index(i));
        }
        i = i + 1;
    }
    ret
}

} // verus!
