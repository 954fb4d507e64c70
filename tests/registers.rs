use riscv_instruction_parser::registers::Register;
use riscv_instruction_parser::{register_list_from_bit_array, DecodeError};

#[test]
fn from_u8_to_register() {
    assert_eq!(0u8.try_into(), Ok(Register::ZERO));
    assert_eq!(1u8.try_into(), Ok(Register::RA));
    assert_eq!(2u8.try_into(), Ok(Register::SP));
    assert_eq!(3u8.try_into(), Ok(Register::GP));
    assert_eq!(4u8.try_into(), Ok(Register::TP));
    assert_eq!(5u8.try_into(), Ok(Register::T0));
    assert_eq!(6u8.try_into(), Ok(Register::T1));
    assert_eq!(7u8.try_into(), Ok(Register::T2));
    assert_eq!(8u8.try_into(), Ok(Register::S0));
    assert_eq!(9u8.try_into(), Ok(Register::S1));
    assert_eq!(10u8.try_into(), Ok(Register::A0));
    assert_eq!(11u8.try_into(), Ok(Register::A1));
    assert_eq!(12u8.try_into(), Ok(Register::A2));
    assert_eq!(13u8.try_into(), Ok(Register::A3));
    assert_eq!(14u8.try_into(), Ok(Register::A4));
    assert_eq!(15u8.try_into(), Ok(Register::A5));
    assert_eq!(16u8.try_into(), Ok(Register::A6));
}

#[test]
fn register_list() {
    assert_eq!(register_list_from_bit_array(0), vec![]);
    assert_eq!(register_list_from_bit_array(0b1), vec![Register::ZERO]);
    assert_eq!(
        register_list_from_bit_array(0b111),
        vec![Register::ZERO, Register::RA, Register::SP]
    );
    assert_eq!(
        register_list_from_bit_array(0b1000000000000000),
        vec![Register::A5]
    );
    assert_eq!(
        register_list_from_bit_array(0b1110000000000000),
        vec![Register::A3, Register::A4, Register::A5]
    );
    assert_eq!(
        register_list_from_bit_array(0xffff),
        vec![
            Register::ZERO,
            Register::RA,
            Register::SP,
            Register::GP,
            Register::TP,
            Register::T0,
            Register::T1,
            Register::T2,
            Register::S0,
            Register::S1,
            Register::A0,
            Register::A1,
            Register::A2,
            Register::A3,
            Register::A4,
            Register::A5
        ]
    );
}

#[test]
fn register_index_round_trip() {
    for i in 0u8..32 {
        let r = Register::resolve(i).unwrap();
        assert_eq!(r.to_index(), i);
        assert_eq!(Register::from_index(i), r);
    }
    assert_eq!(Register::T6.to_index(), 31);
    assert_eq!(Register::S10.to_index(), 26);
}

#[test]
fn register_out_of_range() {
    assert_eq!(Register::resolve(32), Err(DecodeError::InvalidRegister(32)));
    assert_eq!(Register::resolve(255), Err(DecodeError::InvalidRegister(255)));
    let r: Result<Register, DecodeError> = 40u8.try_into();
    assert_eq!(r, Err(DecodeError::InvalidRegister(40)));
}

#[test]
fn register_list_high_bits() {
    assert_eq!(
        register_list_from_bit_array(0x8000_0001),
        vec![Register::ZERO, Register::T6]
    );
    assert_eq!(register_list_from_bit_array(0xffff_ffff).len(), 32);
    assert_eq!(
        register_list_from_bit_array(0x0c00_0000),
        vec![Register::S10, Register::S11]
    );
}
