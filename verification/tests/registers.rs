use virtual_cpu::capability::{Registers16, Registers8};
use virtual_cpu::i8080::instructions::{inc16, inc8};
use virtual_cpu::i8080::{Flags8080, Name16, Name8, Registers8080};

const ALL: [Name8; 7] = [Name8::A, Name8::B, Name8::C, Name8::D, Name8::E, Name8::H, Name8::L];

#[test]
fn registers_start_at_zero() {
    let registers = Registers8080::new();
    for name in ALL {
        assert_eq!(registers.get8(name), 0);
    }
    assert_eq!(registers.cc, Flags8080::new());
    assert_eq!(Registers8080::default().get16(Name16::HL), 0);
}

#[test]
fn a_register_holds_what_was_stored_and_the_others_stay() {
    for (index, name) in ALL.iter().enumerate() {
        let mut registers = Registers8080::new();
        registers.set8(*name, 0x5a);
        for (other_index, other) in ALL.iter().enumerate() {
            let expected = if index == other_index { 0x5a } else { 0 };
            assert_eq!(registers.get8(*other), expected);
        }
        assert_eq!(registers.cc, Flags8080::new());
    }
}

#[test]
fn names_map_to_fields() {
    let mut registers = Registers8080::new();
    registers.set8(Name8::A, 1);
    registers.set8(Name8::B, 2);
    registers.set8(Name8::C, 3);
    registers.set8(Name8::D, 4);
    registers.set8(Name8::E, 5);
    registers.set8(Name8::H, 6);
    registers.set8(Name8::L, 7);
    assert_eq!(
        (registers.a, registers.b, registers.c, registers.d, registers.e, registers.h, registers.l),
        (1, 2, 3, 4, 5, 6, 7)
    );
}

#[test]
fn pairs_are_views_of_the_byte_registers() {
    let mut registers = Registers8080::new();
    registers.set16(Name16::BC, 0x1234);
    registers.set16(Name16::DE, 0x5678);
    registers.set16(Name16::HL, 0x9abc);
    assert_eq!((registers.b, registers.c), (0x12, 0x34));
    assert_eq!((registers.d, registers.e), (0x56, 0x78));
    assert_eq!((registers.h, registers.l), (0x9a, 0xbc));
    registers.set8(Name8::C, 0xff);
    registers.set8(Name8::H, 0x00);
    assert_eq!(registers.get16(Name16::BC), 0x12ff);
    assert_eq!(registers.get16(Name16::DE), 0x5678);
    assert_eq!(registers.get16(Name16::HL), 0x00bc);
    assert_eq!(registers.a, 0);
}

#[test]
fn the_flags_pair_joins_accumulator_and_packed_flags() {
    let mut registers = Registers8080::new();
    registers.a = 0x42;
    registers.cc = Flags8080 { z: true, s: false, p: false, cy: true, ac: false };
    assert_eq!(registers.get16(Name16::AF), 0x4209);

    registers.set16(Name16::AF, 0x8016);
    assert_eq!(registers.a, 0x80);
    assert_eq!(registers.cc, Flags8080 { z: false, s: true, p: true, cy: false, ac: true });
    assert_eq!(registers.get16(Name16::AF), 0x8016);

    // the upper three bits of the flag byte are not kept
    registers.set16(Name16::AF, 0x01ff);
    assert_eq!(registers.get16(Name16::AF), 0x011f);
}

#[test]
fn update_applies_a_function_in_place() {
    let mut registers = Registers8080::new();
    registers.set8(Name8::D, 0xff);
    registers.update8(Name8::D, inc8);
    assert_eq!(registers.d, 0x00);
    registers.update8(Name8::D, |value| value | 0x81);
    assert_eq!(registers.d, 0x81);

    registers.set16(Name16::HL, 0x00ff);
    registers.update16(Name16::HL, inc16);
    assert_eq!(registers.get16(Name16::HL), 0x0100);
    registers.update16(Name16::HL, |value| value << 4);
    assert_eq!((registers.h, registers.l), (0x10, 0x00));
}

#[test]
fn flags_derive_from_a_register() {
    let mut registers = Registers8080::new();
    registers.cc.cy = true;
    registers.set8(Name8::E, 0x81);
    registers.set_flags_from_r8(Name8::E);
    assert_eq!(registers.cc, Flags8080 { z: false, s: true, p: true, cy: true, ac: false });
    registers.set_flags_from_r8(Name8::A);
    assert_eq!(registers.cc, Flags8080 { z: true, s: false, p: true, cy: true, ac: false });
    assert_eq!(registers.e, 0x81);
}
