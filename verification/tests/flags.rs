use virtual_cpu::capability::Flags;
use virtual_cpu::i8080::Flags8080;

#[test]
fn test_set_flags_no_carry() {
    let mut flags = Flags8080::new();

    flags.set_flags_no_carry(0);
    assert_eq!(flags.z, true);
    assert_eq!(flags.s, false);
    assert_eq!(flags.p, true);

    flags.set_flags_no_carry(0xf0);
    assert_eq!(flags.z, false);
    assert_eq!(flags.s, true);
    assert_eq!(flags.p, true);
}

#[test]
fn new_flags_are_clear() {
    let flags = Flags8080::new();
    assert_eq!(flags, Flags8080 { z: false, s: false, p: false, cy: false, ac: false });
    assert_eq!(Flags8080::default(), flags);
}

#[test]
fn derived_flags_follow_the_result_for_every_byte() {
    for result in 0..=255u8 {
        let mut flags = Flags8080 { z: false, s: false, p: false, cy: true, ac: true };
        flags.set_flags_no_carry(result);
        assert_eq!(flags.z, result == 0);
        assert_eq!(flags.s, result & 0x80 != 0);
        assert_eq!(flags.p, result.count_ones() % 2 == 0);
        assert!(flags.cy);
        assert!(flags.ac);
    }
}

#[test]
fn each_setter_touches_its_own_flag_only() {
    let mut flags = Flags8080::new();
    flags.set_z(0);
    assert_eq!(flags, Flags8080 { z: true, s: false, p: false, cy: false, ac: false });
    flags.set_s(0x80);
    assert_eq!(flags, Flags8080 { z: true, s: true, p: false, cy: false, ac: false });
    flags.set_p(0x03);
    assert_eq!(flags, Flags8080 { z: true, s: true, p: true, cy: false, ac: false });
    flags.set_p(0x07);
    assert_eq!(flags, Flags8080 { z: true, s: true, p: false, cy: false, ac: false });
    flags.set_s(0x7f);
    flags.set_z(1);
    assert_eq!(flags, Flags8080::new());
}

#[test]
fn serialize_packs_the_flags_in_bit_order() {
    let flags = Flags8080 { z: true, s: false, p: true, cy: true, ac: false };
    assert_eq!(flags.serialize(), 0b0_1101);
    assert_eq!(Flags8080 { z: true, s: false, p: false, cy: false, ac: false }.serialize(), 0x01);
    assert_eq!(Flags8080 { z: false, s: true, p: false, cy: false, ac: false }.serialize(), 0x02);
    assert_eq!(Flags8080 { z: false, s: false, p: true, cy: false, ac: false }.serialize(), 0x04);
    assert_eq!(Flags8080 { z: false, s: false, p: false, cy: true, ac: false }.serialize(), 0x08);
    assert_eq!(Flags8080 { z: false, s: false, p: false, cy: false, ac: true }.serialize(), 0x10);
}

#[test]
fn deserialize_reads_the_low_five_bits() {
    let mut flags = Flags8080::new();
    flags.deserialize(0xff);
    assert_eq!(flags, Flags8080 { z: true, s: true, p: true, cy: true, ac: true });
    flags.deserialize(0xe0);
    assert_eq!(flags, Flags8080::new());
    flags.deserialize(0x0a);
    assert_eq!(flags, Flags8080 { z: false, s: true, p: false, cy: true, ac: false });
}

#[test]
fn flags_round_trip_through_their_packed_form() {
    for packed in 0..32u8 {
        let mut flags = Flags8080::new();
        flags.deserialize(packed);
        assert_eq!(flags.serialize(), packed);
        let mut again = Flags8080::new();
        again.deserialize(flags.serialize());
        assert_eq!(again, flags);
    }
}

#[test]
fn predicates_read_single_flags() {
    let flags = Flags8080 { z: true, s: false, p: true, cy: false, ac: false };
    assert!(flags.is_z());
    assert!(!flags.is_nz());
    assert!(flags.is_nc());
    assert!(!flags.is_c());
    assert!(flags.is_parity_even());
    assert!(!flags.is_parity_odd());
    assert!(flags.is_plus());
    assert!(!flags.is_minus());
}
