use dame_boy::{Flag, Flags, Register, Registers};

#[test]
fn flags_byte_round_trip_clears_low_nibble() {
    for b in 0..=255u8 {
        assert_eq!(Flags::from_byte(b).to_byte(), b & 0xF0);
    }
}

#[test]
fn flags_bit_positions() {
    assert_eq!(Flags::new(true, false, false, false).to_byte(), 0x80);
    assert_eq!(Flags::new(false, true, false, false).to_byte(), 0x40);
    assert_eq!(Flags::new(false, false, true, false).to_byte(), 0x20);
    assert_eq!(Flags::new(false, false, false, true).to_byte(), 0x10);
    assert_eq!(Flags::from_byte(0b1001_0110), Flags::new(true, false, false, true));
}

#[test]
fn flags_pack_unpack() {
    for bits in 0..16u8 {
        let f = Flags::new(bits & 8 != 0, bits & 4 != 0, bits & 2 != 0, bits & 1 != 0);
        assert_eq!(Flags::from_byte(f.to_byte()), f);
    }
}

#[test]
fn flag_get_and_set() {
    let mut f = Flags::default();
    f.set(Flag::HalfCarry, true);
    assert!(f.get(Flag::HalfCarry));
    assert!(!f.get(Flag::Zero));
    assert_eq!(f.to_byte(), 0x20);
    f.set(Flag::Zero, true);
    f.set(Flag::HalfCarry, false);
    assert_eq!(f.to_byte(), 0x80);
    assert!(f.get(Flag::Zero));
    assert!(!f.get(Flag::Carry));
    assert!(!f.get(Flag::Subtract));
}

#[test]
fn register_read_write() {
    let mut regs = Registers::default();
    let all = [Register::A, Register::B, Register::C, Register::D, Register::E, Register::H, Register::L];
    for (i, r) in all.into_iter().enumerate() {
        regs.write(r, 0x10 + i as u8);
    }
    for (i, r) in all.into_iter().enumerate() {
        assert_eq!(regs.read(r), 0x10 + i as u8);
    }
    assert_eq!(regs.h, 0x15);
}

#[test]
fn pair_round_trip() {
    for w in [0x0000u16, 0x1234, 0xABCD, 0xFFFF, 0x00FF, 0xFF00] {
        let mut regs = Registers::default();
        regs.set_bc(w);
        regs.set_de(w);
        regs.set_hl(w);
        assert_eq!(regs.bc(), w);
        assert_eq!(regs.de(), w);
        assert_eq!(regs.hl(), w);
        regs.set_af(w);
        assert_eq!(regs.af(), w & 0xFFF0);
    }
}

#[test]
fn pairs_are_high_byte_first() {
    let mut regs = Registers::default();
    regs.set_hl(0x1234);
    assert_eq!(regs.h, 0x12);
    assert_eq!(regs.l, 0x34);
    regs.set_af(0xAB_FF);
    assert_eq!(regs.a, 0xAB);
    assert_eq!(regs.f, Flags::new(true, true, true, true));
    assert_eq!(regs.af(), 0xABF0);
}
