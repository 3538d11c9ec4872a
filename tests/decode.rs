use dame_boy::{ArithmeticTarget, Instruction, LoadTarget, Register, WideRegister};

fn targets() -> [ArithmeticTarget; 8] {
    [
        ArithmeticTarget::Register(Register::B),
        ArithmeticTarget::Register(Register::C),
        ArithmeticTarget::Register(Register::D),
        ArithmeticTarget::Register(Register::E),
        ArithmeticTarget::Register(Register::H),
        ArithmeticTarget::Register(Register::L),
        ArithmeticTarget::IndirectHl,
        ArithmeticTarget::Register(Register::A),
    ]
}

#[test]
fn arithmetic_block_order() {
    let groups: [fn(ArithmeticTarget) -> Instruction; 8] = [
        Instruction::Add,
        Instruction::AddCarry,
        Instruction::Sub,
        Instruction::SubCarry,
        Instruction::And,
        Instruction::Xor,
        Instruction::Or,
        Instruction::Compare,
    ];
    for (g, make) in groups.iter().enumerate() {
        for (c, target) in targets().into_iter().enumerate() {
            let opcode = 0x80 + (g * 8 + c) as u8;
            assert_eq!(Instruction::decode(opcode), Some(make(target)), "opcode {:#04X}", opcode);
        }
    }
}

#[test]
fn and_b_is_not_a_load() {
    assert_eq!(Instruction::decode(0xA0), Some(Instruction::And(ArithmeticTarget::Register(Register::B))));
    assert_eq!(Instruction::decode(0xA1), Some(Instruction::And(ArithmeticTarget::Register(Register::C))));
}

#[test]
fn load_families() {
    let wide = [WideRegister::BC, WideRegister::DE, WideRegister::HL, WideRegister::SP];
    let stores = [
        LoadTarget::IndirectWideRegister(WideRegister::BC),
        LoadTarget::IndirectWideRegister(WideRegister::DE),
        LoadTarget::IndirectHlInc,
        LoadTarget::IndirectHlDec,
    ];
    let imm8 = [
        LoadTarget::Register(Register::B),
        LoadTarget::Register(Register::D),
        LoadTarget::Register(Register::H),
        LoadTarget::IndirectWideRegister(WideRegister::HL),
    ];
    for row in 0..4u8 {
        let i = row as usize;
        assert_eq!(
            Instruction::decode(row * 16 + 1),
            Some(Instruction::Load { dst: LoadTarget::WideRegister(wide[i]), src: LoadTarget::Immediate16 })
        );
        assert_eq!(
            Instruction::decode(row * 16 + 2),
            Some(Instruction::Load { dst: stores[i], src: LoadTarget::Register(Register::A) })
        );
        assert_eq!(
            Instruction::decode(row * 16 + 6),
            Some(Instruction::Load { dst: imm8[i], src: LoadTarget::Immediate8 })
        );
    }
}

#[test]
fn nop_only_at_zero() {
    assert_eq!(Instruction::decode(0x00), Some(Instruction::Nop));
    for op in 1..=255u8 {
        assert_ne!(Instruction::decode(op), Some(Instruction::Nop));
    }
}

#[test]
fn unknown_opcodes_fail() {
    assert_eq!(Instruction::decode(0xFF), None);
    assert_eq!(Instruction::decode(0x03), None);
    assert_eq!(Instruction::decode(0x41), None);
    assert_eq!(Instruction::decode(0x7F), None);
    assert_eq!(Instruction::decode(0xC0), None);
    let defined = (0..=255u8).filter(|&op| Instruction::decode(op).is_some()).count();
    assert_eq!(defined, 64 + 12 + 1);
}
