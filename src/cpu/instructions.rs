use vstd::prelude::*;

verus! {

/// A decoded instruction: an operation and its operands.
#[derive(Debug, Clone, Copy, PartialEq, Eq, Structural)]
pub enum Instruction {
    Nop,
    Add(ArithmeticTarget),
    AddCarry(ArithmeticTarget),
    Sub(ArithmeticTarget),
    SubCarry(ArithmeticTarget),
    And(ArithmeticTarget),
    Xor(ArithmeticTarget),
    Or(ArithmeticTarget),
    Compare(ArithmeticTarget),
    Load { dst: LoadTarget, src: LoadTarget },
}

/// One of the seven 8-bit general-purpose registers.
#[derive(Debug, Clone, Copy, PartialEq, Eq, Structural)]
pub enum Register {
    A,
    B,
    C,
    D,
    E,
    H,
    L,
}

/// A 16-bit register: one of the three general pairs, or the stack pointer.
#[derive(Debug, Clone, Copy, PartialEq, Eq, Structural)]
pub enum WideRegister {
    BC,
    DE,
    HL,
    SP,
}

/// Where an arithmetic or logic instruction takes its operand from.
#[derive(Debug, Clone, Copy, PartialEq, Eq, Structural)]
pub enum ArithmeticTarget {
    Register(Register),
    /// The byte in memory at the address held in HL.
    IndirectHl,
}

/// A source or destination of a load.
#[derive(Debug, Clone, Copy, PartialEq, Eq, Structural)]
pub enum LoadTarget {
    Register(Register),
    WideRegister(WideRegister),
    /// The byte that follows the opcode.
    Immediate8,
    /// The two bytes that follow the opcode, low byte first.
    Immediate16,
    /// The byte in memory at the address held in a register pair.
    IndirectWideRegister(WideRegister),
    /// The byte in memory at HL; HL is incremented after the access.
    IndirectHlInc,
    /// The byte in memory at HL; HL is decremented after the access.
    IndirectHlDec,
}

/// The operand of column `c` (0 to 7) of the arithmetic block `0x80..=0xBF`.
pub open spec fn arithmetic_column(c: u8) -> ArithmeticTarget {
    match c {
        0 => ArithmeticTarget::Register(Register::B),
        1 => ArithmeticTarget::Register(Register::C),
        2 => ArithmeticTarget::Register(Register::D),
        3 => ArithmeticTarget::Register(Register::E),
        4 => ArithmeticTarget::Register(Register::H),
        5 => ArithmeticTarget::Register(Register::L),
        6 => ArithmeticTarget::IndirectHl,
        _ => ArithmeticTarget::Register(Register::A),
    }
}

/// The operation of group `g` (0 to 7) of the arithmetic block `0x80..=0xBF`.
pub open spec fn arithmetic_group(g: u8, t: ArithmeticTarget) -> Instruction {
    match g {
        0 => Instruction::Add(t),
        1 => Instruction::AddCarry(t),
        2 => Instruction::Sub(t),
        3 => Instruction::SubCarry(t),
        4 => Instruction::And(t),
        5 => Instruction::Xor(t),
        6 => Instruction::Or(t),
        _ => Instruction::Compare(t),
    }
}

/// The register pair loaded by `0x01`, `0x11`, `0x21`, `0x31` (rows 0 to 3).
pub open spec fn immediate16_destination(row: u8) -> WideRegister {
    match row {
        0 => WideRegister::BC,
        1 => WideRegister::DE,
        2 => WideRegister::HL,
        _ => WideRegister::SP,
    }
}

/// Where `0x02`, `0x12`, `0x22`, `0x32` (rows 0 to 3) store A.
pub open spec fn store_a_destination(row: u8) -> LoadTarget {
    match row {
        0 => LoadTarget::IndirectWideRegister(WideRegister::BC),
        1 => LoadTarget::IndirectWideRegister(WideRegister::DE),
        2 => LoadTarget::IndirectHlInc,
        _ => LoadTarget::IndirectHlDec,
    }
}

/// Where `0x06`, `0x16`, `0x26`, `0x36` (rows 0 to 3) put their 8-bit immediate.
pub open spec fn immediate8_destination(row: u8) -> LoadTarget {
    match row {
        0 => LoadTarget::Register(Register::B),
        1 => LoadTarget::Register(Register::D),
        2 => LoadTarget::Register(Register::H),
        _ => LoadTarget::IndirectWideRegister(WideRegister::HL),
    }
}

/// The opcode table: the instruction an opcode byte stands for, or `None`
/// where the table defines none.
pub open spec fn decoded(op: u8) -> Option<Instruction> {
    if 0x80 <= op <= 0xBF {
        Some(arithmetic_group(((op - 0x80) / 8) as u8, arithmetic_column(op % 8)))
    } else if op == 0x00 {
        Some(Instruction::Nop)
    } else if op < 0x40 && op % 16 == 1 {
        Some(
            Instruction::Load {
                dst: LoadTarget::WideRegister(immediate16_destination(op / 16)),
                src: LoadTarget::Immediate16,
            },
        )
    } else if op < 0x40 && op % 16 == 2 {
        Some(
            Instruction::Load {
                dst: store_a_destination(op / 16),
                src: LoadTarget::Register(Register::A),
            },
        )
    } else if op < 0x40 && op % 16 == 6 {
        Some(Instruction::Load { dst: immediate8_destination(op / 16), src: LoadTarget::Immediate8 })
    } else {
        None
    }
}

impl Instruction {
    /// Decodes one opcode byte. Opcodes outside the table give `None`: an
    /// unknown opcode is never taken for a no-op.
    pub fn decode(opcode: u8) -> (r: Option<Instruction>)
        ensures
            r == decoded(opcode),
    {
        if 0x80 <= opcode && opcode <= 0xBF {
            let target = match opcode % 8 {
                0 => ArithmeticTarget::Register(Register::B),
                1 => ArithmeticTarget::Register(Register::C),
                2 => ArithmeticTarget::Register(Register::D),
                3 => ArithmeticTarget::Register(Register::E),
                4 => ArithmeticTarget::Register(Register::H),
                5 => ArithmeticTarget::Register(Register::L),
                6 => ArithmeticTarget::IndirectHl,
                _ => ArithmeticTarget::Register(Register::A),
            };
            let instruction = match (opcode - 0x80) / 8 {
                0 => Instruction::Add(target),
                1 => Instruction::AddCarry(target),
                2 => Instruction::Sub(target),
                3 => Instruction::SubCarry(target),
                4 => Instruction::And(target),
                5 => Instruction::Xor(target),
                6 => Instruction::Or(target),
                _ => Instruction::Compare(target),
            };
            Some(instruction)
        } else if opcode == 0x00 {
            Some(Instruction::Nop)
        } else if opcode < 0x40 {
            let row = opcode / 16;
            match opcode % 16 {
                1 => {
                    let dst = match row {
                        0 => WideRegister::BC,
                        1 => WideRegister::DE,
                        2 => WideRegister::HL,
                        _ => WideRegister::SP,
                    };
                    Some(
                        Instruction::Load {
                            dst: LoadTarget::WideRegister(dst),
                            src: LoadTarget::Immediate16,
                        },
                    )
                },
                2 => {
                    let dst = match row {
                        0 => LoadTarget::IndirectWideRegister(WideRegister::BC),
                        1 => LoadTarget::IndirectWideRegister(WideRegister::DE),
                        2 => LoadTarget::IndirectHlInc,
                        _ => LoadTarget::IndirectHlDec,
                    };
                    Some(Instruction::Load { dst, src: LoadTarget::Register(Register::A) })
                },
                6 => {
                    let dst = match row {
                        0 => LoadTarget::Register(Register::B),
                        1 => LoadTarget::Register(Register::D),
                        2 => LoadTarget::Register(Register::H),
                        _ => LoadTarget::IndirectWideRegister(WideRegister::HL),
                    };
                    Some(Instruction::Load { dst, src: LoadTarget::Immediate8 })
                },
                _ => None,
            }
        } else {
            None
        }
    }
}

} // verus!
