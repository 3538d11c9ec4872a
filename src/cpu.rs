use vstd::prelude::*;

pub mod instructions;
pub mod registers;

use crate::mem::Mem;

use self::instructions::{ArithmeticTarget, Instruction, LoadTarget, Register, WideRegister};
use self::registers::{pair_value, Flags, Registers};

verus! {

/// The processor state: the register file, the program counter and the
/// stack pointer.
#[derive(Debug, Clone, Copy, PartialEq, Eq, Structural)]
pub struct Cpu {
    pub registers: Registers,
    pub pc: u16,
    pub sp: u16,
}

impl Default for Cpu {
    /// The reset state: every register, the program counter and the stack
    /// pointer zero.
    fn default() -> (r: Cpu)
        ensures
            r == (Cpu {
                registers: Registers {
                    a: 0,
                    b: 0,
                    c: 0,
                    d: 0,
                    e: 0,
                    f: Flags { zero: false, subtract: false, half_carry: false, carry: false },
                    h: 0,
                    l: 0,
                },
                pc: 0,
                sp: 0,
            }),
    {
        Cpu { registers: Registers::default(), pc: 0, sp: 0 }
    }
}

/// Why the processor stopped.
#[derive(Debug, Clone, Copy, PartialEq, Eq, Structural)]
pub enum CpuError {
    /// The byte fetched at `address` is no opcode of the table.
    UnknownOpcode { opcode: u8, address: u16 },
    /// The instruction's operands have no defined execution.
    UnsupportedInstruction(Instruction),
}

/// The carry bit an instruction adds in: the carry flag, when it uses it.
pub open spec fn carry_bit(use_carry: bool, f: Flags) -> u8 {
    if use_carry && f.carry {
        1
    } else {
        0
    }
}

/// A and the flags after `a + v + carry_in`.
pub open spec fn add_outcome(a: u8, v: u8, carry_in: u8) -> (u8, Flags) {
    let sum = a + v + carry_in;
    (
        (sum % 256) as u8,
        Flags {
            zero: sum % 256 == 0,
            subtract: false,
            half_carry: a % 16 + v % 16 + carry_in > 15,
            carry: sum > 255,
        },
    )
}

/// A and the flags after `a - v - carry_in`.
pub open spec fn sub_outcome(a: u8, v: u8, carry_in: u8) -> (u8, Flags) {
    let diff = a - v - carry_in;
    (
        ((diff + 256) % 256) as u8,
        Flags {
            zero: (diff + 256) % 256 == 0,
            subtract: true,
            half_carry: a % 16 < v % 16 + carry_in,
            carry: diff < 0,
        },
    )
}

/// A and the flags after a bitwise operation that gave `r`.
pub open spec fn logic_outcome(r: u8, half_carry: bool) -> (u8, Flags) {
    (r, Flags { zero: r == 0, subtract: false, half_carry, carry: false })
}

/// The byte an arithmetic operand names.
pub open spec fn operand(regs: Registers, mem: Seq<u8>, t: ArithmeticTarget) -> u8 {
    match t {
        ArithmeticTarget::Register(r) => regs.get(r),
        ArithmeticTarget::IndirectHl => mem[regs.spec_hl() as int],
    }
}

/// The operand of an arithmetic or logic instruction.
pub open spec fn arithmetic_operand(ins: Instruction) -> ArithmeticTarget {
    match ins {
        Instruction::Add(t) => t,
        Instruction::AddCarry(t) => t,
        Instruction::Sub(t) => t,
        Instruction::SubCarry(t) => t,
        Instruction::And(t) => t,
        Instruction::Xor(t) => t,
        Instruction::Or(t) => t,
        Instruction::Compare(t) => t,
        _ => ArithmeticTarget::IndirectHl,
    }
}

/// A and the flags after an arithmetic or logic instruction whose operand is `v`.
pub open spec fn alu_outcome(ins: Instruction, regs: Registers, v: u8) -> (u8, Flags) {
    let a = regs.a;
    match ins {
        Instruction::Add(_) => add_outcome(a, v, 0),
        Instruction::AddCarry(_) => add_outcome(a, v, carry_bit(true, regs.f)),
        Instruction::Sub(_) => sub_outcome(a, v, 0),
        Instruction::SubCarry(_) => sub_outcome(a, v, carry_bit(true, regs.f)),
        Instruction::And(_) => logic_outcome(a & v, true),
        Instruction::Xor(_) => logic_outcome(a ^ v, false),
        Instruction::Or(_) => logic_outcome(a | v, false),
        Instruction::Compare(_) => (a, sub_outcome(a, v, 0).1),
        _ => (a, regs.f),
    }
}

/// Bytes and cycles of an arithmetic or logic instruction.
pub open spec fn spec_arithmetic_cost(t: ArithmeticTarget) -> (u8, u8) {
    (1, if t is IndirectHl { 2 } else { 1 })
}

/// Whether the hardware has an 8-bit load from `src` into `dst`.
pub open spec fn is_load8(dst: LoadTarget, src: LoadTarget) -> bool {
    match (dst, src) {
        (LoadTarget::Register(_), LoadTarget::Register(_)) => true,
        (LoadTarget::Register(_), LoadTarget::Immediate8) => true,
        (LoadTarget::Register(_), LoadTarget::IndirectWideRegister(WideRegister::HL)) => true,
        (LoadTarget::Register(Register::A), LoadTarget::IndirectWideRegister(WideRegister::BC)) => true,
        (LoadTarget::Register(Register::A), LoadTarget::IndirectWideRegister(WideRegister::DE)) => true,
        (LoadTarget::Register(Register::A), LoadTarget::IndirectHlInc) => true,
        (LoadTarget::Register(Register::A), LoadTarget::IndirectHlDec) => true,
        (LoadTarget::IndirectWideRegister(WideRegister::HL), LoadTarget::Register(_)) => true,
        (LoadTarget::IndirectWideRegister(WideRegister::HL), LoadTarget::Immediate8) => true,
        (LoadTarget::IndirectWideRegister(WideRegister::BC), LoadTarget::Register(Register::A)) => true,
        (LoadTarget::IndirectWideRegister(WideRegister::DE), LoadTarget::Register(Register::A)) => true,
        (LoadTarget::IndirectHlInc, LoadTarget::Register(Register::A)) => true,
        (LoadTarget::IndirectHlDec, LoadTarget::Register(Register::A)) => true,
        _ => false,
    }
}

/// Bytes and cycles of an 8-bit load.
pub open spec fn load8_cost(dst: LoadTarget, src: LoadTarget) -> (u8, u8) {
    (
        if src is Immediate8 { 2 } else { 1 },
        if dst is Register && src is Register { 1 } else { 2 },
    )
}

/// `w + delta`, wrapped to 16 bits.
pub open spec fn wrap16(w: u16, delta: int) -> u16 {
    ((w + delta + 0x10000) % 0x10000) as u16
}

impl Cpu {
    pub open spec fn wide(self, w: WideRegister) -> u16 {
        match w {
            WideRegister::BC => self.registers.spec_bc(),
            WideRegister::DE => self.registers.spec_de(),
            WideRegister::HL => self.registers.spec_hl(),
            WideRegister::SP => self.sp,
        }
    }

    pub open spec fn with_wide(self, w: WideRegister, v: u16) -> Cpu {
        match w {
            WideRegister::BC => Cpu { registers: self.registers.with_bc(v), ..self },
            WideRegister::DE => Cpu { registers: self.registers.with_de(v), ..self },
            WideRegister::HL => Cpu { registers: self.registers.with_hl(v), ..self },
            WideRegister::SP => Cpu { sp: v, ..self },
        }
    }

    pub open spec fn with_a_and_flags(self, outcome: (u8, Flags)) -> Cpu {
        Cpu { registers: Registers { a: outcome.0, f: outcome.1, ..self.registers }, ..self }
    }

    /// The byte after the opcode.
    pub open spec fn immediate8(self, mem: Seq<u8>) -> u8 {
        mem[wrap16(self.pc, 1) as int]
    }

    /// The two bytes after the opcode, low byte first.
    pub open spec fn immediate16(self, mem: Seq<u8>) -> u16 {
        pair_value(mem[wrap16(self.pc, 2) as int], mem[wrap16(self.pc, 1) as int])
    }

    /// The address a memory load target names.
    pub open spec fn address(self, t: LoadTarget) -> u16 {
        match t {
            LoadTarget::IndirectWideRegister(w) => self.wide(w),
            _ => self.registers.spec_hl(),
        }
    }

    /// The byte an 8-bit load reads from `src`.
    pub open spec fn load_source(self, mem: Seq<u8>, src: LoadTarget) -> u8 {
        match src {
            LoadTarget::Register(r) => self.registers.get(r),
            LoadTarget::Immediate8 => self.immediate8(mem),
            _ => mem[self.address(src) as int],
        }
    }

    /// The state after an 8-bit load: the byte is stored, then HL steps if
    /// either side was an auto-increment or auto-decrement access.
    pub open spec fn load8_outcome(self, mem: Seq<u8>, dst: LoadTarget, src: LoadTarget) -> (
        Cpu,
        Seq<u8>,
    ) {
        let v = self.load_source(mem, src);
        let (stored, mem2) = match dst {
            LoadTarget::Register(r) => (Cpu { registers: self.registers.with(r, v), ..self }, mem),
            _ => (self, mem.update(self.address(dst) as int, v)),
        };
        let hl = stored.registers.spec_hl();
        if dst is IndirectHlInc || src is IndirectHlInc {
            (stored.with_wide(WideRegister::HL, wrap16(hl, 1)), mem2)
        } else if dst is IndirectHlDec || src is IndirectHlDec {
            (stored.with_wide(WideRegister::HL, wrap16(hl, -1)), mem2)
        } else {
            (stored, mem2)
        }
    }

    /// The state, memory and cost after a load, or `None` where the hardware
    /// has no such load.
    pub open spec fn load_outcome(self, mem: Seq<u8>, dst: LoadTarget, src: LoadTarget) -> Option<
        (Cpu, Seq<u8>, (u8, u8)),
    > {
        match dst {
            LoadTarget::WideRegister(w) => if src is Immediate16 {
                Some((self.with_wide(w, self.immediate16(mem)), mem, (3, 3)))
            } else {
                None
            },
            _ => if is_load8(dst, src) {
                let (c, m) = self.load8_outcome(mem, dst, src);
                Some((c, m, load8_cost(dst, src)))
            } else {
                None
            },
        }
    }

    /// The state, memory and cost after executing `ins`, or `None` where the
    /// instruction has no defined execution. The program counter is left as
    /// it was.
    pub open spec fn executed(self, mem: Seq<u8>, ins: Instruction) -> Option<
        (Cpu, Seq<u8>, (u8, u8)),
    > {
        match ins {
            Instruction::Nop => Some((self, mem, (1, 1))),
            Instruction::Load { dst, src } => self.load_outcome(mem, dst, src),
            _ => {
                let t = arithmetic_operand(ins);
                let v = operand(self.registers, mem, t);
                Some(
                    (
                        self.with_a_and_flags(alu_outcome(ins, self.registers, v)),
                        mem,
                        spec_arithmetic_cost(t),
                    ),
                )
            },
        }
    }
}

/// Whether adding `v` and `carry_in` to `a` carries out of the low nibble.
fn check_for_half_carry(a: u8, v: u8, carry_in: u8) -> (r: bool)
    requires
        carry_in <= 1,
    ensures
        r == (a % 16 + v % 16 + carry_in > 15),
{
    a % 16 + v % 16 + carry_in > 15
}

/// Whether subtracting `v` and `carry_in` from `a` borrows from bit 4.
fn check_for_half_borrow(a: u8, v: u8, carry_in: u8) -> (r: bool)
    requires
        carry_in <= 1,
    ensures
        r == (a % 16 < v % 16 + carry_in),
{
    a % 16 < v % 16 + carry_in
}

/// `a + v + carry_in` wrapped to a byte, with the flags it sets.
fn add_with_flags(a: u8, v: u8, carry_in: u8) -> (r: (u8, Flags))
    requires
        carry_in <= 1,
    ensures
        r == add_outcome(a, v, carry_in),
{
    let sum: u16 = a as u16 + v as u16 + carry_in as u16;
    let result = (sum % 256) as u8;
    (result, Flags::new(result == 0, false, check_for_half_carry(a, v, carry_in), sum > 255))
}

/// `a - v - carry_in` wrapped to a byte, with the flags it sets.
fn sub_with_flags(a: u8, v: u8, carry_in: u8) -> (r: (u8, Flags))
    requires
        carry_in <= 1,
    ensures
        r == sub_outcome(a, v, carry_in),
{
    let borrow = (a as u16) < v as u16 + carry_in as u16;
    let result = ((a as u16 + 256 - v as u16 - carry_in as u16) % 256) as u8;
    (result, Flags::new(result == 0, true, check_for_half_borrow(a, v, carry_in), borrow))
}

#[verifier::when_used_as_spec(spec_arithmetic_cost)]
fn arithmetic_cost(t: ArithmeticTarget) -> (r: (u8, u8))
    ensures
        r == spec_arithmetic_cost(t),
{
    match t {
        ArithmeticTarget::IndirectHl => (1, 2),
        ArithmeticTarget::Register(_) => (1, 1),
    }
}

/// `w + 1`, wrapped to 16 bits.
fn increment(w: u16) -> (r: u16)
    ensures
        r == wrap16(w, 1),
{
    if w == 0xFFFF {
        0
    } else {
        w + 1
    }
}

/// `w - 1`, wrapped to 16 bits.
fn decrement(w: u16) -> (r: u16)
    ensures
        r == wrap16(w, -1),
{
    if w == 0 {
        0xFFFF
    } else {
        w - 1
    }
}

fn check_load8(dst: LoadTarget, src: LoadTarget) -> (r: bool)
    ensures
        r == is_load8(dst, src),
{
    match (dst, src) {
        (LoadTarget::Register(_), LoadTarget::Register(_)) => true,
        (LoadTarget::Register(_), LoadTarget::Immediate8) => true,
        (LoadTarget::Register(_), LoadTarget::IndirectWideRegister(WideRegister::HL)) => true,
        (LoadTarget::Register(Register::A), LoadTarget::IndirectWideRegister(WideRegister::BC)) => true,
        (LoadTarget::Register(Register::A), LoadTarget::IndirectWideRegister(WideRegister::DE)) => true,
        (LoadTarget::Register(Register::A), LoadTarget::IndirectHlInc) => true,
        (LoadTarget::Register(Register::A), LoadTarget::IndirectHlDec) => true,
        (LoadTarget::IndirectWideRegister(WideRegister::HL), LoadTarget::Register(_)) => true,
        (LoadTarget::IndirectWideRegister(WideRegister::HL), LoadTarget::Immediate8) => true,
        (LoadTarget::IndirectWideRegister(WideRegister::BC), LoadTarget::Register(Register::A)) => true,
        (LoadTarget::IndirectWideRegister(WideRegister::DE), LoadTarget::Register(Register::A)) => true,
        (LoadTarget::IndirectHlInc, LoadTarget::Register(Register::A)) => true,
        (LoadTarget::IndirectHlDec, LoadTarget::Register(Register::A)) => true,
        _ => false,
    }
}

impl Cpu {
    pub fn pc(&self) -> (r: u16)
        ensures
            r == self.pc,
    {
        self.pc
    }

    /// Executes one decoded instruction against the registers and `mem`, and
    /// returns the bytes and cycles it took. Immediate operands are read after
    /// the opcode at the program counter, which the caller advances.
    ///
    /// An instruction with no defined execution changes nothing and is
    /// returned as `UnsupportedInstruction`.
    pub fn execute(&mut self, instruction: Instruction, mem: &mut Mem) -> (r: Result<(u8, u8), CpuError>)
        requires
            old(mem).wf(),
        ensures
            final(mem).wf(),
            match old(self).executed(old(mem)@, instruction) {
                Some((cpu, m, cost)) => {
                    &&& r == Ok::<(u8, u8), CpuError>(cost)
                    &&& *final(self) == cpu
                    &&& final(mem)@ == m
                },
                None => {
                    &&& r == Err::<(u8, u8), CpuError>(CpuError::UnsupportedInstruction(instruction))
                    &&& *final(self) == *old(self)
                    &&& final(mem)@ == old(mem)@
                },
            },
    {
        match instruction {
            Instruction::Nop => Ok(self.nop()),
            Instruction::Add(target) => Ok(self.add(target, false, mem)),
            Instruction::AddCarry(target) => Ok(self.add(target, true, mem)),
            Instruction::Sub(target) => Ok(self.sub(target, false, mem)),
            Instruction::SubCarry(target) => Ok(self.sub(target, true, mem)),
            Instruction::And(target) => Ok(self.and(target, mem)),
            Instruction::Xor(target) => Ok(self.xor(target, mem)),
            Instruction::Or(target) => Ok(self.or(target, mem)),
            Instruction::Compare(target) => Ok(self.compare(target, mem)),
            Instruction::Load { dst, src } => self.load(dst, src, mem),
        }
    }

    fn nop(&self) -> (r: (u8, u8))
        ensures
            r == (1u8, 1u8),
    {
        (1, 1)
    }

    fn operand(&self, target: ArithmeticTarget, mem: &Mem) -> (v: u8)
        requires
            mem.wf(),
        ensures
            v == operand(self.registers, mem@, target),
    {
        match target {
            ArithmeticTarget::Register(r) => self.registers.read(r),
            ArithmeticTarget::IndirectHl => mem.read(self.registers.hl()),
        }
    }

    /// Adds the operand, and the carry flag if `carry`, into A.
    fn add(&mut self, target: ArithmeticTarget, carry: bool, mem: &Mem) -> (r: (u8, u8))
        requires
            mem.wf(),
        ensures
            *final(self) == old(self).with_a_and_flags(
                add_outcome(
                    old(self).registers.a,
                    operand(old(self).registers, mem@, target),
                    carry_bit(carry, old(self).registers.f),
                ),
            ),
            r == spec_arithmetic_cost(target),
    {
        let value = self.operand(target, mem);
        let carry_in: u8 = if carry && self.registers.f.carry {
            1
        } else {
            0
        };
        let (a, f) = add_with_flags(self.registers.a, value, carry_in);
        self.registers.a = a;
        self.registers.f = f;
        arithmetic_cost(target)
    }

    /// Subtracts the operand, and the carry flag if `carry`, from A.
    fn sub(&mut self, target: ArithmeticTarget, carry: bool, mem: &Mem) -> (r: (u8, u8))
        requires
            mem.wf(),
        ensures
            *final(self) == old(self).with_a_and_flags(
                sub_outcome(
                    old(self).registers.a,
                    operand(old(self).registers, mem@, target),
                    carry_bit(carry, old(self).registers.f),
                ),
            ),
            r == spec_arithmetic_cost(target),
    {
        let value = self.operand(target, mem);
        let carry_in: u8 = if carry && self.registers.f.carry {
            1
        } else {
            0
        };
        let (a, f) = sub_with_flags(self.registers.a, value, carry_in);
        self.registers.a = a;
        self.registers.f = f;
        arithmetic_cost(target)
    }

    fn and(&mut self, target: ArithmeticTarget, mem: &Mem) -> (r: (u8, u8))
        requires
            mem.wf(),
        ensures
            *final(self) == old(self).with_a_and_flags(
                logic_outcome(old(self).registers.a & operand(old(self).registers, mem@, target), true),
            ),
            r == spec_arithmetic_cost(target),
    {
        let value = self.operand(target, mem);
        self.registers.a = self.registers.a & value;
        self.registers.f = Flags::new(self.registers.a == 0, false, true, false);
        arithmetic_cost(target)
    }

    fn xor(&mut self, target: ArithmeticTarget, mem: &Mem) -> (r: (u8, u8))
        requires
            mem.wf(),
        ensures
            *final(self) == old(self).with_a_and_flags(
                logic_outcome(old(self).registers.a ^ operand(old(self).registers, mem@, target), false),
            ),
            r == spec_arithmetic_cost(target),
    {
        let value = self.operand(target, mem);
        self.registers.a = self.registers.a ^ value;
        self.registers.f = Flags::new(self.registers.a == 0, false, false, false);
        arithmetic_cost(target)
    }

    fn or(&mut self, target: ArithmeticTarget, mem: &Mem) -> (r: (u8, u8))
        requires
            mem.wf(),
        ensures
            *final(self) == old(self).with_a_and_flags(
                logic_outcome(old(self).registers.a | operand(old(self).registers, mem@, target), false),
            ),
            r == spec_arithmetic_cost(target),
    {
        let value = self.operand(target, mem);
        self.registers.a = self.registers.a | value;
        self.registers.f = Flags::new(self.registers.a == 0, false, false, false);
        arithmetic_cost(target)
    }

    /// Sets the flags as a subtraction of the operand from A would, and
    /// leaves A as it is.
    fn compare(&mut self, target: ArithmeticTarget, mem: &Mem) -> (r: (u8, u8))
        requires
            mem.wf(),
        ensures
            *final(self) == old(self).with_a_and_flags(
                (
                    old(self).registers.a,
                    sub_outcome(old(self).registers.a, operand(old(self).registers, mem@, target), 0).1,
                ),
            ),
            r == spec_arithmetic_cost(target),
    {
        let value = self.operand(target, mem);
        let (_, f) = sub_with_flags(self.registers.a, value, 0);
        self.registers.f = f;
        arithmetic_cost(target)
    }

    fn read_wide(&self, w: WideRegister) -> (r: u16)
        ensures
            r == self.wide(w),
    {
        match w {
            WideRegister::BC => self.registers.bc(),
            WideRegister::DE => self.registers.de(),
            WideRegister::HL => self.registers.hl(),
            WideRegister::SP => self.sp,
        }
    }

    fn write_wide(&mut self, w: WideRegister, v: u16)
        ensures
            *final(self) == old(self).with_wide(w, v),
    {
        match w {
            WideRegister::BC => self.registers.set_bc(v),
            WideRegister::DE => self.registers.set_de(v),
            WideRegister::HL => self.registers.set_hl(v),
            WideRegister::SP => self.sp = v,
        }
    }

    fn read_immediate8(&self, mem: &Mem) -> (r: u8)
        requires
            mem.wf(),
        ensures
            r == self.immediate8(mem@),
    {
        mem.read(increment(self.pc))
    }

    fn read_immediate16(&self, mem: &Mem) -> (r: u16)
        requires
            mem.wf(),
        ensures
            r == self.immediate16(mem@),
    {
        let lo_addr = increment(self.pc);
        let lo = mem.read(lo_addr);
        let hi = mem.read(increment(lo_addr));
        assert(wrap16(wrap16(self.pc, 1), 1) == wrap16(self.pc, 2));
        (hi as u16) * 256 + (lo as u16)
    }

    /// The address of a memory load target.
    fn address_of(&self, t: LoadTarget) -> (r: u16)
        ensures
            r == self.address(t),
    {
        match t {
            LoadTarget::IndirectWideRegister(w) => self.read_wide(w),
            _ => self.registers.hl(),
        }
    }

    fn load(&mut self, dst: LoadTarget, src: LoadTarget, mem: &mut Mem) -> (r: Result<(u8, u8), CpuError>)
        requires
            old(mem).wf(),
        ensures
            final(mem).wf(),
            match old(self).load_outcome(old(mem)@, dst, src) {
                Some((cpu, m, cost)) => {
                    &&& r == Ok::<(u8, u8), CpuError>(cost)
                    &&& *final(self) == cpu
                    &&& final(mem)@ == m
                },
                None => {
                    &&& r == Err::<(u8, u8), CpuError>(
                        CpuError::UnsupportedInstruction(Instruction::Load { dst, src }),
                    )
                    &&& *final(self) == *old(self)
                    &&& final(mem)@ == old(mem)@
                },
            },
    {
        let unsupported = CpuError::UnsupportedInstruction(Instruction::Load { dst, src });
        if let LoadTarget::WideRegister(w) = dst {
            if let LoadTarget::Immediate16 = src {
                let v = self.read_immediate16(mem);
                self.write_wide(w, v);
                return Ok((3, 3));
            }
            return Err(unsupported);
        }
        if !check_load8(dst, src) {
            return Err(unsupported);
        }
        let value = match src {
            LoadTarget::Register(r) => self.registers.read(r),
            LoadTarget::Immediate8 => self.read_immediate8(mem),
            _ => mem.read(self.address_of(src)),
        };
        match dst {
            LoadTarget::Register(r) => self.registers.write(r, value),
            _ => mem.write(self.address_of(dst), value),
        }
        // The access above used HL as it was; only now does it step.
        let hl = self.registers.hl();
        if matches!(dst, LoadTarget::IndirectHlInc) || matches!(src, LoadTarget::IndirectHlInc) {
            self.registers.set_hl(increment(hl));
        } else if matches!(dst, LoadTarget::IndirectHlDec) || matches!(src, LoadTarget::IndirectHlDec) {
            self.registers.set_hl(decrement(hl));
        }
        let bytes: u8 = if matches!(src, LoadTarget::Immediate8) {
            2
        } else {
            1
        };
        let cycles: u8 = if matches!(dst, LoadTarget::Register(_)) && matches!(src, LoadTarget::Register(_)) {
            1
        } else {
            2
        };
        Ok((bytes, cycles))
    }
}

/// Compare leaves A, the rest of the state and memory as they were, and sets
/// the flags exactly as Sub with the same operand would; both take the same
/// bytes and cycles.
pub proof fn lemma_compare_is_sub_without_result(cpu: Cpu, mem: Seq<u8>, t: ArithmeticTarget)
    ensures
        cpu.executed(mem, Instruction::Compare(t)) is Some,
        cpu.executed(mem, Instruction::Sub(t)) is Some,
        ({
            let (cmp, cmp_mem, cmp_cost) = cpu.executed(mem, Instruction::Compare(t)).unwrap();
            let (sub, _, sub_cost) = cpu.executed(mem, Instruction::Sub(t)).unwrap();
            &&& cmp.registers.a == cpu.registers.a
            &&& cmp.registers.f == sub.registers.f
            &&& cmp == (Cpu { registers: Registers { f: sub.registers.f, ..cpu.registers }, ..cpu })
            &&& cmp_mem == mem
            &&& cmp_cost == sub_cost
        }),
{
}

/// Storing A through HL with decrement writes A at the address HL held
/// before the access, then leaves HL one lower (wrapping at zero); nothing
/// else changes.
pub proof fn lemma_store_decrement_order(cpu: Cpu, mem: Seq<u8>)
    ensures
        ({
            let hl = cpu.registers.spec_hl();
            cpu.executed(
                mem,
                Instruction::Load { dst: LoadTarget::IndirectHlDec, src: LoadTarget::Register(Register::A) },
            ) == Some((
                Cpu { registers: cpu.registers.with_hl(wrap16(hl, -1)), ..cpu },
                mem.update(hl as int, cpu.registers.a),
                (1u8, 2u8),
            ))
        }),
{
}

} // verus!
