use vstd::prelude::*;

pub mod cpu;
pub mod mem;

pub use cpu::instructions::{ArithmeticTarget, Instruction, LoadTarget, Register, WideRegister};
pub use cpu::registers::{Flag, Flags, Registers};
pub use cpu::{Cpu, CpuError};
pub use mem::{Mem, Rom};

use cpu::instructions::decoded;
use cpu::wrap16;

verus! {

/// The machine: a processor and the address space it runs on.
pub struct Emu {
    pub cpu: Cpu,
    pub mem: Mem,
}

/// The instruction at the program counter, or the decode failure with the
/// opcode and the address it was fetched from.
pub open spec fn fetched(cpu: Cpu, mem: Seq<u8>) -> Result<Instruction, CpuError> {
    let opcode = mem[cpu.pc as int];
    match decoded(opcode) {
        Some(ins) => Ok(ins),
        None => Err(CpuError::UnknownOpcode { opcode, address: cpu.pc }),
    }
}

/// One fetch-decode-execute step: the next state and memory, with the program
/// counter advanced past the instruction, or the error that stops the machine.
pub open spec fn stepped(cpu: Cpu, mem: Seq<u8>) -> Result<(Cpu, Seq<u8>), CpuError> {
    match fetched(cpu, mem) {
        Err(e) => Err(e),
        Ok(ins) => match cpu.executed(mem, ins) {
            None => Err(CpuError::UnsupportedInstruction(ins)),
            Some((next, m, cost)) => Ok((Cpu { pc: wrap16(next.pc, cost.0 as int), ..next }, m)),
        },
    }
}

/// The state and memory after at most `n` steps, and the error that stopped
/// the machine early, if one did. A failing step changes nothing.
pub open spec fn ran(cpu: Cpu, mem: Seq<u8>, n: nat) -> (Cpu, Seq<u8>, Option<CpuError>)
    decreases n,
{
    if n == 0 {
        (cpu, mem, None)
    } else {
        match stepped(cpu, mem) {
            Err(e) => (cpu, mem, Some(e)),
            Ok((next, m)) => ran(next, m, (n - 1) as nat),
        }
    }
}

impl Emu {
    fn fetch_instruction(&self) -> (r: Result<Instruction, CpuError>)
        requires
            self.mem.wf(),
        ensures
            r == fetched(self.cpu, self.mem@),
    {
        let address = self.cpu.pc();
        let opcode = self.mem.read(address);
        match Instruction::decode(opcode) {
            Some(ins) => Ok(ins),
            None => Err(CpuError::UnknownOpcode { opcode, address }),
        }
    }

    /// Reads the opcode at the program counter, decodes and executes it, and
    /// advances the program counter by the instruction's length. Returns the
    /// new program counter. On failure nothing changes.
    pub fn fetch_and_execute(&mut self) -> (r: Result<u16, CpuError>)
        requires
            old(self).mem.wf(),
        ensures
            final(self).mem.wf(),
            match stepped(old(self).cpu, old(self).mem@) {
                Ok((cpu, m)) => {
                    &&& r == Ok::<u16, CpuError>(cpu.pc)
                    &&& final(self).cpu == cpu
                    &&& final(self).mem@ == m
                },
                Err(e) => {
                    &&& r == Err::<u16, CpuError>(e)
                    &&& final(self).cpu == old(self).cpu
                    &&& final(self).mem@ == old(self).mem@
                },
            },
    {
        let instruction = match self.fetch_instruction() {
            Ok(ins) => ins,
            Err(e) => return Err(e),
        };
        let (bytes, _cycles) = match self.cpu.execute(instruction, &mut self.mem) {
            Ok(cost) => cost,
            Err(e) => return Err(e),
        };
        self.cpu.pc = ((self.cpu.pc as u32 + bytes as u32) % 0x10000) as u16;
        Ok(self.cpu.pc)
    }

    /// Runs at most `max_steps` steps, stopping at the first failure.
    pub fn run(&mut self, max_steps: u64) -> (r: Result<(), CpuError>)
        requires
            old(self).mem.wf(),
        ensures
            final(self).mem.wf(),
            ({
                let (cpu, m, stopped) = ran(old(self).cpu, old(self).mem@, max_steps as nat);
                &&& final(self).cpu == cpu
                &&& final(self).mem@ == m
                &&& r == match stopped {
                    None => Ok::<(), CpuError>(()),
                    Some(e) => Err(e),
                }
            }),
    {
        let mut done: u64 = 0;
        while done < max_steps
            invariant
                self.mem.wf(),
                done <= max_steps,
                ran(old(self).cpu, old(self).mem@, max_steps as nat) == ran(
                    self.cpu,
                    self.mem@,
                    (max_steps - done) as nat,
                ),
            decreases max_steps - done,
        {
            if let Err(e) = self.fetch_and_execute() {
                return Err(e);
            }
            done += 1;
        }
        Ok(())
    }
}

/// An opcode outside the table stops the machine with a decode failure that
/// names the opcode and its address, and changes nothing; no opcode but
/// `0x00` decodes as a no-op.
pub proof fn lemma_unknown_opcode_fails(cpu: Cpu, mem: Seq<u8>, op: u8)
    ensures
        decoded(mem[cpu.pc as int]) is None ==> stepped(cpu, mem) == Err::<(Cpu, Seq<u8>), CpuError>(
            CpuError::UnknownOpcode { opcode: mem[cpu.pc as int], address: cpu.pc },
        ),
        decoded(mem[cpu.pc as int]) is None ==> ran(cpu, mem, 1) == (cpu, mem, Some(
            CpuError::UnknownOpcode { opcode: mem[cpu.pc as int], address: cpu.pc },
        )),
        decoded(op) == Some(Instruction::Nop) <==> op == 0,
{
}

} // verus!
