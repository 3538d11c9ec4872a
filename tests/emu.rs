use dame_boy::{ArithmeticTarget, Cpu, CpuError, Emu, Instruction, LoadTarget, Mem, Register};

fn emu_with(program: &[u8]) -> Emu {
    Emu { cpu: Cpu::default(), mem: Mem::new(program.to_vec()) }
}

#[test]
fn mem_holds_boot_image_then_zeros() {
    let mem = Mem::new(vec![1, 2, 3]);
    assert_eq!(mem.read(0), 1);
    assert_eq!(mem.read(2), 3);
    assert_eq!(mem.read(3), 0);
    assert_eq!(mem.read(0xFFFF), 0);
}

#[test]
fn mem_write_then_read() {
    let mut mem = Mem::new(Vec::new());
    mem.write(0xFFFF, 0xAA);
    mem.write(0x1234, 0x55);
    assert_eq!(mem.read(0xFFFF), 0xAA);
    assert_eq!(mem.read(0x1234), 0x55);
    assert_eq!(mem.read(0x1235), 0x00);
}

#[test]
fn full_boot_image_fits() {
    let boot: Vec<u8> = (0..0x10000usize).map(|i| (i % 251) as u8).collect();
    let mem = Mem::new(boot);
    assert_eq!(mem.read(0xFFFF), (0xFFFF % 251) as u8);
}

#[test]
fn fetch_and_execute_advances_by_length() {
    // LD SP,0xFFFE; LD B,0x07; ADD B; NOP
    let mut emu = emu_with(&[0x31, 0xFE, 0xFF, 0x06, 0x07, 0x80, 0x00]);
    assert_eq!(emu.fetch_and_execute(), Ok(3));
    assert_eq!(emu.cpu.sp, 0xFFFE);
    assert_eq!(emu.fetch_and_execute(), Ok(5));
    assert_eq!(emu.cpu.registers.b, 0x07);
    assert_eq!(emu.fetch_and_execute(), Ok(6));
    assert_eq!(emu.cpu.registers.a, 0x07);
    assert_eq!(emu.fetch_and_execute(), Ok(7));
    assert_eq!(emu.cpu.pc(), 7);
}

#[test]
fn unknown_opcode_stops_with_address() {
    let mut emu = emu_with(&[0x00, 0x00, 0xFF]);
    assert_eq!(emu.run(10), Err(CpuError::UnknownOpcode { opcode: 0xFF, address: 2 }));
    assert_eq!(emu.cpu.pc(), 2);
    let before = emu.cpu;
    assert_eq!(emu.fetch_and_execute(), Err(CpuError::UnknownOpcode { opcode: 0xFF, address: 2 }));
    assert_eq!(emu.cpu, before);
}

#[test]
fn run_stops_after_max_steps() {
    let mut emu = emu_with(&[0x00, 0x00, 0x00, 0xFF]);
    assert_eq!(emu.run(2), Ok(()));
    assert_eq!(emu.cpu.pc(), 2);
    assert_eq!(emu.run(0), Ok(()));
    assert_eq!(emu.cpu.pc(), 2);
}

#[test]
fn run_program_with_store_decrement() {
    // LD HL,0x9000; LD B,0x42; ADD B; LD (HL-),A; then an unknown opcode
    let mut emu = emu_with(&[0x21, 0x00, 0x90, 0x06, 0x42, 0x80, 0x32, 0xFF]);
    assert_eq!(emu.run(100), Err(CpuError::UnknownOpcode { opcode: 0xFF, address: 7 }));
    assert_eq!(emu.mem.read(0x9000), 0x42);
    assert_eq!(emu.cpu.registers.hl(), 0x8FFF);
    assert_eq!(emu.cpu.registers.a, 0x42);
}

#[test]
fn program_counter_wraps() {
    let mut boot = vec![0u8; 0x10000];
    boot[0xFFFF] = 0x06; // LD B,n with its operand at address 0
    boot[0x0000] = 0x99;
    let mut emu = Emu { cpu: Cpu { pc: 0xFFFF, ..Cpu::default() }, mem: Mem::new(boot) };
    assert_eq!(emu.fetch_and_execute(), Ok(0x0001));
    assert_eq!(emu.cpu.registers.b, 0x99);
}

#[test]
fn execute_reports_unsupported_instruction() {
    let mut emu = emu_with(&[]);
    let ins = Instruction::Load { dst: LoadTarget::Immediate16, src: LoadTarget::Register(Register::A) };
    assert_eq!(emu.cpu.execute(ins, &mut emu.mem), Err(CpuError::UnsupportedInstruction(ins)));
    assert_eq!(
        emu.cpu.execute(Instruction::Compare(ArithmeticTarget::IndirectHl), &mut emu.mem),
        Ok((1, 2))
    );
}
