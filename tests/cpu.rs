use gb_cpu::cpu::{Cpu, CpuError};
use gb_cpu::flags::Flags;
use gb_cpu::memory::{Memory, MEMORY_SIZE};
use gb_cpu::ops::{decode, AluOp, Instruction, Operand, Target};
use gb_cpu::registers::{Register, RegisterPair, Registers};

fn load(program: &[u8]) -> Cpu {
    let mut cpu = Cpu::new();
    for (i, b) in program.iter().enumerate() {
        cpu.write_byte(i as u16, *b);
    }
    cpu
}

fn run(cpu: &mut Cpu, steps: usize) {
    for _ in 0..steps {
        cpu.cycle().unwrap();
    }
}

#[test]
fn new_cpu_is_zeroed() {
    let cpu = Cpu::new();
    assert_eq!(cpu.registers(), Registers::new());
    assert_eq!(cpu.flags(), Flags::new());
    assert_eq!(cpu.pc(), 0);
    assert_eq!(cpu.sp(), 0);
    assert_eq!(cpu.read_byte(0), 0);
    assert_eq!(cpu.read_byte(0x8000), 0);
    assert_eq!(cpu.read_byte(0xFFFF), 0);
}

#[test]
fn memory_covers_every_address() {
    let mut mem = Memory::new();
    assert_eq!(MEMORY_SIZE, 0x10000);
    mem.write_byte(0xFFFF, 0xAB);
    mem.write_byte(0x0000, 0xCD);
    assert_eq!(mem.read_byte(0xFFFF), 0xAB);
    assert_eq!(mem.read_byte(0x0000), 0xCD);
    assert_eq!(mem.read_byte(0xFFFE), 0x00);
}

#[test]
fn scenario_and_immediate() {
    let mut cpu = load(&[0x3E, 0x0F, 0xE6, 0xF0]);
    run(&mut cpu, 1);
    assert_eq!(cpu.registers().a, 0x0F);
    run(&mut cpu, 1);
    assert_eq!(cpu.registers().a, 0x00);
    assert_eq!(cpu.flags(), Flags { z: true, n: false, h: true, c: false });
    assert_eq!(cpu.pc(), 4);
}

#[test]
fn scenario_add_overflow() {
    let mut cpu = load(&[0x3E, 0xFF, 0xC6, 0x01]);
    run(&mut cpu, 2);
    assert_eq!(cpu.registers().a, 0x00);
    assert_eq!(cpu.flags(), Flags { z: true, n: false, h: true, c: true });
}

#[test]
fn scenario_load_bc_immediate() {
    let mut cpu = load(&[0x01, 0x34, 0x12]);
    run(&mut cpu, 1);
    let regs = cpu.registers();
    assert_eq!(regs.bc(), 0x1234);
    assert_eq!(regs.b, 0x12);
    assert_eq!(regs.c, 0x34);
    assert_eq!(cpu.pc(), 3);
}

#[test]
fn scenario_unknown_opcode() {
    let mut cpu = load(&[0x00, 0x00, 0xFF]);
    run(&mut cpu, 2);
    let before = cpu.registers();
    assert_eq!(cpu.cycle(), Err(CpuError::UnknownOpcode { opcode: 0xFF, pc: 2 }));
    assert_eq!(cpu.pc(), 2);
    assert_eq!(cpu.registers(), before);
    assert_eq!(cpu.cycle(), Err(CpuError::UnknownOpcode { opcode: 0xFF, pc: 2 }));
}

#[test]
fn unknown_opcodes_are_reported() {
    for op in [0x76u8, 0x03, 0x10, 0xB8, 0xBF, 0xC3, 0xCB, 0xFE] {
        let mut cpu = load(&[op]);
        assert_eq!(cpu.cycle(), Err(CpuError::UnknownOpcode { opcode: op, pc: 0 }));
        assert_eq!(cpu.pc(), 0);
        assert_eq!(decode(op), None);
    }
}

#[test]
fn fetch_word_is_little_endian() {
    let mut cpu = load(&[0x00, 0x00, 0xCD, 0xAB]);
    run(&mut cpu, 2);
    assert_eq!(cpu.nw(), 0xABCD);
    assert_eq!(cpu.pc(), 4);
}

#[test]
fn fetch_byte_advances_pc() {
    let mut cpu = load(&[0x12, 0x34]);
    assert_eq!(cpu.nb(), 0x12);
    assert_eq!(cpu.pc(), 1);
    assert_eq!(cpu.nb(), 0x34);
    assert_eq!(cpu.pc(), 2);
}

#[test]
fn pc_wraps_at_top_address() {
    let mut cpu = load(&[0xCD]);
    cpu.write_byte(0xFFFF, 0xAB);
    for _ in 0..0xFFFFu32 {
        cpu.nb();
    }
    assert_eq!(cpu.pc(), 0xFFFF);
    assert_eq!(cpu.nw(), 0xCDAB);
    assert_eq!(cpu.pc(), 1);
}

#[test]
fn self_move_changes_nothing() {
    for op in [0x7Fu8, 0x40, 0x49, 0x52, 0x5B, 0x64, 0x6D] {
        let mut cpu = load(&[0x3E, 0x9C, 0x06, 0x11, 0x0E, 0x22, 0x16, 0x33, 0x1E, 0x44, 0x26, 0x55, 0x2E, 0x66, 0xC6, 0x80, op]);
        run(&mut cpu, 8);
        let regs = cpu.registers();
        let flags = cpu.flags();
        assert!(flags.c);
        run(&mut cpu, 1);
        assert_eq!(cpu.registers(), regs);
        assert_eq!(cpu.flags(), flags);
        assert_eq!(cpu.pc(), 17);
    }
}

#[test]
fn register_moves() {
    let mut cpu = load(&[0x06, 0xAA, 0x48, 0x51, 0x5A, 0x63, 0x6C, 0x7D]);
    run(&mut cpu, 7);
    let r = cpu.registers();
    assert_eq!((r.a, r.b, r.c, r.d, r.e, r.h, r.l), (0xAA, 0xAA, 0xAA, 0xAA, 0xAA, 0xAA, 0xAA));
    assert_eq!(cpu.flags(), Flags::new());
}

#[test]
fn moves_leave_flags_alone() {
    let mut cpu = load(&[0x3E, 0x00, 0xD6, 0x01, 0x47, 0x3E, 0x05, 0x02]);
    run(&mut cpu, 2);
    let flags = cpu.flags();
    assert_eq!(flags, Flags { z: false, n: true, h: true, c: true });
    run(&mut cpu, 3);
    assert_eq!(cpu.flags(), flags);
    assert_eq!(cpu.registers().b, 0xFF);
}

#[test]
fn load_and_store_through_hl() {
    let mut cpu = load(&[0x21, 0x00, 0xC0, 0x36, 0x5A, 0x7E, 0x06, 0x77, 0x70, 0x4E]);
    run(&mut cpu, 3);
    assert_eq!(cpu.read_byte(0xC000), 0x5A);
    assert_eq!(cpu.registers().a, 0x5A);
    run(&mut cpu, 3);
    assert_eq!(cpu.read_byte(0xC000), 0x77);
    assert_eq!(cpu.registers().c, 0x77);
    assert_eq!(cpu.registers().hl(), 0xC000);
}

#[test]
fn load_and_store_through_bc_and_de() {
    let mut cpu = load(&[0x01, 0x00, 0x90, 0x11, 0x01, 0x90, 0x3E, 0x42, 0x02, 0x3E, 0x24, 0x12, 0x0A]);
    run(&mut cpu, 7);
    assert_eq!(cpu.read_byte(0x9000), 0x42);
    assert_eq!(cpu.read_byte(0x9001), 0x24);
    assert_eq!(cpu.registers().a, 0x42);
    let mut cpu2 = load(&[0x11, 0x10, 0x00, 0x1A]);
    cpu2.write_byte(0x0010, 0x99);
    run(&mut cpu2, 2);
    assert_eq!(cpu2.registers().a, 0x99);
}

#[test]
fn load_and_store_absolute() {
    let mut cpu = load(&[0x3E, 0x37, 0xEA, 0x34, 0x12, 0x3E, 0x00, 0xFA, 0x34, 0x12]);
    run(&mut cpu, 2);
    assert_eq!(cpu.read_byte(0x1234), 0x37);
    assert_eq!(cpu.pc(), 5);
    run(&mut cpu, 2);
    assert_eq!(cpu.registers().a, 0x37);
    assert_eq!(cpu.pc(), 10);
}

#[test]
fn load_and_store_high_page() {
    let mut cpu = load(&[0x0E, 0x80, 0x3E, 0x3C, 0xE2, 0x0E, 0x81, 0xF2]);
    cpu.write_byte(0xFF81, 0xC3);
    run(&mut cpu, 3);
    assert_eq!(cpu.read_byte(0xFF80), 0x3C);
    run(&mut cpu, 2);
    assert_eq!(cpu.registers().a, 0xC3);
}

#[test]
fn load_word_immediates() {
    let mut cpu = load(&[0x11, 0xEF, 0xBE, 0x21, 0x0D, 0xF0, 0x31, 0xFE, 0xFF]);
    run(&mut cpu, 3);
    assert_eq!(cpu.registers().de(), 0xBEEF);
    assert_eq!(cpu.registers().hl(), 0xF00D);
    assert_eq!(cpu.sp(), 0xFFFE);
    assert_eq!(cpu.pc(), 9);
}

#[test]
fn alu_register_and_memory_operands() {
    // A = 0x10, B = 0x05, (HL) = 0x03
    let mut cpu = load(&[0x3E, 0x10, 0x06, 0x05, 0x21, 0x00, 0xD0, 0x36, 0x03, 0x80, 0x96, 0xA8, 0xB0, 0x87]);
    run(&mut cpu, 5);
    assert_eq!(cpu.registers().a, 0x15);
    run(&mut cpu, 1);
    assert_eq!(cpu.registers().a, 0x12);
    assert_eq!(cpu.flags(), Flags { z: false, n: true, h: false, c: false });
    run(&mut cpu, 1);
    assert_eq!(cpu.registers().a, 0x17);
    run(&mut cpu, 1);
    assert_eq!(cpu.registers().a, 0x17);
    run(&mut cpu, 1);
    assert_eq!(cpu.registers().a, 0x2E);
    assert_eq!(cpu.flags(), Flags { z: false, n: false, h: false, c: false });
}

#[test]
fn alu_immediates_with_carry() {
    let mut cpu = load(&[0x3E, 0xF0, 0xC6, 0x20, 0xCE, 0x00, 0xD6, 0x01, 0xDE, 0x00, 0xEE, 0xFF, 0xF6, 0x00]);
    run(&mut cpu, 2);
    assert_eq!(cpu.registers().a, 0x10);
    assert!(cpu.flags().c);
    run(&mut cpu, 1);
    assert_eq!(cpu.registers().a, 0x11);
    assert!(!cpu.flags().c);
    run(&mut cpu, 1);
    assert_eq!(cpu.registers().a, 0x10);
    run(&mut cpu, 1);
    assert_eq!(cpu.registers().a, 0x10);
    run(&mut cpu, 1);
    assert_eq!(cpu.registers().a, 0xEF);
    run(&mut cpu, 1);
    assert_eq!(cpu.registers().a, 0xEF);
    assert_eq!(cpu.flags(), Flags::new());
}

#[test]
fn decode_table_entries() {
    assert_eq!(decode(0x00), Some(Instruction::Nop));
    assert_eq!(decode(0x01), Some(Instruction::LoadWord(RegisterPair::BC)));
    assert_eq!(decode(0x31), Some(Instruction::LoadStackPointer));
    assert_eq!(decode(0x3E), Some(Instruction::Load(Operand::Reg(Register::A), Operand::Imm8)));
    assert_eq!(decode(0x46), Some(Instruction::Load(Operand::Reg(Register::B), Operand::AtPair(RegisterPair::HL))));
    assert_eq!(decode(0x70), Some(Instruction::Load(Operand::AtPair(RegisterPair::HL), Operand::Reg(Register::B))));
    assert_eq!(decode(0xE2), Some(Instruction::Load(Operand::AtHighC, Operand::Reg(Register::A))));
    assert_eq!(decode(0xFA), Some(Instruction::Load(Operand::Reg(Register::A), Operand::AtImm16)));
    assert_eq!(decode(0x9E), Some(Instruction::Alu(AluOp::Sbc, Operand::AtPair(RegisterPair::HL))));
    assert_eq!(decode(0xAF), Some(Instruction::Alu(AluOp::Xor, Operand::Reg(Register::A))));
    assert_eq!(decode(0xB7), Some(Instruction::Alu(AluOp::Or, Operand::Reg(Register::A))));
    assert_eq!(decode(0xE6), Some(Instruction::Alu(AluOp::And, Operand::Imm8)));
    assert_eq!(decode(0xFF), None);
}

#[test]
fn targets_read_and_write() {
    let mut cpu = load(&[0x21, 0x00, 0xA0]);
    run(&mut cpu, 1);
    cpu.write_target(Target::RegisterPair(RegisterPair::HL), 0x11);
    cpu.write_target(Target::Addr(0xA001), 0x22);
    cpu.write_target(Target::Register(Register::E), 0x33);
    cpu.write_target(Target::Value(0x44), 0x55);
    assert_eq!(cpu.read_byte(0xA000), 0x11);
    assert_eq!(cpu.read_target(Target::RegisterPair(RegisterPair::HL)), 0x11);
    assert_eq!(cpu.read_target(Target::Addr(0xA001)), 0x22);
    assert_eq!(cpu.read_target(Target::Register(Register::E)), 0x33);
    assert_eq!(cpu.read_target(Target::Value(0x44)), 0x44);
}

#[test]
fn execute_decoded_instruction() {
    let mut cpu = load(&[0x00, 0x42]);
    cpu.nb();
    cpu.execute(Instruction::Load(Operand::Reg(Register::H), Operand::Imm8));
    assert_eq!(cpu.registers().h, 0x42);
    assert_eq!(cpu.pc(), 2);
}
