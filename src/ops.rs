use vstd::prelude::*;
use crate::registers::{Register, RegisterPair};

verus! {

/// Where an instruction's byte operand lives, once its immediates are fetched.
#[derive(Clone, Copy, Debug, PartialEq, Eq, Structural)]
pub enum Target {
    /// A named register.
    Register(Register),
    /// The byte at the address that a register pair holds.
    RegisterPair(RegisterPair),
    /// The byte at a fixed address.
    Addr(u16),
    /// A literal byte; it can be read, not written.
    Value(u8),
}

/// An operand as the opcode names it, before any immediate byte is fetched.
#[derive(Clone, Copy, Debug, PartialEq, Eq, Structural)]
pub enum Operand {
    /// A named register.
    Reg(Register),
    /// Memory at the address in a register pair.
    AtPair(RegisterPair),
    /// Memory at 0xFF00 + C.
    AtHighC,
    /// The byte after the opcode.
    Imm8,
    /// Memory at the 16-bit little-endian address after the opcode.
    AtImm16,
}

/// The 8-bit arithmetic and logic operations on the accumulator.
#[derive(Clone, Copy, Debug, PartialEq, Eq, Structural)]
pub enum AluOp {
    Add,
    Adc,
    Sub,
    Sbc,
    And,
    Xor,
    Or,
}

/// What an opcode byte does.
#[derive(Clone, Copy, Debug, PartialEq, Eq, Structural)]
pub enum Instruction {
    /// Does nothing.
    Nop,
    /// Loads the 16-bit immediate into a register pair.
    LoadWord(RegisterPair),
    /// Loads the 16-bit immediate into the stack pointer.
    LoadStackPointer,
    /// Copies a byte from the second operand into the first.
    Load(Operand, Operand),
    /// Combines A with the operand and writes the result into A.
    Alu(AluOp, Operand),
}

/// The operand that a three-bit register code names: B, C, D, E, H, L, (HL), A.
pub open spec fn spec_code_operand(k: u8) -> Operand {
    if k == 0 {
        Operand::Reg(Register::B)
    } else if k == 1 {
        Operand::Reg(Register::C)
    } else if k == 2 {
        Operand::Reg(Register::D)
    } else if k == 3 {
        Operand::Reg(Register::E)
    } else if k == 4 {
        Operand::Reg(Register::H)
    } else if k == 5 {
        Operand::Reg(Register::L)
    } else if k == 6 {
        Operand::AtPair(RegisterPair::HL)
    } else {
        Operand::Reg(Register::A)
    }
}

/// The operation that a three-bit code names in the 0x80 to 0xB7 block.
pub open spec fn spec_code_alu(k: u8) -> AluOp {
    if k == 0 {
        AluOp::Add
    } else if k == 1 {
        AluOp::Adc
    } else if k == 2 {
        AluOp::Sub
    } else if k == 3 {
        AluOp::Sbc
    } else if k == 4 {
        AluOp::And
    } else if k == 5 {
        AluOp::Xor
    } else {
        AluOp::Or
    }
}

/// The opcode table: the instruction that each byte stands for, or `None` where the
/// byte is not an instruction of this machine.
pub open spec fn spec_decode(op: u8) -> Option<Instruction> {
    if 0x40 <= op < 0x80 {
        if op == 0x76 {
            None
        } else {
            Some(Instruction::Load(spec_code_operand(op / 8 % 8), spec_code_operand(op % 8)))
        }
    } else if 0x80 <= op < 0xB8 {
        Some(Instruction::Alu(spec_code_alu(op / 8 % 8), spec_code_operand(op % 8)))
    } else {
        match op {
            0x00 => Some(Instruction::Nop),
            0x01 => Some(Instruction::LoadWord(RegisterPair::BC)),
            0x11 => Some(Instruction::LoadWord(RegisterPair::DE)),
            0x21 => Some(Instruction::LoadWord(RegisterPair::HL)),
            0x31 => Some(Instruction::LoadStackPointer),
            0x06 => Some(Instruction::Load(Operand::Reg(Register::B), Operand::Imm8)),
            0x0E => Some(Instruction::Load(Operand::Reg(Register::C), Operand::Imm8)),
            0x16 => Some(Instruction::Load(Operand::Reg(Register::D), Operand::Imm8)),
            0x1E => Some(Instruction::Load(Operand::Reg(Register::E), Operand::Imm8)),
            0x26 => Some(Instruction::Load(Operand::Reg(Register::H), Operand::Imm8)),
            0x2E => Some(Instruction::Load(Operand::Reg(Register::L), Operand::Imm8)),
            0x36 => Some(Instruction::Load(Operand::AtPair(RegisterPair::HL), Operand::Imm8)),
            0x3E => Some(Instruction::Load(Operand::Reg(Register::A), Operand::Imm8)),
            0x0A => Some(Instruction::Load(Operand::Reg(Register::A), Operand::AtPair(RegisterPair::BC))),
            0x1A => Some(Instruction::Load(Operand::Reg(Register::A), Operand::AtPair(RegisterPair::DE))),
            0xFA => Some(Instruction::Load(Operand::Reg(Register::A), Operand::AtImm16)),
            0x02 => Some(Instruction::Load(Operand::AtPair(RegisterPair::BC), Operand::Reg(Register::A))),
            0x12 => Some(Instruction::Load(Operand::AtPair(RegisterPair::DE), Operand::Reg(Register::A))),
            0xEA => Some(Instruction::Load(Operand::AtImm16, Operand::Reg(Register::A))),
            0xF2 => Some(Instruction::Load(Operand::Reg(Register::A), Operand::AtHighC)),
            0xE2 => Some(Instruction::Load(Operand::AtHighC, Operand::Reg(Register::A))),
            0xC6 => Some(Instruction::Alu(AluOp::Add, Operand::Imm8)),
            0xCE => Some(Instruction::Alu(AluOp::Adc, Operand::Imm8)),
            0xD6 => Some(Instruction::Alu(AluOp::Sub, Operand::Imm8)),
            0xDE => Some(Instruction::Alu(AluOp::Sbc, Operand::Imm8)),
            0xE6 => Some(Instruction::Alu(AluOp::And, Operand::Imm8)),
            0xEE => Some(Instruction::Alu(AluOp::Xor, Operand::Imm8)),
            0xF6 => Some(Instruction::Alu(AluOp::Or, Operand::Imm8)),
            _ => None,
        }
    }
}

fn code_operand(k: u8) -> (o: Operand)
    ensures
        o == spec_code_operand(k),
{
    match k {
        0 => Operand::Reg(Register::B),
        1 => Operand::Reg(Register::C),
        2 => Operand::Reg(Register::D),
        3 => Operand::Reg(Register::E),
        4 => Operand::Reg(Register::H),
        5 => Operand::Reg(Register::L),
        6 => Operand::AtPair(RegisterPair::HL),
        _ => Operand::Reg(Register::A),
    }
}

fn code_alu(k: u8) -> (a: AluOp)
    ensures
        a == spec_code_alu(k),
{
    match k {
        0 => AluOp::Add,
        1 => AluOp::Adc,
        2 => AluOp::Sub,
        3 => AluOp::Sbc,
        4 => AluOp::And,
        5 => AluOp::Xor,
        _ => AluOp::Or,
    }
}

/// Looks an opcode byte up in the opcode table.
pub fn decode(op: u8) -> (r: Option<Instruction>)
    ensures
        r == spec_decode(op),
{
    if 0x40 <= op && op < 0x80 {
        if op == 0x76 {
            None
        } else {
            Some(Instruction::Load(code_operand(op / 8 % 8), code_operand(op % 8)))
        }
    } else if 0x80 <= op && op < 0xB8 {
        Some(Instruction::Alu(code_alu(op / 8 % 8), code_operand(op % 8)))
    } else {
        match op {
            0x00 => Some(Instruction::Nop),
            0x01 => Some(Instruction::LoadWord(RegisterPair::BC)),
            0x11 => Some(Instruction::LoadWord(RegisterPair::DE)),
            0x21 => Some(Instruction::LoadWord(RegisterPair::HL)),
            0x31 => Some(Instruction::LoadStackPointer),
            0x06 => Some(Instruction::Load(Operand::Reg(Register::B), Operand::Imm8)),
            0x0E => Some(Instruction::Load(Operand::Reg(Register::C), Operand::Imm8)),
            0x16 => Some(Instruction::Load(Operand::Reg(Register::D), Operand::Imm8)),
            0x1E => Some(Instruction::Load(Operand::Reg(Register::E), Operand::Imm8)),
            0x26 => Some(Instruction::Load(Operand::Reg(Register::H), Operand::Imm8)),
            0x2E => Some(Instruction::Load(Operand::Reg(Register::L), Operand::Imm8)),
            0x36 => Some(Instruction::Load(Operand::AtPair(RegisterPair::HL), Operand::Imm8)),
            0x3E => Some(Instruction::Load(Operand::Reg(Register::A), Operand::Imm8)),
            0x0A => Some(Instruction::Load(Operand::Reg(Register::A), Operand::AtPair(RegisterPair::BC))),
            0x1A => Some(Instruction::Load(Operand::Reg(Register::A), Operand::AtPair(RegisterPair::DE))),
            0xFA => Some(Instruction::Load(Operand::Reg(Register::A), Operand::AtImm16)),
            0x02 => Some(Instruction::Load(Operand::AtPair(RegisterPair::BC), Operand::Reg(Register::A))),
            0x12 => Some(Instruction::Load(Operand::AtPair(RegisterPair::DE), Operand::Reg(Register::A))),
            0xEA => Some(Instruction::Load(Operand::AtImm16, Operand::Reg(Register::A))),
            0xF2 => Some(Instruction::Load(Operand::Reg(Register::A), Operand::AtHighC)),
            0xE2 => Some(Instruction::Load(Operand::AtHighC, Operand::Reg(Register::A))),
            0xC6 => Some(Instruction::Alu(AluOp::Add, Operand::Imm8)),
            0xCE => Some(Instruction::Alu(AluOp::Adc, Operand::Imm8)),
            0xD6 => Some(Instruction::Alu(AluOp::Sub, Operand::Imm8)),
            0xDE => Some(Instruction::Alu(AluOp::Sbc, Operand::Imm8)),
            0xE6 => Some(Instruction::Alu(AluOp::And, Operand::Imm8)),
            0xEE => Some(Instruction::Alu(AluOp::Xor, Operand::Imm8)),
            0xF6 => Some(Instruction::Alu(AluOp::Or, Operand::Imm8)),
            _ => None,
        }
    }
}

} // verus!
