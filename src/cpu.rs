use vstd::prelude::*;
use crate::alu::alu;
use crate::flags::Flags;
use crate::memory::{Memory, MEMORY_SIZE};
use crate::ops::{decode, spec_decode, AluOp, Instruction, Operand, Target};
use crate::registers::{join, Register, Registers};

verus! {

/// The one error of the core: the byte fetched at `pc` is not in the opcode table.
#[derive(Clone, Copy, Debug, PartialEq, Eq, Structural)]
pub enum CpuError {
    UnknownOpcode { opcode: u8, pc: u16 },
}

/// The mathematical state of a CPU: registers, flags, the bytes of memory, the program
/// counter and the stack pointer.
pub struct CpuState {
    pub regs: Registers,
    pub flags: Flags,
    pub mem: Seq<u8>,
    pub pc: u16,
    pub sp: u16,
}

/// The address after `a`; the top address is followed by address zero.
pub open spec fn next_addr(a: u16) -> u16 {
    ((a + 1) % 0x10000) as u16
}

/// How many immediate bytes an operand takes from the instruction stream.
pub open spec fn operand_len(o: Operand) -> int {
    match o {
        Operand::Imm8 => 1,
        Operand::AtImm16 => 2,
        _ => 0,
    }
}

impl CpuState {
    /// Memory covers every 16-bit address.
    pub open spec fn wf(self) -> bool {
        self.mem.len() == MEMORY_SIZE
    }

    pub open spec fn byte_at(self, addr: u16) -> u8 {
        self.mem[addr as int]
    }

    /// The little-endian word at `addr`: low byte at `addr`, high byte at the next address.
    pub open spec fn word_at(self, addr: u16) -> u16 {
        join(self.byte_at(next_addr(addr)), self.byte_at(addr))
    }

    /// This state with the program counter moved `n` bytes on, wrapping at the top.
    pub open spec fn advance(self, n: int) -> CpuState {
        CpuState { pc: ((self.pc + n) % 0x10000) as u16, ..self }
    }

    /// This state with `v` stored at `addr`.
    pub open spec fn store(self, addr: u16, v: u8) -> CpuState {
        CpuState { mem: self.mem.update(addr as int, v), ..self }
    }

    /// The target that operand `o` stands for, its immediates read at the program counter.
    pub open spec fn target_of(self, o: Operand) -> Target {
        match o {
            Operand::Reg(r) => Target::Register(r),
            Operand::AtPair(p) => Target::RegisterPair(p),
            Operand::AtHighC => Target::Addr((0xFF00 + self.regs.c) as u16),
            Operand::Imm8 => Target::Value(self.byte_at(self.pc)),
            Operand::AtImm16 => Target::Addr(self.word_at(self.pc)),
        }
    }

    /// The byte that target `t` holds.
    pub open spec fn read(self, t: Target) -> u8 {
        match t {
            Target::Register(r) => self.regs.get(r),
            Target::RegisterPair(p) => self.byte_at(self.regs.get_pair(p)),
            Target::Addr(a) => self.byte_at(a),
            Target::Value(v) => v,
        }
    }

    /// This state with `v` written into target `t`; a literal takes no write.
    pub open spec fn write(self, t: Target, v: u8) -> CpuState {
        match t {
            Target::Register(r) => CpuState { regs: self.regs.with(r, v), ..self },
            Target::RegisterPair(p) => self.store(self.regs.get_pair(p), v),
            Target::Addr(a) => self.store(a, v),
            Target::Value(_) => self,
        }
    }

    /// This state after `op` on A and `b`: the result in A and all four flags recomputed.
    pub open spec fn apply_alu(self, op: AluOp, b: u8) -> CpuState {
        let (r, f) = alu(op, self.regs.a, b, self.flags.c);
        CpuState { regs: self.regs.with(Register::A, r), flags: f, ..self }
    }

    /// This state after instruction `i`, the program counter standing just past its opcode.
    pub open spec fn execute(self, i: Instruction) -> CpuState {
        match i {
            Instruction::Nop => self,
            Instruction::LoadWord(p) => CpuState {
                regs: self.regs.with_pair(p, self.word_at(self.pc)),
                ..self.advance(2)
            },
            Instruction::LoadStackPointer => CpuState { sp: self.word_at(self.pc), ..self.advance(2) },
            Instruction::Load(d, s) => {
                let td = self.target_of(d);
                let s1 = self.advance(operand_len(d));
                let ts = s1.target_of(s);
                let s2 = s1.advance(operand_len(s));
                s2.write(td, s2.read(ts))
            },
            Instruction::Alu(op, s) => {
                let t = self.target_of(s);
                let s1 = self.advance(operand_len(s));
                s1.apply_alu(op, s1.read(t))
            },
        }
    }

    /// One step: fetch the opcode at the program counter, move past it and execute it,
    /// or report it with its address when the opcode table has no entry for it.
    pub open spec fn step(self) -> Result<CpuState, CpuError> {
        let op = self.byte_at(self.pc);
        match spec_decode(op) {
            Some(i) => Ok(self.advance(1).execute(i)),
            None => Err(CpuError::UnknownOpcode { opcode: op, pc: self.pc }),
        }
    }
}

/// The CPU: registers, flags, memory bus, program counter and stack pointer.
pub struct Cpu {
    regs: Registers,
    flags: Flags,
    mem: Memory,
    pc: u16,
    sp: u16,
}

impl View for Cpu {
    type V = CpuState;

    closed spec fn view(&self) -> CpuState {
        CpuState { regs: self.regs, flags: self.flags, mem: self.mem@, pc: self.pc, sp: self.sp }
    }
}

impl Cpu {
    pub open spec fn wf(&self) -> bool {
        self@.wf()
    }

    /// A CPU with all registers, flags, the program counter and the stack pointer at
    /// zero, and memory zero-filled.
    pub fn new() -> (cpu: Cpu)
        ensures
            cpu.wf(),
            cpu@.regs == Registers::new_spec(),
            cpu@.flags == (Flags { z: false, n: false, h: false, c: false }),
            cpu@.pc == 0,
            cpu@.sp == 0,
            forall|i: int| 0 <= i < MEMORY_SIZE ==> cpu@.mem[i] == 0,
    {
        Cpu { regs: Registers::new(), flags: Flags::new(), mem: Memory::new(), pc: 0, sp: 0 }
    }

    pub fn read_byte(&self, addr: u16) -> (v: u8)
        requires
            self.wf(),
        ensures
            v == self@.byte_at(addr),
    {
        self.mem.read_byte(addr)
    }

    pub fn write_byte(&mut self, addr: u16, value: u8)
        requires
            old(self).wf(),
        ensures
            final(self)@ == old(self)@.store(addr, value),
            final(self).wf(),
    {
        self.mem.write_byte(addr, value)
    }

    /// Fetches the byte at the program counter and moves the counter past it.
    pub fn nb(&mut self) -> (v: u8)
        requires
            old(self).wf(),
        ensures
            v == old(self)@.byte_at(old(self)@.pc),
            final(self)@ == old(self)@.advance(1),
            final(self).wf(),
    {
        let v = self.mem.read_byte(self.pc);
        self.pc = self.pc.wrapping_add(1);
        v
    }

    /// Fetches the little-endian word at the program counter and moves the counter past it.
    pub fn nw(&mut self) -> (v: u16)
        requires
            old(self).wf(),
        ensures
            v == old(self)@.word_at(old(self)@.pc),
            final(self)@ == old(self)@.advance(2),
            final(self).wf(),
    {
        let lo = self.nb();
        let hi = self.nb();
        assert(((hi as u16) << 8u16) | (lo as u16) == hi as u16 * 256 + lo as u16) by (bit_vector);
        ((hi as u16) << 8) | (lo as u16)
    }

    fn finish_alu(&mut self, r: u8, f: Flags)
        ensures
            final(self)@ == (CpuState { regs: old(self)@.regs.with(Register::A, r), flags: f, ..old(self)@ }),
    {
        self.regs.a = r;
        self.flags = f;
    }

    /// ADD (or ADC, where `carry` says to add the carry flag) of `b` into A.
    pub fn op_add(&mut self, b: u8, carry: bool)
        ensures
            final(self)@ == old(self)@.apply_alu(if carry { AluOp::Adc } else { AluOp::Add }, b),
    {
        let a = self.regs.a;
        let c: u8 = if carry && self.flags.c { 1 } else { 0 };
        let res = a.wrapping_add(b).wrapping_add(c);
        assert(a & 0xFu8 == a % 16 && b & 0xFu8 == b % 16) by (bit_vector);
        let h = (a & 0xF) + (b & 0xF) + c > 0xF;
        let cy = (a as u16) + (b as u16) + (c as u16) > 0xFF;
        self.finish_alu(res, Flags { z: res == 0, n: false, h, c: cy });
    }

    /// SUB (or SBC, where `carry` says to subtract the carry flag) of `b` from A.
    pub fn op_sub(&mut self, b: u8, carry: bool)
        ensures
            final(self)@ == old(self)@.apply_alu(if carry { AluOp::Sbc } else { AluOp::Sub }, b),
    {
        let a = self.regs.a;
        let c: u8 = if carry && self.flags.c { 1 } else { 0 };
        let res = a.wrapping_sub(b).wrapping_sub(c);
        assert(a & 0xFu8 == a % 16 && b & 0xFu8 == b % 16) by (bit_vector);
        let h = (a & 0xF) < (b & 0xF) + c;
        let cy = (a as u16) < (b as u16) + (c as u16);
        self.finish_alu(res, Flags { z: res == 0, n: true, h, c: cy });
    }

    /// AND of `b` into A.
    pub fn op_and(&mut self, b: u8)
        ensures
            final(self)@ == old(self)@.apply_alu(AluOp::And, b),
    {
        let res = self.regs.a & b;
        self.finish_alu(res, Flags { z: res == 0, n: false, h: true, c: false });
    }

    /// OR of `b` into A.
    pub fn op_or(&mut self, b: u8)
        ensures
            final(self)@ == old(self)@.apply_alu(AluOp::Or, b),
    {
        let res = self.regs.a | b;
        self.finish_alu(res, Flags { z: res == 0, n: false, h: false, c: false });
    }

    /// XOR of `b` into A.
    pub fn op_xor(&mut self, b: u8)
        ensures
            final(self)@ == old(self)@.apply_alu(AluOp::Xor, b),
    {
        let res = self.regs.a ^ b;
        self.finish_alu(res, Flags { z: res == 0, n: false, h: false, c: false });
    }
    /// Turns an operand into its target, fetching any immediate it takes.
    fn resolve(&mut self, o: Operand) -> (t: Target)
        requires
            old(self).wf(),
        ensures
            t == old(self)@.target_of(o),
            final(self)@ == old(self)@.advance(operand_len(o)),
            final(self).wf(),
    {
        match o {
            Operand::Reg(r) => Target::Register(r),
            Operand::AtPair(p) => Target::RegisterPair(p),
            Operand::AtHighC => Target::Addr(0xFF00 + self.regs.c as u16),
            Operand::Imm8 => Target::Value(self.nb()),
            Operand::AtImm16 => Target::Addr(self.nw()),
        }
    }

    /// The byte that a target holds.
    pub fn read_target(&self, t: Target) -> (v: u8)
        requires
            self.wf(),
        ensures
            v == self@.read(t),
    {
        match t {
            Target::Register(r) => self.regs.read(r),
            Target::RegisterPair(p) => self.mem.read_byte(self.regs.read_pair(p)),
            Target::Addr(a) => self.mem.read_byte(a),
            Target::Value(v) => v,
        }
    }

    /// Writes a byte into a target; a literal target is left as it is.
    pub fn write_target(&mut self, t: Target, v: u8)
        requires
            old(self).wf(),
        ensures
            final(self)@ == old(self)@.write(t, v),
            final(self).wf(),
    {
        match t {
            Target::Register(r) => self.regs.write(r, v),
            Target::RegisterPair(p) => {
                let addr = self.regs.read_pair(p);
                self.mem.write_byte(addr, v);
            },
            Target::Addr(a) => self.mem.write_byte(a, v),
            Target::Value(_) => {},
        }
    }

    /// Runs one ALU operation of A against `b`.
    fn alu_op(&mut self, op: AluOp, b: u8)
        ensures
            final(self)@ == old(self)@.apply_alu(op, b),
    {
        match op {
            AluOp::Add => self.op_add(b, false),
            AluOp::Adc => self.op_add(b, true),
            AluOp::Sub => self.op_sub(b, false),
            AluOp::Sbc => self.op_sub(b, true),
            AluOp::And => self.op_and(b),
            AluOp::Xor => self.op_xor(b),
            AluOp::Or => self.op_or(b),
        }
    }

    /// Executes a decoded instruction whose opcode has already been fetched.
    pub fn execute(&mut self, i: Instruction)
        requires
            old(self).wf(),
        ensures
            final(self)@ == old(self)@.execute(i),
            final(self).wf(),
    {
        match i {
            Instruction::Nop => {},
            Instruction::LoadWord(p) => {
                let nn = self.nw();
                self.regs.write_pair(p, nn);
            },
            Instruction::LoadStackPointer => {
                self.sp = self.nw();
            },
            Instruction::Load(d, s) => {
                let td = self.resolve(d);
                let ts = self.resolve(s);
                let v = self.read_target(ts);
                self.write_target(td, v);
            },
            Instruction::Alu(op, s) => {
                let t = self.resolve(s);
                let b = self.read_target(t);
                self.alu_op(op, b);
            },
        }
    }

    /// Runs one instruction: fetches the opcode at the program counter, advances past it
    /// and executes it. An opcode missing from the table halts the step: the CPU is left
    /// as it was and the error names the opcode and its address.
    pub fn cycle(&mut self) -> (r: Result<(), CpuError>)
        requires
            old(self).wf(),
        ensures
            final(self).wf(),
            match old(self)@.step() {
                Ok(s) => r == Ok::<(), CpuError>(()) && final(self)@ == s,
                Err(e) => r == Err::<(), CpuError>(e) && final(self)@ == old(self)@,
            },
    {
        let pc = self.pc;
        let op = self.nb();
        match decode(op) {
            Some(i) => {
                self.execute(i);
                Ok(())
            },
            None => {
                self.pc = pc;
                Err(CpuError::UnknownOpcode { opcode: op, pc })
            },
        }
    }

    pub fn registers(&self) -> (r: Registers)
        ensures
            r == self@.regs,
    {
        self.regs
    }

    pub fn flags(&self) -> (f: Flags)
        ensures
            f == self@.flags,
    {
        self.flags
    }

    pub fn pc(&self) -> (pc: u16)
        ensures
            pc == self@.pc,
    {
        self.pc
    }

    pub fn sp(&self) -> (sp: u16)
        ensures
            sp == self@.sp,
    {
        self.sp
    }
}

/// Writing `lo` at the program counter and `hi` at the next address, then fetching a
/// 16-bit immediate, gives `hi * 256 + lo`.
pub proof fn lemma_fetch_word_little_endian(s: CpuState, lo: u8, hi: u8)
    requires
        s.wf(),
    ensures
        s.store(s.pc, lo).store(next_addr(s.pc), hi).word_at(s.pc) == hi * 256 + lo,
{
}

/// Moving a register into itself changes no register and no flag: a step on such an
/// opcode only moves the program counter past it.
pub proof fn lemma_self_move(s: CpuState, r: Register)
    ensures
        s.execute(Instruction::Load(Operand::Reg(r), Operand::Reg(r))) == s,
        spec_decode(s.byte_at(s.pc)) == Some(Instruction::Load(Operand::Reg(r), Operand::Reg(r)))
            ==> s.step() == Ok::<CpuState, CpuError>(s.advance(1)),
{
    assert(s.advance(0) == s);
}

} // verus!
