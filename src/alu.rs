use vstd::prelude::*;
use crate::flags::Flags;
use crate::ops::AluOp;

verus! {

/// The carry bit that `op` feeds in: the carry flag for ADC and SBC, zero otherwise.
pub open spec fn carry_in(op: AluOp, carry_flag: bool) -> int {
    if (op == AluOp::Adc || op == AluOp::Sbc) && carry_flag {
        1
    } else {
        0
    }
}

/// `a + b + c`, wrapped to eight bits.
pub open spec fn add_result(a: u8, b: u8, c: int) -> u8 {
    ((a + b + c) % 256) as u8
}

/// The flags after `a + b + c`: half-carry out of the low nibble, carry out of the byte.
pub open spec fn add_flags(a: u8, b: u8, c: int) -> Flags {
    Flags {
        z: add_result(a, b, c) == 0,
        n: false,
        h: a % 16 + b % 16 + c > 15,
        c: a + b + c > 255,
    }
}

/// `a - b - c`, wrapped to eight bits.
pub open spec fn sub_result(a: u8, b: u8, c: int) -> u8 {
    ((a - b - c) % 256) as u8
}

/// The flags after `a - b - c`: borrow from the high nibble, borrow from beyond the byte.
pub open spec fn sub_flags(a: u8, b: u8, c: int) -> Flags {
    Flags {
        z: sub_result(a, b, c) == 0,
        n: true,
        h: a % 16 < b % 16 + c,
        c: a < b + c,
    }
}

/// The flags after a logic operation with result `r`; `half` is the fixed half-carry.
pub open spec fn logic_flags(r: u8, half: bool) -> Flags {
    Flags { z: r == 0, n: false, h: half, c: false }
}

/// The result and the new flags of `op` on accumulator `a` and operand `b`, given the
/// current carry flag. The flags are computed afresh, never merged with the old ones.
pub open spec fn alu(op: AluOp, a: u8, b: u8, carry_flag: bool) -> (u8, Flags) {
    let c = carry_in(op, carry_flag);
    match op {
        AluOp::Add | AluOp::Adc => (add_result(a, b, c), add_flags(a, b, c)),
        AluOp::Sub | AluOp::Sbc => (sub_result(a, b, c), sub_flags(a, b, c)),
        AluOp::And => (a & b, logic_flags(a & b, true)),
        AluOp::Xor => (a ^ b, logic_flags(a ^ b, false)),
        AluOp::Or => (a | b, logic_flags(a | b, false)),
    }
}

/// ADD wraps the sum to a byte, sets carry exactly when the sum exceeds 255 and
/// half-carry exactly when the low nibbles sum past 15, whatever the carry flag held.
pub proof fn lemma_add(a: u8, b: u8, carry_flag: bool)
    ensures
        alu(AluOp::Add, a, b, carry_flag).0 == (a + b) % 256,
        alu(AluOp::Add, a, b, carry_flag).1.c == (a + b > 255),
        alu(AluOp::Add, a, b, carry_flag).1.h == (a % 16 + b % 16 > 15),
        alu(AluOp::Add, a, b, carry_flag).1.z == ((a + b) % 256 == 0),
        !alu(AluOp::Add, a, b, carry_flag).1.n,
{
}

/// ADC with the carry flag set adds one more, and its flags count that one.
pub proof fn lemma_adc_carry_set(a: u8, b: u8)
    ensures
        alu(AluOp::Adc, a, b, true).0 == (a + b + 1) % 256,
        alu(AluOp::Adc, a, b, true).1 == add_flags(a, b, 1),
{
}

/// SUB sets zero exactly when the operands are equal and carry exactly when `a < b`;
/// SUB and SBC always set the subtract flag.
pub proof fn lemma_sub(a: u8, b: u8, carry_flag: bool)
    ensures
        alu(AluOp::Sub, a, b, carry_flag).1.z == (a == b),
        alu(AluOp::Sub, a, b, carry_flag).1.c == (a < b),
        alu(AluOp::Sub, a, b, carry_flag).1.n,
        alu(AluOp::Sbc, a, b, carry_flag).1.n,
{
}

/// AND, OR and XOR clear carry and subtract; AND sets half-carry, OR and XOR clear it.
pub proof fn lemma_logic(op: AluOp, a: u8, b: u8, carry_flag: bool)
    requires
        op == AluOp::And || op == AluOp::Or || op == AluOp::Xor,
    ensures
        !alu(op, a, b, carry_flag).1.c,
        !alu(op, a, b, carry_flag).1.n,
        alu(op, a, b, carry_flag).1.h == (op == AluOp::And),
{
}

} // verus!
