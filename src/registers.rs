use vstd::prelude::*;

verus! {

/// One of the four condition flags.
#[derive(Clone, Copy, Debug, PartialEq, Eq, Structural)]
pub enum Flag {
    Z,
    N,
    H,
    C,
}

/// One of the eight 8-bit registers.
#[derive(Clone, Copy, Debug, PartialEq, Eq, Structural)]
pub enum Register {
    A,
    B,
    C,
    D,
    E,
    F,
    H,
    L,
}

/// A 16-bit view over two registers: the first named holds the high byte.
#[derive(Clone, Copy, Debug, PartialEq, Eq, Structural)]
pub enum RegisterPair {
    BC,
    DE,
    HL,
}

/// The 16-bit value whose high byte is `hi` and low byte is `lo`.
pub open spec fn join(hi: u8, lo: u8) -> u16 {
    (hi * 256 + lo) as u16
}

/// The high byte of a 16-bit value.
pub open spec fn high(v: u16) -> u8 {
    (v / 256) as u8
}

/// The low byte of a 16-bit value.
pub open spec fn low(v: u16) -> u8 {
    (v % 256) as u8
}

/// The register file: eight independent bytes.
#[derive(Clone, Copy, Debug, PartialEq, Eq, Structural)]
pub struct Registers {
    pub a: u8,
    pub b: u8,
    pub c: u8,
    pub d: u8,
    pub e: u8,
    pub f: u8,
    pub h: u8,
    pub l: u8,
}

impl Registers {
    /// The value held in register `r`.
    pub open spec fn get(self, r: Register) -> u8 {
        match r {
            Register::A => self.a,
            Register::B => self.b,
            Register::C => self.c,
            Register::D => self.d,
            Register::E => self.e,
            Register::F => self.f,
            Register::H => self.h,
            Register::L => self.l,
        }
    }

    /// The register file with `r` replaced by `v` and every other register kept.
    pub open spec fn with(self, r: Register, v: u8) -> Registers {
        match r {
            Register::A => Registers { a: v, ..self },
            Register::B => Registers { b: v, ..self },
            Register::C => Registers { c: v, ..self },
            Register::D => Registers { d: v, ..self },
            Register::E => Registers { e: v, ..self },
            Register::F => Registers { f: v, ..self },
            Register::H => Registers { h: v, ..self },
            Register::L => Registers { l: v, ..self },
        }
    }

    /// The 16-bit value of pair `p`.
    pub open spec fn get_pair(self, p: RegisterPair) -> u16 {
        match p {
            RegisterPair::BC => join(self.b, self.c),
            RegisterPair::DE => join(self.d, self.e),
            RegisterPair::HL => join(self.h, self.l),
        }
    }

    /// The register file with pair `p` set to `v`: high byte first, low byte second.
    pub open spec fn with_pair(self, p: RegisterPair, v: u16) -> Registers {
        match p {
            RegisterPair::BC => Registers { b: high(v), c: low(v), ..self },
            RegisterPair::DE => Registers { d: high(v), e: low(v), ..self },
            RegisterPair::HL => Registers { h: high(v), l: low(v), ..self },
        }
    }

    /// The register file with every register zero.
    pub open spec fn new_spec() -> Registers {
        Registers { a: 0, b: 0, c: 0, d: 0, e: 0, f: 0, h: 0, l: 0 }
    }

    /// A register file with every register zero.
    pub fn new() -> (r: Registers)
        ensures
            r == Registers::new_spec(),
    {
        Registers { a: 0, b: 0, c: 0, d: 0, e: 0, f: 0, h: 0, l: 0 }
    }

    pub fn read(&self, r: Register) -> (v: u8)
        ensures
            v == self.get(r),
    {
        match r {
            Register::A => self.a,
            Register::B => self.b,
            Register::C => self.c,
            Register::D => self.d,
            Register::E => self.e,
            Register::F => self.f,
            Register::H => self.h,
            Register::L => self.l,
        }
    }

    pub fn write(&mut self, r: Register, v: u8)
        ensures
            *final(self) == old(self).with(r, v),
    {
        match r {
            Register::A => self.a = v,
            Register::B => self.b = v,
            Register::C => self.c = v,
            Register::D => self.d = v,
            Register::E => self.e = v,
            Register::F => self.f = v,
            Register::H => self.h = v,
            Register::L => self.l = v,
        }
    }

    pub fn read_pair(&self, p: RegisterPair) -> (v: u16)
        ensures
            v == self.get_pair(p),
    {
        match p {
            RegisterPair::BC => self.bc(),
            RegisterPair::DE => self.de(),
            RegisterPair::HL => self.hl(),
        }
    }

    pub fn write_pair(&mut self, p: RegisterPair, v: u16)
        ensures
            *final(self) == old(self).with_pair(p, v),
    {
        match p {
            RegisterPair::BC => self.set_bc(v),
            RegisterPair::DE => self.set_de(v),
            RegisterPair::HL => self.set_hl(v),
        }
    }

    pub fn set_hl(&mut self, hl: u16)
        ensures
            *final(self) == old(self).with_pair(RegisterPair::HL, hl),
    {
        let (hi, lo) = split(hl);
        self.h = hi;
        self.l = lo;
    }

    pub fn set_bc(&mut self, bc: u16)
        ensures
            *final(self) == old(self).with_pair(RegisterPair::BC, bc),
    {
        let (hi, lo) = split(bc);
        self.b = hi;
        self.c = lo;
    }

    pub fn set_de(&mut self, de: u16)
        ensures
            *final(self) == old(self).with_pair(RegisterPair::DE, de),
    {
        let (hi, lo) = split(de);
        self.d = hi;
        self.e = lo;
    }

    pub fn hl(&self) -> (v: u16)
        ensures
            v == self.get_pair(RegisterPair::HL),
    {
        concat(self.h, self.l)
    }

    pub fn bc(&self) -> (v: u16)
        ensures
            v == self.get_pair(RegisterPair::BC),
    {
        concat(self.b, self.c)
    }

    pub fn de(&self) -> (v: u16)
        ensures
            v == self.get_pair(RegisterPair::DE),
    {
        concat(self.d, self.e)
    }
}

/// Splits a 16-bit value into its high and low bytes.
fn split(v: u16) -> (r: (u8, u8))
    ensures
        r.0 == high(v),
        r.1 == low(v),
{
    assert((v >> 8u16) as u8 == v / 256 && (v & 0xFFu16) as u8 == v % 256) by (bit_vector);
    ((v >> 8) as u8, (v & 0xFF) as u8)
}

/// Joins a high and a low byte into one 16-bit value.
fn concat(hi: u8, lo: u8) -> (v: u16)
    ensures
        v == join(hi, lo),
{
    assert(((hi as u16) << 8u16) | (lo as u16) == hi as u16 * 256 + lo as u16) by (bit_vector);
    ((hi as u16) << 8) | (lo as u16)
}

/// Writing a 16-bit value into a register pair and reading the pair back gives the value.
pub proof fn lemma_pair_round_trip(regs: Registers, p: RegisterPair, v: u16)
    ensures
        regs.with_pair(p, v).get_pair(p) == v,
{
}

} // verus!
