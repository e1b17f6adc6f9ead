use vstd::prelude::*;
use crate::registers::Flag;

verus! {

/// The four condition flags. Packed into a byte they take bit 7 (Z), bit 6 (N),
/// bit 5 (H) and bit 4 (C); bits 3 to 0 are zero.
#[derive(Clone, Copy, Debug, PartialEq, Eq, Structural)]
pub struct Flags {
    pub z: bool,
    pub n: bool,
    pub h: bool,
    pub c: bool,
}

impl Flags {
    /// The value of flag `f`.
    pub open spec fn get(self, f: Flag) -> bool {
        match f {
            Flag::Z => self.z,
            Flag::N => self.n,
            Flag::H => self.h,
            Flag::C => self.c,
        }
    }

    /// These flags with `f` replaced by `v`.
    pub open spec fn with(self, f: Flag, v: bool) -> Flags {
        match f {
            Flag::Z => Flags { z: v, ..self },
            Flag::N => Flags { n: v, ..self },
            Flag::H => Flags { h: v, ..self },
            Flag::C => Flags { c: v, ..self },
        }
    }

    /// The packed byte of these flags.
    pub open spec fn packed(self) -> u8 {
        ((if self.z { 128int } else { 0 }) + (if self.n { 64int } else { 0 }) + (if self.h {
            32int
        } else {
            0
        }) + (if self.c { 16int } else { 0 })) as u8
    }

    /// The flags that a byte holds in its high nibble; the low nibble is ignored.
    pub open spec fn unpacked(b: u8) -> Flags {
        Flags { z: b / 128 % 2 == 1, n: b / 64 % 2 == 1, h: b / 32 % 2 == 1, c: b / 16 % 2 == 1 }
    }

    /// All four flags clear.
    pub fn new() -> (r: Flags)
        ensures
            r == (Flags { z: false, n: false, h: false, c: false }),
    {
        Flags { z: false, n: false, h: false, c: false }
    }

    pub fn read(&self, f: Flag) -> (v: bool)
        ensures
            v == self.get(f),
    {
        match f {
            Flag::Z => self.z,
            Flag::N => self.n,
            Flag::H => self.h,
            Flag::C => self.c,
        }
    }

    pub fn write(&mut self, f: Flag, v: bool)
        ensures
            *final(self) == old(self).with(f, v),
    {
        match f {
            Flag::Z => self.z = v,
            Flag::N => self.n = v,
            Flag::H => self.h = v,
            Flag::C => self.c = v,
        }
    }

    pub fn to_byte(&self) -> (r: u8)
        ensures
            r == self.packed(),
    {
        let mut r: u8 = 0;
        if self.z {
            r = r + 0x80;
        }
        if self.n {
            r = r + 0x40;
        }
        if self.h {
            r = r + 0x20;
        }
        if self.c {
            r = r + 0x10;
        }
        r
    }

    pub fn from_byte(byte: u8) -> (r: Flags)
        ensures
            r == Flags::unpacked(byte),
    {
        assert(((byte >> 7u8) & 1u8 == 1u8) == ((byte / 128u8) % 2u8 == 1u8)) by (bit_vector);
        assert(((byte >> 6u8) & 1u8 == 1u8) == ((byte / 64u8) % 2u8 == 1u8)) by (bit_vector);
        assert(((byte >> 5u8) & 1u8 == 1u8) == ((byte / 32u8) % 2u8 == 1u8)) by (bit_vector);
        assert(((byte >> 4u8) & 1u8 == 1u8) == ((byte / 16u8) % 2u8 == 1u8)) by (bit_vector);
        Flags {
            z: (byte >> 7) & 1 == 1,
            n: (byte >> 6) & 1 == 1,
            h: (byte >> 5) & 1 == 1,
            c: (byte >> 4) & 1 == 1,
        }
    }
}

impl From<u8> for Flags {
    fn from(byte: u8) -> (r: Flags) {
        Flags::from_byte(byte)
    }
}

impl vstd::std_specs::convert::FromSpecImpl<u8> for Flags {
    open spec fn obeys_from_spec() -> bool {
        true
    }

    open spec fn from_spec(byte: u8) -> Flags {
        Flags::unpacked(byte)
    }
}

impl From<Flags> for u8 {
    fn from(flags: Flags) -> (r: u8) {
        flags.to_byte()
    }
}

impl vstd::std_specs::convert::FromSpecImpl<Flags> for u8 {
    open spec fn obeys_from_spec() -> bool {
        true
    }

    open spec fn from_spec(flags: Flags) -> u8 {
        flags.packed()
    }
}

/// Packing a set of flags into a byte and unpacking that byte gives the same flags.
pub proof fn lemma_flags_round_trip(f: Flags)
    ensures
        Flags::unpacked(f.packed()) == f,
{
    if f.z {
        if f.n {
            if f.h {
                if f.c {} else {}
            } else {
                if f.c {} else {}
            }
        } else {
            if f.h {
                if f.c {} else {}
            } else {
                if f.c {} else {}
            }
        }
    } else {
        if f.n {
            if f.h {
                if f.c {} else {}
            } else {
                if f.c {} else {}
            }
        } else {
            if f.h {
                if f.c {} else {}
            } else {
                if f.c {} else {}
            }
        }
    }
}

} // verus!
