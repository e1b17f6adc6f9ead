use vstd::prelude::*;

verus! {

/// Number of bytes on the bus: one for every 16-bit address, 0x0000 through 0xFFFF.
pub const MEMORY_SIZE: usize = 0x10000;

/// A flat, byte-addressable space covering the whole 16-bit address range.
pub struct Memory {
    data: Vec<u8>,
}

impl View for Memory {
    type V = Seq<u8>;

    closed spec fn view(&self) -> Seq<u8> {
        self.data@
    }
}

impl Memory {
    /// Every 16-bit address maps to exactly one byte.
    pub open spec fn wf(&self) -> bool {
        self@.len() == MEMORY_SIZE
    }

    /// A zero-filled address space.
    pub fn new() -> (m: Memory)
        ensures
            m.wf(),
            forall|i: int| 0 <= i < MEMORY_SIZE ==> m@[i] == 0,
    {
        let mut data: Vec<u8> = Vec::new();
        let mut i: usize = 0;
        while i < MEMORY_SIZE
            invariant
                i <= MEMORY_SIZE,
                data@.len() == i,
                forall|j: int| 0 <= j < i ==> data@[j] == 0,
            decreases MEMORY_SIZE - i,
        {
            data.push(0);
            i = i + 1;
        }
        Memory { data }
    }

    pub fn read_byte(&self, addr: u16) -> (v: u8)
        requires
            self.wf(),
        ensures
            v == self@[addr as int],
    {
        self.data[addr as usize]
    }

    pub fn write_byte(&mut self, addr: u16, value: u8)
        requires
            old(self).wf(),
        ensures
            final(self)@ == old(self)@.update(addr as int, value),
            final(self).wf(),
    {
        self.data.set(addr as usize, value);
    }
}

} // verus!
