//! Memory bus: a flat 64 KiB byte-addressable space with no mapping or
//! protection, owned exclusively by one CPU instance.

use vstd::prelude::*;

verus! {

/// Number of addressable bytes.
pub const MEMORY_SIZE: usize = 0x10000;

pub struct MemoryBus {
    pub memory: Vec<u8>,
}

impl MemoryBus {
    /// Every well-formed bus backs the full 16-bit address space.
    pub open spec fn inv(&self) -> bool {
        self.memory@.len() == MEMORY_SIZE
    }

    /// A fresh bus with every byte zero.
    pub fn new() -> (r: MemoryBus)
        ensures
            r.inv(),
            r.memory@ == Seq::new(MEMORY_SIZE as nat, |i: int| 0u8),
    {
        let mut memory: Vec<u8> = Vec::new();
        let mut i: usize = 0;
        while i < MEMORY_SIZE
            invariant
                i <= MEMORY_SIZE,
                memory@ =~= Seq::new(i as nat, |j: int| 0u8),
            decreases MEMORY_SIZE - i,
        {
            memory.push(0);
            i = i + 1;
        }
        proof {
            assert(memory@ =~= Seq::new(MEMORY_SIZE as nat, |i: int| 0u8));
        }
        MemoryBus { memory }
    }

    pub fn read_byte(&self, addr: u16) -> (r: u8)
        requires
            self.inv(),
        ensures
            r == self.memory@[addr as int],
    {
        self.memory[addr as usize]
    }

    pub fn write_byte(&mut self, addr: u16, value: u8)
        requires
            old(self).inv(),
        ensures
            final(self).inv(),
            final(self).memory@ == old(self).memory@.update(addr as int, value),
    {
        self.memory.set(addr as usize, value);
    }
}

} // verus!
