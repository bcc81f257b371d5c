//! The flat 64 KiB address space the processor reads and writes.

use vstd::prelude::*;

verus! {

/// Number of addressable bytes: the 6502 has a 16-bit address bus.
pub const MEM_SIZE: usize = 0x10000;

/// A linear 64 KiB memory with byte-granular reads and writes. No mirroring
/// happens at this layer; a full console would route ranges of the address
/// space to other components.
pub struct Memory {
    cells: Vec<u8>,
}

impl View for Memory {
    type V = Seq<u8>;

    closed spec fn view(&self) -> Seq<u8> {
        self.cells@
    }
}

impl Memory {
    /// A memory is well formed when it covers the whole 16-bit address space.
    pub open spec fn wf(&self) -> bool {
        self@.len() == MEM_SIZE
    }

    pub fn new() -> (m: Memory)
        ensures
            m.wf(),
            forall|i: int| 0 <= i < 0x10000 ==> m@[i] == 0u8,
    {
        let cells = vec![0u8; MEM_SIZE];
        proof {
            assert forall|i: int| 0 <= i < 0x10000 implies cells@[i] == 0u8 by {
                assert(cloned(0u8, cells@[i]));
            }
        }
        Memory { cells }
    }

    pub fn read(&self, addr: u16) -> (val: u8)
        requires
            self.wf(),
        ensures
            val == self@[addr as int],
    {
        self.cells[addr as usize]
    }

    pub fn write(&mut self, addr: u16, val: u8)
        requires
            old(self).wf(),
        ensures
            final(self).wf(),
            final(self)@ == old(self)@.update(addr as int, val),
    {
        self.cells[addr as usize] = val;
    }

    /// Fill the closed interval `first ..= last` with a common value. Both
    /// endpoints are written; an empty interval (`first > last`) writes
    /// nothing.
    pub fn write_range(&mut self, first: u16, last: u16, val: u8)
        requires
            old(self).wf(),
        ensures
            final(self).wf(),
            final(self)@.len() == old(self)@.len(),
            forall|i: int|
                0 <= i < 0x10000
                    ==> final(self)@[i] == (if first <= i <= last {
                        val
                    } else {
                        old(self)@[i]
                    }),
    {
        if first > last {
            return ;
        }
        let mut x: usize = first as usize;
        while x <= last as usize
            invariant
                first <= x <= last + 1,
                self.wf(),
                self@.len() == old(self)@.len(),
                forall|i: int|
                    0 <= i < 0x10000
                        ==> self@[i] == (if first <= i < x {
                            val
                        } else {
                            old(self)@[i]
                        }),
            decreases last + 1 - x,
        {
            self.cells[x] = val;
            x = x + 1;
        }
    }
}

/// The page a memory address belongs to: its high byte.
pub fn page(addr: u16) -> (p: u8)
    ensures
        p == spec_page(addr),
{
    (addr / 0x100) as u8
}

/// The page of an address, for use in contracts.
pub open spec fn spec_page(addr: u16) -> u8 {
    (addr / 0x100) as u8
}

/// Whether two addresses lie on different 256-byte pages; indexed reads that
/// cross a page cost one extra cycle.
pub fn page_crossed(addr_a: u16, addr_b: u16) -> (c: bool)
    ensures
        c == spec_page_crossed(addr_a, addr_b),
{
    addr_a / 0x100 != addr_b / 0x100
}

pub open spec fn spec_page_crossed(addr_a: u16, addr_b: u16) -> bool {
    spec_page(addr_a) != spec_page(addr_b)
}

} // verus!
