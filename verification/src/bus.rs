//! The flat 64 KB address space that every memory access goes through.

use vstd::prelude::*;

verus! {

/// Number of byte cells in the address space: one per 16-bit address.
pub const MEMORY_SIZE: usize = 0x10000;

/// Whether `mem` is the content of an address space: one byte per address.
pub open spec fn is_memory(mem: Seq<u8>) -> bool {
    mem.len() == MEMORY_SIZE
}

/// The memory `mem` after `data` was copied to the consecutive addresses
/// that start at `start`.
pub open spec fn loaded(mem: Seq<u8>, start: int, data: Seq<u8>) -> Seq<u8>
    recommends
        0 <= start,
        start + data.len() <= mem.len(),
{
    Seq::new(
        mem.len(),
        |a: int|
            if start <= a < start + data.len() {
                data[a - start]
            } else {
                mem[a]
            },
    )
}

/// A byte-addressable store of `MEMORY_SIZE` cells, indexed by a 16-bit
/// address. Its view is the sequence of its cells by address.
pub struct Bus {
    memory: [u8; 0x10000],
}

impl View for Bus {
    type V = Seq<u8>;

    closed spec fn view(&self) -> Seq<u8> {
        self.memory@
    }
}

impl Bus {
    /// Every bus holds exactly one byte per address.
    pub proof fn lemma_is_memory(&self)
        ensures
            is_memory(self@),
    {
    }

    /// A zero-filled address space.
    pub fn new() -> (bus: Self)
        ensures
            is_memory(bus@),
            forall|a: int| 0 <= a < MEMORY_SIZE ==> bus@[a] == 0,
    {
        Self { memory: [0u8; 0x10000] }
    }

    /// Copies `data` to the consecutive addresses that start at
    /// `starting_address`. The image has to end within the address space.
    pub fn load_bytes(&mut self, starting_address: u16, data: &[u8])
        requires
            starting_address + data@.len() <= MEMORY_SIZE,
        ensures
            final(self)@ == loaded(old(self)@, starting_address as int, data@),
    {
        let start: usize = starting_address as usize;
        let mut i: usize = 0;
        while i < data.len()
            invariant
                i <= data@.len(),
                start == starting_address,
                start + data@.len() <= MEMORY_SIZE,
                self@ == loaded(old(self)@, start as int, data@.take(i as int)),
            decreases data@.len() - i,
        {
            let idx: usize = start + i;
            self.memory[idx] = data[i];
            i += 1;
            assert(self@ =~= loaded(old(self)@, start as int, data@.take(i as int)));
        }
        assert(data@.take(i as int) =~= data@);
    }

    /// The byte stored at `address`.
    pub fn read_byte(&self, address: u16) -> (value: u8)
        ensures
            value == self@[address as int],
    {
        self.memory[self.get_mapped_location(address)]
    }

    /// Stores `value` at `address`; every other cell keeps its content.
    pub fn write_byte(&mut self, address: u16, value: u8)
        ensures
            final(self)@ == old(self)@.update(address as int, value),
    {
        let slot: usize = self.get_mapped_location(address);
        self.memory[slot] = value;
    }

    /// Resolves an address to the index of its backing cell. This is where
    /// a memory-mapped region would be redirected; for now every address
    /// maps onto the flat store.
    pub fn get_mapped_location(&self, address: u16) -> (slot: usize)
        ensures
            slot == address,
            slot < MEMORY_SIZE,
    {
        address as usize
    }
}

} // verus!
