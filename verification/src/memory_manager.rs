//! A byte-addressable store covering the full 16-bit address space.

use vstd::prelude::*;

verus! {

/// Number of bytes in the store: one for every 16-bit address.
pub const BUFFER_SIZE: usize = 65536;

/// A flat memory of `BUFFER_SIZE` bytes, all initialized to zero.
pub struct MemoryManager {
    buffer: Vec<u8>,
}

impl View for MemoryManager {
    type V = Seq<u8>;

    closed spec fn view(&self) -> Seq<u8> {
        self.buffer@
    }
}

impl MemoryManager {
    /// Every address of the 16-bit address space is backed by one byte.
    pub open spec fn wf(&self) -> bool {
        self@.len() == BUFFER_SIZE
    }

    /// A fresh memory: every address holds zero.
    pub fn new() -> (r: MemoryManager)
        ensures
            r.wf(),
            forall|i: int| 0 <= i < BUFFER_SIZE ==> r@[i] == 0u8,
    {
        let instance = MemoryManager { buffer: vec![0u8; BUFFER_SIZE] };

        instance
    }

    /// The byte stored at `address`.
    pub fn read_byte(&self, address: u16) -> (r: u8)
        requires
            self.wf(),
        ensures
            r == self@[address as int],
    {
        self.buffer[address as usize]
    }

    /// Replaces the byte stored at `address`.
    pub fn write_byte(&mut self, address: u16, value: u8)
        requires
            old(self).wf(),
        ensures
            final(self).wf(),
            final(self)@ == old(self)@.update(address as int, value),
    {
        self.buffer[address as usize] = value;
    }

    /// A copy of the `size` bytes starting at `address`.
    pub fn read(&self, address: u16, size: u16) -> (r: Vec<u8>)
        requires
            self.wf(),
            address + size <= BUFFER_SIZE,
        ensures
            r@ == self@.subrange(address as int, address as int + size as int),
    {
        let mut result: Vec<u8> = Vec::new();
        let mut i: u16 = 0;
        while i < size
            invariant
                self.wf(),
                i <= size,
                address + size <= BUFFER_SIZE,
                result@ == self@.subrange(address as int, address as int + i as int),
            decreases size - i,
        {
            result.push(self.buffer[(address + i) as usize]);
            proof {
                assert(result@ =~= self@.subrange(address as int, address as int + i as int + 1));
            }
            i = i + 1;
        }
        proof {
            assert(result@ =~= self@.subrange(address as int, address as int + size as int));
        }
        result
    }

    /// Writes `data` contiguously beginning at `address`.
    pub fn write(&mut self, address: u16, data: &[u8])
        requires
            old(self).wf(),
            address + data@.len() <= BUFFER_SIZE,
        ensures
            final(self).wf(),
            final(self)@.len() == old(self)@.len(),
            forall|j: int|
                0 <= j < BUFFER_SIZE ==> final(self)@[j] == if address <= j < address + data@.len() {
                    data@[j - address]
                } else {
                    old(self)@[j]
                },
    {
        let mut i: usize = 0;
        while i < data.len()
            invariant
                self.wf(),
                i <= data@.len(),
                address + data@.len() <= BUFFER_SIZE,
                self@.len() == old(self)@.len(),
                forall|j: int|
                    0 <= j < BUFFER_SIZE ==> self@[j] == if address <= j < address + i {
                        data@[j - address]
                    } else {
                        old(self)@[j]
                    },
            decreases data@.len() - i,
        {
            self.buffer[address as usize + i] = data[i];
            i = i + 1;
        }
    }
}

} // verus!
