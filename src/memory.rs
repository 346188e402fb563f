//! The 4 KiB address space.

use vstd::prelude::*;
use crate::fault::Fault;

verus! {

/// Number of addressable bytes.
pub const MEMORY_SIZE: usize = 4096;

/// Address at which a program image is loaded and execution starts.
pub const ROM_START: usize = 0x200;

/// The machine's memory: `MEMORY_SIZE` bytes, zero at construction.
pub struct Memory {
    data: Vec<u8>,
}

/// A big-endian 16-bit word from two bytes.
pub open spec fn word_of(hi: u8, lo: u8) -> int {
    hi as int * 0x100 + lo as int
}

/// Memory after a program image is copied to `ROM_START`.
pub open spec fn with_rom(mem: Seq<u8>, rom: Seq<u8>) -> Seq<u8> {
    mem.subrange(0, ROM_START as int) + rom + mem.subrange(ROM_START + rom.len(), mem.len() as int)
}

impl View for Memory {
    type V = Seq<u8>;

    closed spec fn view(&self) -> Seq<u8> {
        self.data@
    }
}

impl Memory {
    pub open spec fn wf(&self) -> bool {
        self@.len() == MEMORY_SIZE
    }

    pub fn new() -> (r: Memory)
        ensures
            r.wf(),
            forall|a: int| 0 <= a < MEMORY_SIZE ==> #[trigger] r@[a] == 0,
    {
        let mut data: Vec<u8> = Vec::new();
        while data.len() < MEMORY_SIZE
            invariant
                data.len() <= MEMORY_SIZE,
                forall|a: int| 0 <= a < data.len() ==> #[trigger] data@[a] == 0,
            decreases MEMORY_SIZE - data.len(),
        {
            data.push(0);
        }
        Memory { data }
    }

    pub fn read_u8(&self, address: u16) -> (r: u8)
        requires
            self.wf(),
            address < MEMORY_SIZE,
        ensures
            r == self@[address as int],
    {
        self.data[address as usize]
    }

    /// The big-endian word whose high byte is at `address`.
    pub fn read_u16(&self, address: u16) -> (r: u16)
        requires
            self.wf(),
            address + 1 < MEMORY_SIZE,
        ensures
            r == word_of(self@[address as int], self@[address + 1]),
    {
        let hi = self.data[address as usize];
        let lo = self.data[address as usize + 1];
        assert((hi as u16) << 8 | lo as u16 == hi as int * 0x100 + lo as int) by (bit_vector);
        (hi as u16) << 8 | lo as u16
    }

    pub fn write_u8(&mut self, address: u16, value: u8)
        requires
            old(self).wf(),
            address < MEMORY_SIZE,
        ensures
            final(self)@ == old(self)@.update(address as int, value),
    {
        self.data.set(address as usize, value);
    }

    /// Copies a program image to `ROM_START`. Fails, leaving memory as it
    /// was, where the image would run past the end of memory.
    pub fn load_rom(&mut self, data: &Vec<u8>) -> (r: Result<(), Fault>)
        requires
            old(self).wf(),
        ensures
            final(self).wf(),
            r is Ok <==> ROM_START + data@.len() <= MEMORY_SIZE,
            r is Ok ==> final(self)@ == with_rom(old(self)@, data@),
            r is Err ==> r == Err::<(), Fault>(Fault::RomTooLarge { len: data.len() })
                && final(self)@ == old(self)@,
    {
        if data.len() > MEMORY_SIZE - ROM_START {
            return Err(Fault::RomTooLarge { len: data.len() });
        }
        let ghost before = self@;
        let mut k: usize = 0;
        while k < data.len()
            invariant
                self.wf(),
                ROM_START + data@.len() <= MEMORY_SIZE,
                k <= data@.len(),
                forall|a: int| 0 <= a < ROM_START ==> #[trigger] self@[a] == before[a],
                forall|a: int| ROM_START + k <= a < MEMORY_SIZE ==> #[trigger] self@[a] == before[a],
                forall|j: int| 0 <= j < k ==> #[trigger] self@[ROM_START + j] == data@[j],
            decreases data@.len() - k,
        {
            self.data.set(ROM_START + k, data[k]);
            k = k + 1;
        }
        assert(self@ =~= with_rom(before, data@)) by {
            assert forall|a: int| 0 <= a < MEMORY_SIZE implies #[trigger] self@[a] == with_rom(before, data@)[a] by {
                if ROM_START <= a < ROM_START + data@.len() {
                    assert(self@[ROM_START + (a - ROM_START)] == data@[a - ROM_START]);
                }
            }
        }
        Ok(())
    }
}

} // verus!
