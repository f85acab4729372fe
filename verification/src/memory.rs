//! The flat byte-addressable store of the machine: 4096 bytes, with the low
//! 80 bytes holding the 16 fixed 5-byte font glyphs (the hexadecimal digits
//! 0 through F) and the region from 0x200 up holding the loaded program.

use vstd::prelude::*;

use crate::{MAX_ROM_SIZE, MEMORY_SIZE, RESERVED_MEMORY_SIZE};

verus! {

/// The 16 fixed 5-byte font glyphs, one row per byte, drawn in the high nibble.
pub const FONT_SPRITES: [u8; 80] = [
    0xF0, 0x90, 0x90, 0x90, 0xF0, // 0
    0x20, 0x60, 0x20, 0x20, 0x70, // 1
    0xF0, 0x10, 0xF0, 0x80, 0xF0, // 2
    0xF0, 0x10, 0xF0, 0x10, 0xF0, // 3
    0x90, 0x90, 0xF0, 0x10, 0x10, // 4
    0xF0, 0x80, 0xF0, 0x10, 0xF0, // 5
    0xF0, 0x80, 0xF0, 0x90, 0xF0, // 6
    0xF0, 0x10, 0x20, 0x40, 0x40, // 7
    0xF0, 0x90, 0xF0, 0x90, 0xF0, // 8
    0xF0, 0x90, 0xF0, 0x10, 0xF0, // 9
    0xF0, 0x90, 0xF0, 0x90, 0x90, // A
    0xE0, 0x90, 0xE0, 0x90, 0xE0, // B
    0xF0, 0x80, 0x80, 0x80, 0xF0, // C
    0xE0, 0x90, 0x90, 0x90, 0xE0, // D
    0xF0, 0x80, 0xF0, 0x80, 0xF0, // E
    0xF0, 0x80, 0xF0, 0x80, 0x80, // F
];

/// The byte store. `rom_size` records the size the last load announced.
pub struct Memory {
    pub bytes: Vec<u8>,
    pub rom_size: usize,
}

impl Memory {
    /// The store always spans exactly the machine's address space.
    pub open spec fn wf(self) -> bool {
        self.bytes@.len() == MEMORY_SIZE
    }

    /// A fresh memory: font glyphs in the low bytes, zero everywhere above.
    pub open spec fn spec_init(bytes: Seq<u8>) -> bool {
        &&& bytes.len() == MEMORY_SIZE
        &&& forall|k: int| 0 <= k < 80 ==> bytes[k] == FONT_SPRITES@[k]
        &&& forall|k: int| 80 <= k < MEMORY_SIZE ==> bytes[k] == 0u8
    }

    pub fn new() -> (r: Memory)
        ensures
            r.wf(),
            Memory::spec_init(r.bytes@),
            r.rom_size == 0,
    {
        let mut bytes: Vec<u8> = Vec::new();
        for i in iter: 0..MEMORY_SIZE
            invariant
                bytes@.len() == i,
                forall|k: int| 0 <= k < i ==> bytes@[k] == 0u8,
        {
            bytes.push(0u8);
        }
        for i in iter: 0..80
            invariant
                bytes@.len() == MEMORY_SIZE,
                forall|k: int| 0 <= k < i ==> bytes@[k] == FONT_SPRITES@[k],
                forall|k: int| i <= k < MEMORY_SIZE ==> bytes@[k] == 0u8,
        {
            bytes[i] = FONT_SPRITES[i];
        }
        Memory { bytes, rom_size: 0 }
    }

    /// How many of the offered bytes a load copies: no more than the announced
    /// size, no more than are offered, and never past the program region.
    pub open spec fn copied_len(rom_len: int, rom_size: int) -> int {
        if rom_size <= rom_len && rom_size <= MAX_ROM_SIZE {
            rom_size
        } else if rom_len <= rom_size && rom_len <= MAX_ROM_SIZE {
            rom_len
        } else {
            MAX_ROM_SIZE as int
        }
    }

    /// Copy a program into the region starting at the first program address.
    /// An oversized program is truncated to the region's capacity; the caller
    /// is expected to report that condition (`rom_size > MAX_ROM_SIZE`).
    /// Bytes outside the copied range keep their previous values.
    pub fn reset(&mut self, rom_bytes: &[u8], rom_size: usize)
        requires
            old(self).wf(),
        ensures
            final(self).wf(),
            final(self).rom_size == rom_size,
            ({
                let count = Memory::copied_len(rom_bytes@.len() as int, rom_size as int);
                &&& forall|k: int|
                    0 <= k < count ==> final(self).bytes@[RESERVED_MEMORY_SIZE + k] == rom_bytes@[k]
                &&& forall|a: int|
                    0 <= a < MEMORY_SIZE && !(RESERVED_MEMORY_SIZE <= a
                        < RESERVED_MEMORY_SIZE + count) ==> final(self).bytes@[a] == old(self).bytes@[a]
            }),
    {
        self.rom_size = rom_size;
        let mut count = rom_size;
        if rom_bytes.len() < count {
            count = rom_bytes.len();
        }
        if MAX_ROM_SIZE < count {
            count = MAX_ROM_SIZE;
        }
        assert(count == Memory::copied_len(rom_bytes@.len() as int, rom_size as int));
        for i in iter: 0..count
            invariant
                self.wf(),
                self.rom_size == rom_size,
                count == Memory::copied_len(rom_bytes@.len() as int, rom_size as int),
                count <= rom_bytes@.len() && count <= MAX_ROM_SIZE,
                forall|k: int|
                    0 <= k < i ==> self.bytes@[RESERVED_MEMORY_SIZE + k] == rom_bytes@[k],
                forall|a: int|
                    0 <= a < MEMORY_SIZE && !(RESERVED_MEMORY_SIZE <= a < RESERVED_MEMORY_SIZE + i)
                        ==> self.bytes@[a] == old(self).bytes@[a],
        {
            self.bytes[RESERVED_MEMORY_SIZE + i] = rom_bytes[i];
        }
    }

    /// Read the byte at an address.
    pub fn load(&self, address: usize) -> (r: u8)
        requires
            self.wf(),
            address < MEMORY_SIZE,
        ensures
            r == self.bytes@[address as int],
    {
        self.bytes[address]
    }

    /// Write the byte at an address.
    pub fn store(&mut self, address: usize, value: u8)
        requires
            old(self).wf(),
            address < MEMORY_SIZE,
        ensures
            final(self).wf(),
            final(self).bytes@ == old(self).bytes@.update(address as int, value),
            final(self).rom_size == old(self).rom_size,
    {
        self.bytes[address] = value;
    }
}

} // verus!
