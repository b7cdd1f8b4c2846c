use vstd::prelude::*;

use crate::bytes::Bytes;

verus! {

/// Size in bytes of main memory.
pub const MEMORY_MAIN_SIZE: usize = 0x200_0000;

/// Size in bytes of the boot ROM.
pub const MEMORY_BOOT_SIZE: usize = 0x40_0000;

/// Main memory and boot ROM, as a plain pair of byte arrays.
pub struct Memory {
    pub main: Vec<u8>,
    pub boot: Vec<u8>,
}

/// The word stored little-endian in `bytes` at the four offsets `offset + k` (`k < 4`), each
/// taken modulo `window`.
pub open spec fn wrapped_word(bytes: Seq<u8>, offset: int, window: int) -> u32 {
    u32::decode_bytes(
        seq![
            bytes[offset % window],
            bytes[(offset + 1) % window],
            bytes[(offset + 2) % window],
            bytes[(offset + 3) % window],
        ],
    )
}

/// Masking by one less than a power of two keeps the remainder.
proof fn lemma_window_masks(x: u32)
    by (bit_vector)
    ensures
        x & 0x1FF_FFFF == x % 0x200_0000,
        x & 0x3F_FFFF == x % 0x40_0000,
        x & 0x1F_FFFF == x % 0x20_0000,
        x & 0x3_FFFF == x % 0x4_0000,
{
}

impl Memory {
    pub open spec fn wf(self) -> bool {
        &&& self.main@.len() == MEMORY_MAIN_SIZE
        &&& self.boot@.len() == MEMORY_BOOT_SIZE
    }

    /// What `read32` gives at `address`: the low 32 MiB of the address space read main memory
    /// and 0x1FC0_0000..0x2000_0000 reads the boot ROM, each through a window that repeats
    /// (every 2 MiB of main memory, every 256 KiB of boot ROM); elsewhere nothing.
    pub open spec fn spec_read32(self, address: u32) -> Option<u32> {
        if address < 0x1000_0000 {
            Some(wrapped_word(self.main@, (address as int) % 0x200_0000, 0x20_0000))
        } else if 0x1FC0_0000 <= address < 0x2000_0000 {
            Some(wrapped_word(self.boot@, (address as int) % 0x40_0000, 0x4_0000))
        } else {
            None
        }
    }

    /// Zeroed main memory and boot ROM.
    pub fn new() -> (r: Memory)
        ensures
            r.wf(),
            forall|i: int| 0 <= i < MEMORY_MAIN_SIZE ==> #[trigger] r.main@[i] == 0,
            forall|i: int| 0 <= i < MEMORY_BOOT_SIZE ==> #[trigger] r.boot@[i] == 0,
    {
        Memory { main: vec![0u8; MEMORY_MAIN_SIZE], boot: vec![0u8; MEMORY_BOOT_SIZE] }
    }

    /// The word at `address`, or `None` where neither memory is mapped.
    pub fn read32(&self, address: u32) -> (r: Option<u32>)
        requires
            self.wf(),
        ensures
            r == self.spec_read32(address),
    {
        if address < 0x1000_0000 {
            let offset = address & 0x1FF_FFFF;
            proof {
                lemma_window_masks(address);
            }
            Some(Self::word(&self.main, offset, 0x1F_FFFF))
        } else if 0x1FC0_0000 <= address && address < 0x2000_0000 {
            let offset = address & 0x3F_FFFF;
            proof {
                lemma_window_masks(address);
            }
            Some(Self::word(&self.boot, offset, 0x3_FFFF))
        } else {
            None
        }
    }

    /// The little-endian word at `offset`, each byte's index masked by `mask` (one less than a
    /// power of two no larger than the memory).
    fn word(bytes: &Vec<u8>, offset: u32, mask: u32) -> (r: u32)
        requires
            mask == 0x1F_FFFF || mask == 0x3_FFFF,
            mask < bytes@.len(),
            offset < 0x200_0000,
        ensures
            r == wrapped_word(bytes@, offset as int, mask as int + 1),
    {
        proof {
            lemma_window_masks(offset);
            lemma_window_masks((offset + 1) as u32);
            lemma_window_masks((offset + 2) as u32);
            lemma_window_masks((offset + 3) as u32);
        }
        let b: [u8; 4] = [
            bytes[(offset & mask) as usize],
            bytes[((offset + 1) & mask) as usize],
            bytes[((offset + 2) & mask) as usize],
            bytes[((offset + 3) & mask) as usize],
        ];
        let r = u32::from_bytes(&b);
        proof {
            let w = mask as int + 1;
            let o = offset as int;
            let s = seq![bytes@[o % w], bytes@[(o + 1) % w], bytes@[(o + 2) % w], bytes@[(o + 3) % w]];
            assert(b@ =~= s);
        }
        r
    }
}

} // verus!
