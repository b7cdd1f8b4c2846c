use vstd::prelude::*;

use crate::bytes::Bytes;
use crate::emotion_engine::gs::Gs;

verus! {

/// The byte offset of pixel (`x`, `y`) in a PSMCT32 buffer `width` pixels wide: pages of 64 by
/// 32 pixels are laid out row by row; within a page, blocks of 8 by 8 pixels and, within a
/// block, the pixels follow the interleaved order of the format.
pub open spec fn psmct32_offset_spec(x: u16, y: u16, width: u16) -> int {
    let page_index = (y / 32) * (width / 64) + x / 64;
    let block_x = (x % 64) / 8;
    let block_y = (y % 32) / 8;
    let block_index = block_x % 2 + (block_x / 2) % 2 * 4 + (block_x / 4) % 2 * 16 + block_y % 2
        * 2 + (block_y / 2) % 2 * 8;
    let local_x = x % 8;
    let local_y = y % 8;
    let local_index = local_x % 2 + (local_x / 2) % 2 * 4 + (local_x / 4) % 2 * 8 + local_y % 2
        * 2 + (local_y / 2) % 2 * 16 + (local_y / 4) % 2 * 32;
    page_index * 8192 + block_index * 256 + local_index * 4
}

/// The address of pixel (`x`, `y`) of the PSMCT32 buffer at `base_pointer`.
pub open spec fn psmct32_address(base_pointer: u32, x: u16, y: u16, width: u16) -> int {
    base_pointer + psmct32_offset_spec(x, y, width)
}

/// `memory` with `bytes` stored from `address` on.
pub open spec fn stored(memory: Seq<u8>, address: int, bytes: Seq<u8>) -> Seq<u8> {
    Seq::new(
        memory.len(),
        |i: int|
            if address <= i < address + bytes.len() {
                bytes[i - address]
            } else {
                memory[i]
            },
    )
}

/// The word stored at `address` of `memory`.
pub open spec fn load_u32(memory: Seq<u8>, address: int) -> u32 {
    u32::decode_bytes(memory.subrange(address, address + 4))
}

impl Gs {
    pub fn psmct32_offset(x: u16, y: u16, width: u16) -> (r: u32)
        requires
            psmct32_offset_spec(x, y, width) <= u32::MAX,
        ensures
            r == psmct32_offset_spec(x, y, width),
    {
        let page_x = x / 64;
        let page_y = y / 32;
        let columns = width as u32 / 64;
        assert((page_y as u32) * columns <= 2048 * 1024) by (nonlinear_arith)
            requires
                page_y < 2048,
                columns < 1024,
        ;
        let page_index = page_y as u32 * columns + page_x as u32;
        let page_offset = page_index * 8192;
        let block_x = (x % 64) / 8;
        let block_y = (y % 32) / 8;
        let block_index = (block_x % 2 + (block_x / 2) % 2 * 4 + (block_x / 4) % 2 * 16 + block_y
            % 2 * 2 + (block_y / 2) % 2 * 8) as u32;
        let local_x = x % 8;
        let local_y = y % 8;
        let local_index = (local_x % 2 + (local_x / 2) % 2 * 4 + (local_x / 4) % 2 * 8 + local_y
            % 2 * 2 + (local_y / 2) % 2 * 16 + (local_y / 4) % 2 * 32) as u32;
        page_offset + block_index * 256 + local_index * 4
    }

    /// The PSMCT32 pixel (`x`, `y`) of the buffer at `base_pointer`.
    pub fn read_psmct32(&self, base_pointer: u32, x: u16, y: u16, width: u16) -> (r: u32)
        requires
            self.local_memory@.len() == super::LOCAL_MEMORY_SIZE,
            psmct32_address(base_pointer, x, y, width) + 4 <= super::LOCAL_MEMORY_SIZE,
        ensures
            r == load_u32(self.local_memory@, psmct32_address(base_pointer, x, y, width)),
    {
        let address = (base_pointer + Self::psmct32_offset(x, y, width)) as usize;
        let bytes: [u8; 4] = [
            self.local_memory[address],
            self.local_memory[address + 1],
            self.local_memory[address + 2],
            self.local_memory[address + 3],
        ];
        assert(bytes@ =~= self.local_memory@.subrange(address as int, address + 4));
        u32::from_bytes(vstd::array::array_as_slice(&bytes))
    }

    /// Stores `value` as the PSMCT32 pixel (`x`, `y`) of the buffer at `base_pointer`.
    pub fn write_psmct32(&mut self, base_pointer: u32, x: u16, y: u16, width: u16, value: u32)
        requires
            old(self).local_memory@.len() == super::LOCAL_MEMORY_SIZE,
            psmct32_address(base_pointer, x, y, width) + 4 <= super::LOCAL_MEMORY_SIZE,
        ensures
            final(self).local_memory@ == stored(
                old(self).local_memory@,
                psmct32_address(base_pointer, x, y, width),
                value.encode_bytes(),
            ),
            final(self).command_queue == old(self).command_queue,
            final(self).privileged_registers == old(self).privileged_registers,
            final(self).registers == old(self).registers,
            final(self).vertex_queue == old(self).vertex_queue,
            final(self).tmp_data == old(self).tmp_data,
    {
        let address = (base_pointer + Self::psmct32_offset(x, y, width)) as usize;
        let bytes = value.to_bytes();
        self.local_memory.set(address, bytes[0]);
        self.local_memory.set(address + 1, bytes[1]);
        self.local_memory.set(address + 2, bytes[2]);
        self.local_memory.set(address + 3, bytes[3]);
        assert(self.local_memory@ =~= stored(
            old(self).local_memory@,
            address as int,
            value.encode_bytes(),
        ));
    }
}

/// Reading a pixel back after writing it gives the value written.
pub proof fn law_pixel_read_after_write(
    memory: Seq<u8>,
    base_pointer: u32,
    x: u16,
    y: u16,
    width: u16,
    value: u32,
)
    requires
        memory.len() == super::LOCAL_MEMORY_SIZE,
        psmct32_address(base_pointer, x, y, width) + 4 <= super::LOCAL_MEMORY_SIZE,
    ensures
        load_u32(
            stored(memory, psmct32_address(base_pointer, x, y, width), value.encode_bytes()),
            psmct32_address(base_pointer, x, y, width),
        ) == value,
{
    value.lemma_bytes_roundtrip(Seq::empty());
    let a = psmct32_address(base_pointer, x, y, width);
    assert(stored(memory, a, value.encode_bytes()).subrange(a, a + 4) =~= value.encode_bytes());
}

} // verus!
