use vstd::prelude::*;

use std::collections::VecDeque;

use crate::bits::Bits;
use crate::bytes::Bytes;
use crate::fifo::Fifo;

pub mod commands;
pub mod display;
pub mod kick;
pub mod pixel;
pub mod pixel_storage;
pub mod privileged_registers;
pub mod registers;
pub mod rendering;
pub mod support;

use privileged_registers::{
    is_readable_privileged, is_writable_privileged, PrivilegedRegisters,
};
use registers::{Register, Registers, Rgbaq, Uv, Xyz};

verus! {

/// The bytes of local memory.
pub const LOCAL_MEMORY_SIZE: usize = 0x40_0000;

/// A vertex as the drawing registers give it.
#[derive(Clone, Copy)]
pub struct Vertex {
    pub position: Xyz,
    pub color: Rgbaq,
    pub uv: Uv,
}

/// The graphics synthesizer: its local memory, its registers, and the register writes that
/// wait to be carried out.
pub struct Gs {
    pub local_memory: Vec<u8>,
    pub command_queue: VecDeque<(Register, u64)>,
    pub privileged_registers: PrivilegedRegisters,
    pub registers: Registers,
    pub vertex_queue: Fifo<Vertex>,
    pub tmp_data: Vec<u32>,
}

impl Gs {
    pub open spec fn wf(self) -> bool {
        &&& self.local_memory@.len() == LOCAL_MEMORY_SIZE
        &&& self.vertex_queue.wf()
        &&& self.vertex_queue.max_len() == 2
    }

    /// Zeroed local memory and registers, and no waiting writes.
    pub fn new() -> (r: Gs)
        ensures
            r.wf(),
            r.command_queue@ == Seq::<(Register, u64)>::empty(),
            r.vertex_queue.view() == Seq::<Vertex>::empty(),
            forall|i: int| 0 <= i < LOCAL_MEMORY_SIZE ==> #[trigger] r.local_memory@[i] == 0,
            r.privileged_registers == PrivilegedRegisters::new_spec(),
    {
        Gs {
            local_memory: vec![0u8; LOCAL_MEMORY_SIZE],
            command_queue: VecDeque::new(),
            privileged_registers: PrivilegedRegisters::new(),
            registers: Registers::new(),
            vertex_queue: Fifo::with_capacity(2),
            tmp_data: Vec::new(),
        }
    }

    /// A doubleword write of the privileged register at `address`.
    pub fn write_privileged64(&mut self, address: u32, value: u64)
        requires
            privileged_registers::is_writable_privileged(address, value),
        ensures
            final(self).privileged_registers == old(self).privileged_registers.written(
                address,
                value,
            ),
            final(self).local_memory == old(self).local_memory,
            final(self).command_queue == old(self).command_queue,
            final(self).registers == old(self).registers,
            final(self).vertex_queue == old(self).vertex_queue,
            final(self).tmp_data == old(self).tmp_data,
    {
        self.privileged_registers.write64(address, value);
    }

    /// A doubleword read of the privileged register at `address`.
    pub fn read_privileged64(&self, address: u32) -> (r: u64)
        requires
            privileged_registers::is_readable_privileged(address),
        ensures
            r == self.privileged_registers.read(address),
    {
        self.privileged_registers.read64(address)
    }

    /// The start of vertical blanking: VSINT (bit 3 of CSR) is set.
    pub fn vblank(&mut self)
        ensures
            final(self).privileged_registers == (PrivilegedRegisters {
                status: crate::bits::set_bit_u64(old(self).privileged_registers.status, 3, true),
                ..old(self).privileged_registers
            }),
            final(self).local_memory == old(self).local_memory,
            final(self).command_queue == old(self).command_queue,
            final(self).registers == old(self).registers,
            final(self).vertex_queue == old(self).vertex_queue,
            final(self).tmp_data == old(self).tmp_data,
    {
        crate::bits::Bits::set_bit(&mut self.privileged_registers.status, 3, true);
    }
}


/// The doubleword that a 32-bit write of `word` at byte `offset` (0 or 4) of a doubleword
/// register holding `existing` leaves.
pub open spec fn merged_word(existing: u64, offset: u32, word: u32) -> u64 {
    (existing & !crate::bits::mask_u64((offset * 8) as u32, (offset * 8 + 32) as u32)) | ((
    word as u64) << (offset * 8) as u64)
}

/// Whether a write of a `T` holding `value` can be made to the privileged register at
/// `address`: a doubleword names a writable register, and a word must lie in a readable
/// register, which it partly overwrites.
pub open spec fn privileged_write_supported<T: Bytes>(address: u32, value: T) -> bool {
    ||| T::byte_count() == 8 && is_writable_privileged(
        address,
        u64::decode_bytes(value.encode_bytes()),
    )
    ||| T::byte_count() == 4 && (address % 8 == 0 || address % 8 == 4) && {
        let aligned = (address - address % 8) as u32;
        &&& is_readable_privileged(aligned)
        &&& is_writable_privileged(aligned, 0)
    }
}

/// Whether a read of a `T` can be made from the privileged register at `address`.
pub open spec fn privileged_read_supported<T: Bytes>(address: u32) -> bool {
    ||| T::byte_count() == 8 && is_readable_privileged(address)
    ||| T::byte_count() == 4 && (address % 8 == 0 || address % 8 == 4) && is_readable_privileged(
        (address - address % 8) as u32,
    )
}

proof fn lemma_merge_masks(address: u32)
    by (bit_vector)
    ensures
        address & !7u32 == address - address % 8,
{
}

impl Gs {
    /// The privileged registers after a write of a `T` holding `value` at `address`.
    pub open spec fn privileged_written<T: Bytes>(self, address: u32, value: T) -> PrivilegedRegisters {
        if T::byte_count() == 8 {
            self.privileged_registers.written(address, u64::decode_bytes(value.encode_bytes()))
        } else {
            let aligned = (address - address % 8) as u32;
            self.privileged_registers.written(
                aligned,
                merged_word(
                    self.privileged_registers.read(aligned),
                    address % 8,
                    u32::decode_bytes(value.encode_bytes()),
                ),
            )
        }
    }

    /// The `T` that a read at `address` gives.
    pub open spec fn privileged_read<T: Bytes>(self, address: u32) -> T {
        if T::byte_count() == 8 {
            T::decode_bytes(self.privileged_registers.read(address).encode_bytes())
        } else {
            let aligned = (address - address % 8) as u32;
            T::decode_bytes(
                self.privileged_registers.read(aligned).encode_bytes().subrange(
                    (address % 8) as int,
                    address % 8 + 4,
                ),
            )
        }
    }

    /// A word or doubleword write of the privileged register at `address`; a word goes into
    /// its half of the doubleword register.
    pub fn write_privileged<T: Bytes>(&mut self, address: u32, value: T)
        requires
            privileged_write_supported(address, value),
        ensures
            final(self).privileged_registers == old(self).privileged_written(address, value),
            final(self).local_memory == old(self).local_memory,
            final(self).command_queue == old(self).command_queue,
            final(self).registers == old(self).registers,
            final(self).vertex_queue == old(self).vertex_queue,
            final(self).tmp_data == old(self).tmp_data,
    {
        if T::size() == 4 {
            proof {
                lemma_merge_masks(address);
            }
            let aligned_address = address & !0b111u32;
            let offset_bytes = address - aligned_address;
            let existing = self.read_privileged64(aligned_address);
            let word = u32::from_bytes(value.to_bytes().as_slice());
            let shifted = (word as u64) << (offset_bytes * 8) as u64;
            let merged = existing & !u64::mask(offset_bytes * 8, offset_bytes * 8 + 32) | shifted;
            assert(is_writable_privileged(aligned_address, merged));
            self.write_privileged64(aligned_address, merged);
        } else {
            let doubleword = u64::from_bytes(value.to_bytes().as_slice());
            self.write_privileged64(address, doubleword);
        }
    }

    /// A word or doubleword read of the privileged register at `address`; a word is its half
    /// of the doubleword register.
    pub fn read_privileged<T: Bytes>(&self, address: u32) -> (r: T)
        requires
            privileged_read_supported::<T>(address),
        ensures
            r == self.privileged_read::<T>(address),
    {
        if T::size() == 4 {
            proof {
                lemma_merge_masks(address);
            }
            let aligned_address = address & !0b111u32;
            let result = self.read_privileged64(aligned_address);
            let offset_bytes = (address - aligned_address) as usize;
            let bytes = result.to_bytes();
            T::from_bytes(vstd::slice::slice_subrange(bytes.as_slice(), offset_bytes, offset_bytes + 4))
        } else {
            let bytes = self.read_privileged64(address).to_bytes();
            T::from_bytes(bytes.as_slice())
        }
    }
}

/// Whether a write of a `T` holding `value` can be made to the privileged register at
/// `address`.
pub fn privileged_write_allowed<T: Bytes>(address: u32, value: T) -> (r: bool)
    ensures
        r == privileged_write_supported(address, value),
{
    let size = T::size();
    if size == 8 {
        let bytes = value.to_bytes();
        privileged_registers::writable_privileged(address, u64::from_bytes(bytes.as_slice()))
    } else if size == 4 && (address % 8 == 0 || address % 8 == 4) {
        let aligned = address - address % 8;
        privileged_registers::readable_privileged(aligned)
            && privileged_registers::writable_privileged(aligned, 0)
    } else {
        false
    }
}

/// Whether a read of a `T` can be made from the privileged register at `address`.
pub fn privileged_read_allowed<T: Bytes>(address: u32) -> (r: bool)
    ensures
        r == privileged_read_supported::<T>(address),
{
    let size = T::size();
    if size == 8 {
        privileged_registers::readable_privileged(address)
    } else if size == 4 && (address % 8 == 0 || address % 8 == 4) {
        privileged_registers::readable_privileged(address - address % 8)
    } else {
        false
    }
}

} // verus!
