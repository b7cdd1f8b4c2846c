use vstd::prelude::*;

use crate::bits::{bit_u32, bits_u32, Bits};
use crate::bytes::Bytes;
use crate::emotion_engine::dmac::{
    is_readable_dmac_register, is_writable_dmac_register, readable_dmac_register,
    writable_dmac_register, Dmac,
};
use crate::emotion_engine::gif::{
    is_readable_gif_register, is_writable_gif_register, readable_gif_register,
    writable_gif_register, Gif,
};
use crate::emotion_engine::gs::pixel_storage::stored;
use crate::emotion_engine::gs::{
    privileged_read_allowed, privileged_read_supported, privileged_write_allowed,
    privileged_write_supported, Gs,
};
use crate::emotion_engine::timer::{
    is_readable_timer_register, is_writable_timer_register, readable_timer_register,
    writable_timer_register, Timer,
};

verus! {

/// An address on the physical bus. Bit 31 selects the scratchpad; the other 31 bits are the
/// address within main memory and devices, or within the scratchpad.
#[derive(Debug, PartialEq, Eq, Structural, Clone, Copy)]
pub struct PhysicalAddress(pub u32);

/// A physical address split into the memory it selects and the address within it.
#[derive(Debug, PartialEq, Eq, Structural, Clone, Copy)]
pub enum PhysicalAddressView {
    Memory(u32),
    Scratchpad(u32),
}

/// The scratchpad-select bit of a physical address.
pub const SCRATCHPAD_BIT: u32 = 0x8000_0000;

impl PhysicalAddress {
    pub open spec fn spec_view(self) -> PhysicalAddressView {
        if bit_u32(self.0, 31) {
            PhysicalAddressView::Scratchpad(bits_u32(self.0, 0, 31))
        } else {
            PhysicalAddressView::Memory(bits_u32(self.0, 0, 31))
        }
    }

    pub fn view(&self) -> (r: PhysicalAddressView)
        ensures
            r == self.spec_view(),
    {
        if self.0.bit(31) {
            PhysicalAddressView::Scratchpad(self.0.bits(0, 31))
        } else {
            PhysicalAddressView::Memory(self.0.bits(0, 31))
        }
    }

    /// The address `address` in main memory or device space.
    pub fn memory(address: u32) -> (r: PhysicalAddress)
        ensures
            r.0 == address,
    {
        PhysicalAddress(address)
    }

    /// The address `address` in the scratchpad.
    pub fn scratchpad(address: u32) -> (r: PhysicalAddress)
        requires
            address < SCRATCHPAD_BIT,
        ensures
            r.0 == address + SCRATCHPAD_BIT,
    {
        proof {
            lemma_scratchpad_bit(address);
        }
        PhysicalAddress(address | SCRATCHPAD_BIT)
    }

    /// The address from its view: the memory address as it is, the scratchpad address with
    /// bit 31 set.
    pub open spec fn from_view(view: PhysicalAddressView) -> PhysicalAddress {
        match view {
            PhysicalAddressView::Memory(address) => PhysicalAddress(address),
            PhysicalAddressView::Scratchpad(address) => PhysicalAddress(address | SCRATCHPAD_BIT),
        }
    }
}

proof fn lemma_scratchpad_bit(address: u32)
    by (bit_vector)
    ensures
        address < 0x8000_0000 ==> address | 0x8000_0000 == address + 0x8000_0000,
        mask_u32_31() == 0x8000_0000,
        bit_u32(address, 31) ==> address == bits_u32(address, 0, 31) | 0x8000_0000,
        !bit_u32(address, 31) ==> address == bits_u32(address, 0, 31),
        address < 0x8000_0000 ==> !bit_u32(address, 31) && bits_u32(address, 0, 31) == address,
        address < 0x8000_0000 ==> bit_u32(address | 0x8000_0000, 31) && bits_u32(
            address | 0x8000_0000,
            0,
            31,
        ) == address,
{
}

spec fn mask_u32_31() -> u32 {
    crate::bits::mask_u32(31, 32)
}

impl From<PhysicalAddressView> for PhysicalAddress {
    fn from(value: PhysicalAddressView) -> (r: PhysicalAddress) {
        proof {
            lemma_scratchpad_bit(0);
        }
        match value {
            PhysicalAddressView::Memory(address) => PhysicalAddress(address),
            PhysicalAddressView::Scratchpad(address) => PhysicalAddress(
                address | u32::mask(31, 32),
            ),
        }
    }
}

impl vstd::std_specs::convert::FromSpecImpl<PhysicalAddressView> for PhysicalAddress {
    open spec fn obeys_from_spec() -> bool {
        true
    }

    open spec fn from_spec(v: PhysicalAddressView) -> PhysicalAddress {
        PhysicalAddress::from_view(v)
    }
}

/// Splitting a physical address into its view and joining it again gives the address back;
/// joining a view whose address fits in 31 bits and splitting it gives the view back.
pub proof fn law_physical_address_view(address: PhysicalAddress, view: PhysicalAddressView)
    ensures
        PhysicalAddress::from_view(address.spec_view()) == address,
        (match view {
            PhysicalAddressView::Memory(a) => a < SCRATCHPAD_BIT,
            PhysicalAddressView::Scratchpad(a) => a < SCRATCHPAD_BIT,
        }) ==> PhysicalAddress::from_view(view).spec_view() == view,
{
    lemma_scratchpad_bit(address.0);
    match view {
        PhysicalAddressView::Memory(a) => lemma_scratchpad_bit(a),
        PhysicalAddressView::Scratchpad(a) => lemma_scratchpad_bit(a),
    }
}


/// Bytes of main memory.
pub const MAIN_MEMORY_SIZE: usize = 0x200_0000;

/// Bytes of boot memory.
pub const BOOT_MEMORY_SIZE: usize = 0x40_0000;

/// Bytes of the scratchpad.
pub const SCRATCHPAD_SIZE: usize = 0x4000;

/// The memories and devices that the core reaches by physical address.
pub struct Bus {
    pub main_memory: Vec<u8>,
    pub boot_memory: Vec<u8>,
    pub scratchpad: Vec<u8>,
    pub timer: Timer,
    pub gif: Gif,
    pub dmac: Dmac,
    pub gs: Gs,
}

/// Masking an aligned address to a power-of-two memory keeps a whole value inside it.
proof fn lemma_masked_address(address: u32, size: u32)
    by (bit_vector)
    requires
        size == 1 || size == 2 || size == 4 || size == 8 || size == 16,
    ensures
        address & (size - 1) as u32 == address % size,
        address & 0x1FF_FFFFu32 == address % 0x200_0000,
        address & 0x3F_FFFFu32 == address % 0x40_0000,
        address & 0x3FFFu32 == address % 0x4000,
        address % size == 0 ==> address % 0x200_0000 + size <= 0x200_0000,
        address % size == 0 ==> address % 0x40_0000 + size <= 0x40_0000,
        address % size == 0 ==> address % 0x4000 + size <= 0x4000,
{
}

impl Bus {
    pub open spec fn wf(self) -> bool {
        &&& self.main_memory@.len() == MAIN_MEMORY_SIZE
        &&& self.boot_memory@.len() == BOOT_MEMORY_SIZE
        &&& self.scratchpad@.len() == SCRATCHPAD_SIZE
        &&& self.timer.wf()
        &&& self.gif.wf()
        &&& self.gs.wf()
    }

    /// Zeroed memories and devices.
    pub fn new() -> (r: Bus)
        ensures
            r.wf(),
            forall|i: int| 0 <= i < MAIN_MEMORY_SIZE ==> #[trigger] r.main_memory@[i] == 0,
            forall|i: int| 0 <= i < BOOT_MEMORY_SIZE ==> #[trigger] r.boot_memory@[i] == 0,
            forall|i: int| 0 <= i < SCRATCHPAD_SIZE ==> #[trigger] r.scratchpad@[i] == 0,
    {
        Bus {
            main_memory: vec![0u8; MAIN_MEMORY_SIZE],
            boot_memory: vec![0u8; BOOT_MEMORY_SIZE],
            scratchpad: vec![0u8; SCRATCHPAD_SIZE],
            timer: Timer::new(),
            gif: Gif::new(),
            dmac: Dmac::new(),
            gs: Gs::new(),
        }
    }

    /// Whether a read of a `T` at the physical address `address` is accepted: it is aligned
    /// and names memory or a device register that can be read with that width.
    pub open spec fn readable<T: Bytes>(self, address: u32) -> bool {
        let size = T::byte_count();
        &&& address as int % size as int == 0
        &&& if address < 0x1000_0000 {
            true
        } else if address < 0x1000_2000 {
            size == 4 && is_readable_timer_register(address)
        } else if 0x1000_3000 <= address < 0x1000_3800 {
            size == 4 && is_readable_gif_register(address)
        } else if 0x1000_8000 <= address < 0x1000_F000 {
            size == 4 && is_readable_dmac_register(address)
        } else if 0x1200_0000 <= address < 0x1201_0000 {
            privileged_read_supported::<T>(address)
        } else {
            0x1FC0_0000 <= address < 0x2000_0000
        }
    }

    /// The `T` that a read at `address` gives.
    pub open spec fn spec_read<T: Bytes>(self, address: u32) -> T {
        let size = T::byte_count();
        if address < 0x1000_0000 {
            let a = address as int % MAIN_MEMORY_SIZE as int;
            T::decode_bytes(self.main_memory@.subrange(a, a + size))
        } else if address < 0x1000_2000 {
            T::decode_bytes((self.timer.spec_read16(address) as u32).encode_bytes())
        } else if 0x1000_3000 <= address < 0x1000_3800 {
            T::decode_bytes(self.gif.spec_read32(address).encode_bytes())
        } else if 0x1000_8000 <= address < 0x1000_F000 {
            T::decode_bytes(self.dmac.view().read(address).encode_bytes())
        } else if 0x1200_0000 <= address < 0x1201_0000 {
            self.gs.privileged_read::<T>(address)
        } else {
            let a = address as int % BOOT_MEMORY_SIZE as int;
            T::decode_bytes(self.boot_memory@.subrange(a, a + size))
        }
    }

    /// Whether a write of `value` at the physical address `address` is accepted.
    pub open spec fn writable<T: Bytes>(self, address: u32, value: T) -> bool {
        let size = T::byte_count();
        &&& address as int % size as int == 0
        &&& if address < 0x1000_0000 {
            true
        } else if address < 0x1000_2000 {
            size == 4 && is_writable_timer_register(address)
        } else if 0x1000_3000 <= address < 0x1000_3800 {
            size == 4 && is_writable_gif_register(address)
        } else if 0x1000_8000 <= address < 0x1000_F000 {
            size == 4 && is_writable_dmac_register(address)
        } else if 0x1200_0000 <= address < 0x1201_0000 {
            privileged_write_supported(address, value)
        } else {
            0x1FC0_0000 <= address < 0x2000_0000
        }
    }

    /// `new` is `old` after a write of `value` at `address`: memory takes the value's bytes, a
    /// device register takes the value. A write to boot memory goes to main memory at the same
    /// offset.
    pub open spec fn written<T: Bytes>(old: Bus, new: Bus, address: u32, value: T) -> bool {
        let size = T::byte_count();
        let word = u32::decode_bytes(value.encode_bytes());
        &&& new.boot_memory == old.boot_memory
        &&& new.scratchpad == old.scratchpad
        &&& if address < 0x1000_0000 || 0x1FC0_0000 <= address {
            let a = if address < 0x1000_0000 {
                address as int % MAIN_MEMORY_SIZE as int
            } else {
                address as int % BOOT_MEMORY_SIZE as int
            };
            &&& new.main_memory@ == stored(old.main_memory@, a, value.encode_bytes())
            &&& new.timer == old.timer && new.gif == old.gif && new.dmac == old.dmac
            &&& new.gs == old.gs
        } else {
            &&& new.main_memory == old.main_memory
            &&& if address < 0x1000_2000 {
                &&& Timer::written(old.timer, new.timer, address, word as u16)
                &&& new.gif == old.gif && new.dmac == old.dmac && new.gs == old.gs
            } else if address < 0x1000_3800 {
                &&& Gif::written(old.gif, new.gif, address, word)
                &&& new.timer == old.timer && new.dmac == old.dmac && new.gs == old.gs
            } else if address < 0x1000_F000 {
                &&& new.dmac.view() == old.dmac.view().written(address, word)
                &&& new.timer == old.timer && new.gif == old.gif && new.gs == old.gs
            } else {
                &&& new.gs.privileged_registers == old.gs.privileged_written(address, value)
                &&& new.gs.local_memory == old.gs.local_memory
                &&& new.gs.command_queue == old.gs.command_queue
                &&& new.gs.registers == old.gs.registers
                &&& new.gs.vertex_queue == old.gs.vertex_queue
                &&& new.timer == old.timer && new.gif == old.gif && new.dmac == old.dmac
            }
        }
    }

    /// Reads a `T` at the physical address `address` of memory or a device.
    pub fn read<T: Bytes>(&self, address: u32) -> (r: T)
        requires
            self.wf(),
            self.readable::<T>(address),
        ensures
            r == self.spec_read::<T>(address),
    {
        let size = T::size();
        proof {
            lemma_masked_address(address, size as u32);
        }
        if address < 0x1000_0000 {
            let a = (address & 0x1FF_FFFF) as usize;
            T::from_bytes(vstd::slice::slice_subrange(self.main_memory.as_slice(), a, a + size))
        } else if address < 0x1000_2000 {
            self.timer.read(address)
        } else if 0x1000_3000 <= address && address < 0x1000_3800 {
            self.gif.read(address)
        } else if 0x1000_8000 <= address && address < 0x1000_F000 {
            self.dmac.read(address)
        } else if 0x1200_0000 <= address && address < 0x1201_0000 {
            self.gs.read_privileged(address)
        } else {
            let a = (address & 0x3F_FFFF) as usize;
            T::from_bytes(vstd::slice::slice_subrange(self.boot_memory.as_slice(), a, a + size))
        }
    }

    /// Reads a `T` at `address` of the scratchpad, which repeats every 16 KiB.
    pub fn read_scratchpad<T: Bytes>(&self, address: u32) -> (r: T)
        requires
            self.wf(),
            address as int % T::byte_count() as int == 0,
        ensures
            r == T::decode_bytes(
                self.scratchpad@.subrange(
                    address as int % SCRATCHPAD_SIZE as int,
                    address as int % SCRATCHPAD_SIZE as int + T::byte_count(),
                ),
            ),
    {
        let size = T::size();
        proof {
            lemma_masked_address(address, size as u32);
        }
        let a = (address & 0x3FFF) as usize;
        T::from_bytes(vstd::slice::slice_subrange(self.scratchpad.as_slice(), a, a + size))
    }

    /// Writes a `T` at the physical address `address` of memory or a device.
    pub fn write<T: Bytes>(&mut self, address: u32, value: T)
        requires
            old(self).wf(),
            old(self).writable(address, value),
        ensures
            final(self).wf(),
            Bus::written(*old(self), *final(self), address, value),
    {
        let size = T::size();
        proof {
            lemma_masked_address(address, size as u32);
        }
        if address < 0x1000_0000 {
            let a = (address & 0x1FF_FFFF) as usize;
            store(&mut self.main_memory, a, &value.to_bytes());
        } else if address < 0x1000_2000 {
            self.timer.write(address, value);
        } else if 0x1000_3000 <= address && address < 0x1000_3800 {
            self.gif.write(address, value);
        } else if 0x1000_8000 <= address && address < 0x1000_F000 {
            self.dmac.write(address, value);
        } else if 0x1200_0000 <= address && address < 0x1201_0000 {
            self.gs.write_privileged(address, value);
        } else {
            let a = (address & 0x3F_FFFF) as usize;
            store(&mut self.main_memory, a, &value.to_bytes());
        }
    }

    /// Writes a `T` at `address` of the scratchpad, which repeats every 16 KiB.
    pub fn write_scratchpad<T: Bytes>(&mut self, address: u32, value: T)
        requires
            old(self).wf(),
            address as int % T::byte_count() as int == 0,
        ensures
            final(self).wf(),
            final(self).scratchpad@ == stored(
                old(self).scratchpad@,
                address as int % SCRATCHPAD_SIZE as int,
                value.encode_bytes(),
            ),
            final(self).main_memory == old(self).main_memory,
            final(self).boot_memory == old(self).boot_memory,
            final(self).timer == old(self).timer,
            final(self).gif == old(self).gif,
            final(self).dmac == old(self).dmac,
            final(self).gs == old(self).gs,
    {
        let size = T::size();
        proof {
            lemma_masked_address(address, size as u32);
        }
        let a = (address & 0x3FFF) as usize;
        store(&mut self.scratchpad, a, &value.to_bytes());
    }

    /// Whether a read of a `T` at `address` of memory or the scratchpad is accepted.
    pub open spec fn readable_physical<T: Bytes>(self, address: PhysicalAddress) -> bool {
        match address.spec_view() {
            PhysicalAddressView::Memory(a) => self.readable::<T>(a),
            PhysicalAddressView::Scratchpad(a) => a as int % T::byte_count() as int == 0,
        }
    }

    /// The `T` that a read at `address` of memory or the scratchpad gives.
    pub open spec fn spec_read_physical<T: Bytes>(self, address: PhysicalAddress) -> T {
        match address.spec_view() {
            PhysicalAddressView::Memory(a) => self.spec_read::<T>(a),
            PhysicalAddressView::Scratchpad(a) => T::decode_bytes(
                self.scratchpad@.subrange(
                    a as int % SCRATCHPAD_SIZE as int,
                    a as int % SCRATCHPAD_SIZE as int + T::byte_count(),
                ),
            ),
        }
    }

    /// Whether a write of `value` at `address` of memory or the scratchpad is accepted.
    pub open spec fn writable_physical<T: Bytes>(self, address: PhysicalAddress, value: T) -> bool {
        match address.spec_view() {
            PhysicalAddressView::Memory(a) => self.writable(a, value),
            PhysicalAddressView::Scratchpad(a) => a as int % T::byte_count() as int == 0,
        }
    }

    /// `new` is `old` after a write of `value` at `address` of memory or the scratchpad.
    pub open spec fn written_physical<T: Bytes>(
        old: Bus,
        new: Bus,
        address: PhysicalAddress,
        value: T,
    ) -> bool {
        match address.spec_view() {
            PhysicalAddressView::Memory(a) => Bus::written(old, new, a, value),
            PhysicalAddressView::Scratchpad(a) => {
                &&& new.scratchpad@ == stored(
                    old.scratchpad@,
                    a as int % SCRATCHPAD_SIZE as int,
                    value.encode_bytes(),
                )
                &&& new.main_memory == old.main_memory && new.boot_memory == old.boot_memory
                &&& new.timer == old.timer && new.gif == old.gif && new.dmac == old.dmac
                &&& new.gs == old.gs
            },
        }
    }

    /// Reads a `T` at `address`, which selects memory and devices or the scratchpad.
    pub fn read_memory_or_scratchpad<T: Bytes>(&self, address: PhysicalAddress) -> (r: T)
        requires
            self.wf(),
            self.readable_physical::<T>(address),
        ensures
            r == self.spec_read_physical::<T>(address),
    {
        match address.view() {
            PhysicalAddressView::Memory(address) => self.read(address),
            PhysicalAddressView::Scratchpad(address) => self.read_scratchpad(address),
        }
    }

    /// Writes a `T` at `address`, which selects memory and devices or the scratchpad.
    pub fn write_memory_or_scratchpad<T: Bytes>(&mut self, address: PhysicalAddress, value: T)
        requires
            old(self).wf(),
            old(self).writable_physical(address, value),
        ensures
            final(self).wf(),
            Bus::written_physical(*old(self), *final(self), address, value),
    {
        match address.view() {
            PhysicalAddressView::Memory(address) => self.write(address, value),
            PhysicalAddressView::Scratchpad(address) => self.write_scratchpad(address, value),
        }
    }
}

/// Stores `bytes` in `memory` from `address` on.
fn store(memory: &mut Vec<u8>, address: usize, bytes: &Vec<u8>)
    requires
        address + bytes@.len() <= old(memory)@.len(),
    ensures
        final(memory)@ == stored(old(memory)@, address as int, bytes@),
{
    let length = memory.len();
    let mut i: usize = 0;
    while i < bytes.len()
        invariant
            memory@.len() == length,
            address + bytes@.len() <= memory@.len(),
            i <= bytes@.len(),
            memory@.len() == old(memory)@.len(),
            forall|k: int|
                0 <= k < memory@.len() ==> #[trigger] memory@[k] == if address <= k < address + i {
                    bytes@[k - address]
                } else {
                    old(memory)@[k]
                },
        decreases bytes@.len() - i,
    {
        memory.set(address + i, bytes[i]);
        i += 1;
    }
    assert(memory@ =~= stored(old(memory)@, address as int, bytes@));
}

/// Reading main memory back at the address just written gives the value written.
pub proof fn law_read_after_write<T: Bytes>(old: Bus, new: Bus, address: u32, value: T)
    requires
        old.wf(),
        address < 0x1000_0000,
        old.writable::<T>(address, value),
        Bus::written(old, new, address, value),
    ensures
        new.spec_read::<T>(address) == value,
{
    let size = T::byte_count();
    value.lemma_bytes_roundtrip(Seq::empty());
    T::lemma_byte_count();
    lemma_masked_address(address, size as u32);
    let a = address as int % MAIN_MEMORY_SIZE as int;
    assert(new.main_memory@.subrange(a, a + size) =~= value.encode_bytes());
}

/// A write to main memory leaves every main memory value that it does not overlap as it was.
pub proof fn law_write_keeps_other_values<T: Bytes, U: Bytes>(
    old: Bus,
    new: Bus,
    address: u32,
    value: T,
    other: u32,
)
    requires
        old.wf(),
        address < 0x1000_0000,
        other < 0x1000_0000,
        old.writable::<T>(address, value),
        old.readable::<U>(other),
        Bus::written(old, new, address, value),
        other as int % MAIN_MEMORY_SIZE as int + U::byte_count() <= address as int
            % MAIN_MEMORY_SIZE as int || address as int % MAIN_MEMORY_SIZE as int
            + T::byte_count() <= other as int % MAIN_MEMORY_SIZE as int,
    ensures
        new.spec_read::<U>(other) == old.spec_read::<U>(other),
{
    value.lemma_bytes_roundtrip(Seq::empty());
    T::lemma_byte_count();
    U::lemma_byte_count();
    lemma_masked_address(other, U::byte_count() as u32);
    lemma_masked_address(address, T::byte_count() as u32);
    let b = other as int % MAIN_MEMORY_SIZE as int;
    assert(new.main_memory@.subrange(b, b + U::byte_count()) =~= old.main_memory@.subrange(
        b,
        b + U::byte_count(),
    ));
}

impl Bus {
    /// Whether a read of a `T` at the physical address `address` is accepted.
    pub fn can_read<T: Bytes>(&self, address: u32) -> (r: bool)
        ensures
            r == self.readable::<T>(address),
    {
        let size = T::size() as u32;
        if address % size != 0 {
            false
        } else if address < 0x1000_0000 {
            true
        } else if address < 0x1000_2000 {
            size == 4 && readable_timer_register(address)
        } else if 0x1000_3000 <= address && address < 0x1000_3800 {
            size == 4 && readable_gif_register(address)
        } else if 0x1000_8000 <= address && address < 0x1000_F000 {
            size == 4 && readable_dmac_register(address)
        } else if 0x1200_0000 <= address && address < 0x1201_0000 {
            privileged_read_allowed::<T>(address)
        } else {
            0x1FC0_0000 <= address && address < 0x2000_0000
        }
    }

    /// Whether a write of `value` at the physical address `address` is accepted.
    pub fn can_write<T: Bytes>(&self, address: u32, value: T) -> (r: bool)
        ensures
            r == self.writable::<T>(address, value),
    {
        let size = T::size() as u32;
        if address % size != 0 {
            false
        } else if address < 0x1000_0000 {
            true
        } else if address < 0x1000_2000 {
            size == 4 && writable_timer_register(address)
        } else if 0x1000_3000 <= address && address < 0x1000_3800 {
            size == 4 && writable_gif_register(address)
        } else if 0x1000_8000 <= address && address < 0x1000_F000 {
            size == 4 && writable_dmac_register(address)
        } else if 0x1200_0000 <= address && address < 0x1201_0000 {
            privileged_write_allowed(address, value)
        } else {
            0x1FC0_0000 <= address && address < 0x2000_0000
        }
    }

    /// Whether a read of a `T` at `address` of memory or the scratchpad is accepted.
    pub fn can_read_physical<T: Bytes>(&self, address: PhysicalAddress) -> (r: bool)
        ensures
            r == self.readable_physical::<T>(address),
    {
        match address.view() {
            PhysicalAddressView::Memory(a) => self.can_read::<T>(a),
            PhysicalAddressView::Scratchpad(a) => a % (T::size() as u32) == 0,
        }
    }

    /// Whether a write of `value` at `address` of memory or the scratchpad is accepted.
    pub fn can_write_physical<T: Bytes>(&self, address: PhysicalAddress, value: T) -> (r: bool)
        ensures
            r == self.writable_physical(address, value),
    {
        match address.view() {
            PhysicalAddressView::Memory(a) => self.can_write(a, value),
            PhysicalAddressView::Scratchpad(a) => a % (T::size() as u32) == 0,
        }
    }
}

} // verus!
