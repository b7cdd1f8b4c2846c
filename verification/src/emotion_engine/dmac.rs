use vstd::prelude::*;

use crate::bits::{
    bit_u32, bit_u64, bits_u128, bits_u32, bits_u64, set_bit_u32, set_bits_u32, Bits,
};
use crate::bytes::Bytes;
use crate::emotion_engine::bus::{Bus, PhysicalAddress};

verus! {

/// A channel of the DMA controller.
#[derive(Debug, PartialEq, Eq, Structural, Clone, Copy)]
pub enum Channel {
    Vif0,
    Vif1,
    Gif,
    FromIpu,
    ToIpu,
    Sif0,
    Sif1,
    Sif2,
    FromSpr,
    ToSpr,
}

/// The number of DMA channels.
pub const CHANNELS: usize = 10;

impl Channel {
    pub open spec fn spec_index(self) -> int {
        match self {
            Channel::Vif0 => 0,
            Channel::Vif1 => 1,
            Channel::Gif => 2,
            Channel::FromIpu => 3,
            Channel::ToIpu => 4,
            Channel::Sif0 => 5,
            Channel::Sif1 => 6,
            Channel::Sif2 => 7,
            Channel::FromSpr => 8,
            Channel::ToSpr => 9,
        }
    }

    pub open spec fn spec_from_index(index: int) -> Channel {
        if index == 0 {
            Channel::Vif0
        } else if index == 1 {
            Channel::Vif1
        } else if index == 2 {
            Channel::Gif
        } else if index == 3 {
            Channel::FromIpu
        } else if index == 4 {
            Channel::ToIpu
        } else if index == 5 {
            Channel::Sif0
        } else if index == 6 {
            Channel::Sif1
        } else if index == 7 {
            Channel::Sif2
        } else if index == 8 {
            Channel::FromSpr
        } else {
            Channel::ToSpr
        }
    }

    /// The channel's position in the list of channels.
    pub fn index(self) -> (r: usize)
        ensures
            r == self.spec_index(),
            r < CHANNELS,
    {
        match self {
            Channel::Vif0 => 0,
            Channel::Vif1 => 1,
            Channel::Gif => 2,
            Channel::FromIpu => 3,
            Channel::ToIpu => 4,
            Channel::Sif0 => 5,
            Channel::Sif1 => 6,
            Channel::Sif2 => 7,
            Channel::FromSpr => 8,
            Channel::ToSpr => 9,
        }
    }

    pub fn from_index(index: usize) -> (r: Channel)
        requires
            index < CHANNELS,
        ensures
            r == Channel::spec_from_index(index as int),
            r.spec_index() == index,
    {
        match index {
            0 => Channel::Vif0,
            1 => Channel::Vif1,
            2 => Channel::Gif,
            3 => Channel::FromIpu,
            4 => Channel::ToIpu,
            5 => Channel::Sif0,
            6 => Channel::Sif1,
            7 => Channel::Sif2,
            8 => Channel::FromSpr,
            _ => Channel::ToSpr,
        }
    }

    /// The channel whose registers lie at `address`, for addresses below 0x1000_E000.
    pub open spec fn spec_of_address(address: u32) -> Channel {
        if address < 0x10009000 {
            Channel::Vif0
        } else if address < 0x1000a000 {
            Channel::Vif1
        } else if address < 0x1000b000 {
            Channel::Gif
        } else if address < 0x1000b400 {
            Channel::FromIpu
        } else if address < 0x1000c000 {
            Channel::ToIpu
        } else if address < 0x1000c400 {
            Channel::Sif0
        } else if address < 0x1000c800 {
            Channel::Sif1
        } else if address < 0x1000d000 {
            Channel::Sif2
        } else if address < 0x1000d400 {
            Channel::FromSpr
        } else {
            Channel::ToSpr
        }
    }

    fn of_address(address: u32) -> (r: Channel)
        ensures
            r == Channel::spec_of_address(address),
    {
        if address < 0x10009000 {
            Channel::Vif0
        } else if address < 0x1000a000 {
            Channel::Vif1
        } else if address < 0x1000b000 {
            Channel::Gif
        } else if address < 0x1000b400 {
            Channel::FromIpu
        } else if address < 0x1000c000 {
            Channel::ToIpu
        } else if address < 0x1000c400 {
            Channel::Sif0
        } else if address < 0x1000c800 {
            Channel::Sif1
        } else if address < 0x1000d000 {
            Channel::Sif2
        } else if address < 0x1000d400 {
            Channel::FromSpr
        } else {
            Channel::ToSpr
        }
    }

    /// All channels, in order.
    pub fn all() -> (r: Vec<Channel>)
        ensures
            r@.len() == CHANNELS,
            forall|i: int| 0 <= i < CHANNELS ==> (#[trigger] r@[i]).spec_index() == i,
    {
        let mut result: Vec<Channel> = Vec::new();
        let mut i: usize = 0;
        while i < CHANNELS
            invariant
                i <= CHANNELS,
                result@.len() == i,
                forall|j: int| 0 <= j < i ==> (#[trigger] result@[j]).spec_index() == j,
            decreases CHANNELS - i,
        {
            result.push(Channel::from_index(i));
            i += 1;
        }
        result
    }
}

/// An address of main memory, or of the scratchpad when bit 31 is set.
#[derive(Debug, PartialEq, Eq, Structural, Clone, Copy)]
pub struct MemoryOrScratchpadAddress(pub u32);

/// A memory-or-scratchpad address split into the memory it selects and the address in it.
#[derive(Debug, PartialEq, Eq, Structural, Clone, Copy)]
pub enum MemoryOrScratchpadAddressView {
    Memory(u32),
    Scratchpad(u32),
}

impl MemoryOrScratchpadAddress {
    pub open spec fn spec_view(self) -> MemoryOrScratchpadAddressView {
        if bit_u32(self.0, 31) {
            MemoryOrScratchpadAddressView::Scratchpad(bits_u32(self.0, 0, 31))
        } else {
            MemoryOrScratchpadAddressView::Memory(bits_u32(self.0, 0, 31))
        }
    }

    pub fn view(&self) -> (r: MemoryOrScratchpadAddressView)
        ensures
            r == self.spec_view(),
    {
        if self.0.bit(31) {
            MemoryOrScratchpadAddressView::Scratchpad(self.0.bits(0, 31))
        } else {
            MemoryOrScratchpadAddressView::Memory(self.0.bits(0, 31))
        }
    }
}

/// Bounds of the DMAC register fields.
proof fn lemma_dmac_fields(x: u32)
    by (bit_vector)
    ensures
        bits_u32(x, 2, 4) < 4,
        bits_u32(x, 4, 6) < 4,
        bits_u32(x, 6, 8) < 4,
        bits_u32(x, 8, 11) < 8,
        bits_u32(x, 0, 1) < 2,
        bits_u32(x, 2, 4) < 4,
        bits_u32(x, 4, 6) < 4,
        bits_u32(x, 16, 32) < 0x1_0000,
        bits_u32(x, 0, 14) < 0x4000,
        x & 0xFF == x % 0x100,
{
}

/// The DMAC control register (CTRL).
#[derive(Debug, PartialEq, Eq, Structural, Clone, Copy)]
pub struct ControlRegister {
    pub raw: u32,
}

impl ControlRegister {
    /// DMAE (bit 0): transfers are enabled.
    pub fn enabled(&self) -> (r: bool)
        ensures
            r == bit_u32(self.raw, 0),
    {
        self.raw.bit(0)
    }

    /// RELE (bit 1): cycle stealing is on.
    pub fn released(&self) -> (r: bool)
        ensures
            r == bit_u32(self.raw, 1),
    {
        self.raw.bit(1)
    }

    /// MFD (bits 2..4): the channel that drains the memory FIFO; none for codes 0 and 1.
    pub fn memory_fifo_drain_channel(&self) -> (r: Option<Channel>)
        ensures
            r == (if bits_u32(self.raw, 2, 4) == 2 {
                Some(Channel::Vif1)
            } else if bits_u32(self.raw, 2, 4) == 3 {
                Some(Channel::Gif)
            } else {
                None
            }),
    {
        proof {
            lemma_dmac_fields(self.raw);
        }
        match self.raw.bits(2, 4) {
            2 => Some(Channel::Vif1),
            3 => Some(Channel::Gif),
            _ => None,
        }
    }

    /// STS (bits 4..6): the channel whose transfers set the stall address.
    pub fn stall_control_source_channel(&self) -> (r: Option<Channel>)
        ensures
            r == (if bits_u32(self.raw, 4, 6) == 1 {
                Some(Channel::Sif0)
            } else if bits_u32(self.raw, 4, 6) == 2 {
                Some(Channel::Vif1)
            } else if bits_u32(self.raw, 4, 6) == 3 {
                Some(Channel::Gif)
            } else {
                None
            }),
    {
        proof {
            lemma_dmac_fields(self.raw);
        }
        match self.raw.bits(4, 6) {
            1 => Some(Channel::Sif0),
            2 => Some(Channel::Vif1),
            3 => Some(Channel::Gif),
            _ => None,
        }
    }

    /// STD (bits 6..8): the channel that stalls at the stall address.
    pub fn stall_control_drain_channel(&self) -> (r: Option<Channel>)
        ensures
            r == (if bits_u32(self.raw, 6, 8) == 1 {
                Some(Channel::Vif1)
            } else if bits_u32(self.raw, 6, 8) == 2 {
                Some(Channel::Gif)
            } else if bits_u32(self.raw, 6, 8) == 3 {
                Some(Channel::Sif1)
            } else {
                None
            }),
    {
        proof {
            lemma_dmac_fields(self.raw);
        }
        match self.raw.bits(6, 8) {
            1 => Some(Channel::Vif1),
            2 => Some(Channel::Gif),
            3 => Some(Channel::Sif1),
            _ => None,
        }
    }

    /// RCYC (bits 8..11): the release cycle, 8 << code for codes up to 4, else 256.
    pub fn release_cycle(&self) -> (r: usize)
        ensures
            r == (if bits_u32(self.raw, 8, 11) == 0 {
                8usize
            } else if bits_u32(self.raw, 8, 11) == 1 {
                16usize
            } else if bits_u32(self.raw, 8, 11) == 2 {
                32usize
            } else if bits_u32(self.raw, 8, 11) == 3 {
                64usize
            } else if bits_u32(self.raw, 8, 11) == 4 {
                128usize
            } else {
                256usize
            }),
    {
        match self.raw.bits(8, 11) {
            0 => 8,
            1 => 16,
            2 => 32,
            3 => 64,
            4 => 128,
            _ => 256,
        }
    }
}

/// The status bits that a write of 1 clears: the interrupt status of each channel (bits
/// 0..10), DMA stall (13), MFIFO empty (14) and bus error (15).
pub const STATUS_CLEAR_BITS: u32 = 0xE3FF;

/// The mask bits that a write of 1 toggles: the interrupt mask of each channel (bits 16..26),
/// DMA stall (29) and MFIFO empty (30).
pub const STATUS_TOGGLE_BITS: u32 = 0x63FF_0000;

/// The DMAC status register (STAT).
#[derive(Debug, PartialEq, Eq, Structural, Clone, Copy)]
pub struct StatusRegister {
    pub raw: u32,
}

/// The low `n` bits set.
pub open spec fn low_bits(n: u32) -> u32 {
    ((1u32 << n) - 1) as u32
}

/// One channel's step of a status write: bit `i` is cleared where `value` has it, bit
/// `i + 16` toggled where `value` has it.
proof fn lemma_status_write_step(old_raw: u32, value: u32, raw: u32, i: u32)
    by (bit_vector)
    requires
        i < 10,
        raw == (old_raw & !(value & low_bits(i as u32))) ^ (value & (low_bits(i as u32) << 16u32)),
    ensures
        ({
            let cleared = if value & (1u32 << i) != 0 {
                raw & !(1u32 << i)
            } else {
                raw
            };
            let toggled = if value & (1u32 << (i + 16)) != 0 {
                cleared ^ (1u32 << (i + 16))
            } else {
                cleared
            };
            toggled == (old_raw & !(value & low_bits((i + 1) as u32))) ^ (value & (low_bits((i + 1) as u32) << 16u32))
        }),
{
}

/// No channel processed leaves the register as it was; all ten cover bits 0..10 and 16..26.
proof fn lemma_status_write_ends(old_raw: u32, value: u32)
    by (bit_vector)
    ensures
        (old_raw & !(value & low_bits(0))) ^ (value & (low_bits(0) << 16u32)) == old_raw,
        low_bits(10) == 0x3FF,
        low_bits(10) << 16u32 == 0x3FF_0000,
{
}

/// The remaining steps of a status write: DMA stall, MFIFO empty and bus error.
proof fn lemma_status_write_rest(old_raw: u32, value: u32, raw: u32)
    by (bit_vector)
    requires
        raw == (old_raw & !(value & 0x3FF)) ^ (value & 0x3FF_0000),
    ensures
        ({
            let a = if value & (1u32 << 13u32) != 0 {
                raw & !(1u32 << 13u32)
            } else {
                raw
            };
            let b = if value & (1u32 << 29u32) != 0 {
                a ^ (1u32 << 29u32)
            } else {
                a
            };
            let c = if value & (1u32 << 14u32) != 0 {
                b & !(1u32 << 14u32)
            } else {
                b
            };
            let d = if value & (1u32 << 30u32) != 0 {
                c ^ (1u32 << 30u32)
            } else {
                c
            };
            let e = if value & (1u32 << 15u32) != 0 {
                d & !(1u32 << 15u32)
            } else {
                d
            };
            e == (old_raw & !(value & 0xE3FF)) ^ (value & 0x63FF_0000)
        }),
{
}

/// What the set and test of a single bit are, as masks.
proof fn lemma_single_bit(x: u32, i: u32)
    by (bit_vector)
    requires
        i < 32,
    ensures
        bit_u32(x, i) == (x & (1u32 << i) != 0),
        set_bit_u32(x, i, false) == x & !(1u32 << i),
        set_bit_u32(x, i, !bit_u32(x, i)) == x ^ (1u32 << i),
{
}

impl StatusRegister {
    /// CIS (bit `channel`): the channel's interrupt status.
    pub fn interrupt_status(self, channel: Channel) -> (r: bool)
        ensures
            r == bit_u32(self.raw, channel.spec_index() as u32),
    {
        self.raw.bit(channel.index() as u32)
    }

    pub fn set_interrupt_status(&mut self, channel: Channel, value: bool)
        ensures
            final(self).raw == set_bit_u32(old(self).raw, channel.spec_index() as u32, value),
    {
        self.raw.set_bit(channel.index() as u32, value);
    }

    /// SIS (bit 13).
    pub fn dma_stall_interrupt_status(self) -> (r: bool)
        ensures
            r == bit_u32(self.raw, 13),
    {
        self.raw.bit(13)
    }

    pub fn set_dma_stall_interrupt_status(&mut self, value: bool)
        ensures
            final(self).raw == set_bit_u32(old(self).raw, 13, value),
    {
        self.raw.set_bit(13, value);
    }

    /// MEIS (bit 14).
    pub fn mfifo_empty_interrupt_status(self) -> (r: bool)
        ensures
            r == bit_u32(self.raw, 14),
    {
        self.raw.bit(14)
    }

    pub fn set_mfifo_empty_interrupt_status(&mut self, value: bool)
        ensures
            final(self).raw == set_bit_u32(old(self).raw, 14, value),
    {
        self.raw.set_bit(14, value);
    }

    /// BEIS (bit 15).
    pub fn buserr_interrupt_status(self) -> (r: bool)
        ensures
            r == bit_u32(self.raw, 15),
    {
        self.raw.bit(15)
    }

    pub fn set_buserr_interrupt_status(&mut self, value: bool)
        ensures
            final(self).raw == set_bit_u32(old(self).raw, 15, value),
    {
        self.raw.set_bit(15, value);
    }

    /// CIM (bit `channel + 16`): the channel's interrupt mask.
    pub fn interrupt_mask(self, channel: Channel) -> (r: bool)
        ensures
            r == bit_u32(self.raw, (channel.spec_index() + 16) as u32),
    {
        self.raw.bit(channel.index() as u32 + 16)
    }

    pub fn set_interrupt_mask(&mut self, channel: Channel, value: bool)
        ensures
            final(self).raw == set_bit_u32(
                old(self).raw,
                (channel.spec_index() + 16) as u32,
                value,
            ),
    {
        self.raw.set_bit(channel.index() as u32 + 16, value);
    }

    /// SIM (bit 29).
    pub fn dma_stall_interrupt_mask(self) -> (r: bool)
        ensures
            r == bit_u32(self.raw, 29),
    {
        self.raw.bit(29)
    }

    pub fn set_dma_stall_interrupt_mask(&mut self, value: bool)
        ensures
            final(self).raw == set_bit_u32(old(self).raw, 29, value),
    {
        self.raw.set_bit(29, value);
    }

    /// MEIM (bit 30).
    pub fn mfifo_empty_interrupt_mask(self) -> (r: bool)
        ensures
            r == bit_u32(self.raw, 30),
    {
        self.raw.bit(30)
    }

    pub fn set_mfifo_empty_interrupt_mask(&mut self, value: bool)
        ensures
            final(self).raw == set_bit_u32(old(self).raw, 30, value),
    {
        self.raw.set_bit(30, value);
    }

    /// The status register after a write of `value`: each status bit set in `value` is
    /// cleared, each mask bit set in `value` is toggled.
    pub open spec fn written(raw: u32, value: u32) -> u32 {
        (raw & !(value & STATUS_CLEAR_BITS)) ^ (value & STATUS_TOGGLE_BITS)
    }

    /// A write of `value` to the register.
    pub fn write(&mut self, value: Self)
        ensures
            final(self).raw == StatusRegister::written(old(self).raw, value.raw),
    {
        let channels = Channel::all();
        let mut i: usize = 0;
        proof {
            lemma_status_write_ends(self.raw, value.raw);
        }
        while i < CHANNELS
            invariant
                i <= CHANNELS,
                channels@.len() == CHANNELS,
                forall|j: int| 0 <= j < CHANNELS ==> (#[trigger] channels@[j]).spec_index() == j,
                self.raw == (old(self).raw & !(value.raw & low_bits(i as u32))) ^ (value.raw & (low_bits(i as u32) << 16u32)),
            decreases CHANNELS - i,
        {
            let channel = channels[i];
            let ghost before = self.raw;
            proof {
                lemma_status_write_step(old(self).raw, value.raw, before, i as u32);
                lemma_single_bit(value.raw, i as u32);
                lemma_single_bit(value.raw, (i + 16) as u32);
                lemma_single_bit(before, i as u32);
            }
            if value.interrupt_status(channel) {
                self.set_interrupt_status(channel, false)
            }
            let ghost cleared = self.raw;
            proof {
                lemma_single_bit(cleared, (i + 16) as u32);
            }
            if value.interrupt_mask(channel) {
                self.set_interrupt_mask(channel, !self.interrupt_mask(channel))
            }
            i += 1;
        }
        let ghost before = self.raw;
        proof {
            lemma_status_write_rest(old(self).raw, value.raw, before);
            lemma_single_bit(value.raw, 13);
            lemma_single_bit(value.raw, 14);
            lemma_single_bit(value.raw, 15);
            lemma_single_bit(value.raw, 29);
            lemma_single_bit(value.raw, 30);
            lemma_single_bit(before, 13);
        }
        let v = value.raw;
        if value.dma_stall_interrupt_status() {
            self.set_dma_stall_interrupt_status(false)
        }
        let ghost a = self.raw;
        assert(a == if v & (1u32 << 13u32) != 0 {
            before & !(1u32 << 13u32)
        } else {
            before
        });
        proof {
            lemma_single_bit(a, 29);
        }
        if value.dma_stall_interrupt_mask() {
            self.set_dma_stall_interrupt_mask(!self.dma_stall_interrupt_mask())
        }
        let ghost b = self.raw;
        assert(b == if v & (1u32 << 29u32) != 0 {
            a ^ (1u32 << 29u32)
        } else {
            a
        });
        proof {
            lemma_single_bit(b, 14);
        }
        if value.mfifo_empty_interrupt_status() {
            self.set_mfifo_empty_interrupt_status(false)
        }
        let ghost c = self.raw;
        assert(c == if v & (1u32 << 14u32) != 0 {
            b & !(1u32 << 14u32)
        } else {
            b
        });
        proof {
            lemma_single_bit(c, 30);
        }
        if value.mfifo_empty_interrupt_mask() {
            self.set_mfifo_empty_interrupt_mask(!self.mfifo_empty_interrupt_mask())
        }
        let ghost d = self.raw;
        assert(d == if v & (1u32 << 30u32) != 0 {
            c ^ (1u32 << 30u32)
        } else {
            c
        });
        proof {
            lemma_single_bit(d, 15);
        }
        if value.buserr_interrupt_status() {
            self.set_buserr_interrupt_status(false)
        }
        assert(self.raw == if v & (1u32 << 15u32) != 0 {
            d & !(1u32 << 15u32)
        } else {
            d
        });
    }
}

/// The direction of a channel's transfers.
#[derive(Debug, PartialEq, Eq, Structural, Clone, Copy)]
pub enum ChannelDirection {
    ToMemory,
    FromMemory,
}

/// How a channel finds the data it transfers.
#[derive(Debug, PartialEq, Eq, Structural, Clone, Copy)]
pub enum ChannelMode {
    Normal,
    Chain,
    Interleave,
}

/// The control register of a channel (CHCR).
#[derive(Debug, PartialEq, Eq, Structural, Clone, Copy)]
pub struct ChannelControlRegister {
    pub raw: u32,
}

impl ChannelControlRegister {
    /// DIR (bit 0).
    pub fn direction(self) -> (r: ChannelDirection)
        ensures
            r == (if bit_u32(self.raw, 0) {
                ChannelDirection::FromMemory
            } else {
                ChannelDirection::ToMemory
            }),
    {
        if self.raw.bit(0) {
            ChannelDirection::FromMemory
        } else {
            ChannelDirection::ToMemory
        }
    }

    /// MOD (bits 2..4), which must not be 3.
    pub fn mode(self) -> (r: ChannelMode)
        requires
            bits_u32(self.raw, 2, 4) != 3,
        ensures
            r == (if bits_u32(self.raw, 2, 4) == 0 {
                ChannelMode::Normal
            } else if bits_u32(self.raw, 2, 4) == 1 {
                ChannelMode::Chain
            } else {
                ChannelMode::Interleave
            }),
    {
        match self.raw.bits(2, 4) {
            0 => ChannelMode::Normal,
            1 => ChannelMode::Chain,
            _ => ChannelMode::Interleave,
        }
    }

    /// ASP (bits 4..6).
    pub fn address_stack_pointer(self) -> (r: u32)
        ensures
            r == bits_u32(self.raw, 4, 6),
    {
        self.raw.bits(4, 6)
    }

    /// TTE (bit 6).
    pub fn tag_transfer_enable(self) -> (r: bool)
        ensures
            r == bit_u32(self.raw, 6),
    {
        self.raw.bit(6)
    }

    /// TIE (bit 7).
    pub fn tag_interrupt_enable(self) -> (r: bool)
        ensures
            r == bit_u32(self.raw, 7),
    {
        self.raw.bit(7)
    }

    /// STR (bit 8): the channel is transferring.
    pub fn start(self) -> (r: bool)
        ensures
            r == bit_u32(self.raw, 8),
    {
        self.raw.bit(8)
    }

    pub fn set_start(&mut self, value: bool)
        ensures
            final(self).raw == set_bit_u32(old(self).raw, 8, value),
    {
        self.raw.set_bit(8, value);
    }

    /// TAG (bits 16..32): the upper half of the last tag read.
    pub fn dma_tag(self) -> (r: u16)
        ensures
            r == bits_u32(self.raw, 16, 32),
    {
        proof {
            lemma_dmac_fields(self.raw);
        }
        self.raw.bits(16, 32) as u16
    }

    pub fn set_dma_tag(&mut self, value: u16)
        ensures
            final(self).raw == set_bits_u32(old(self).raw, 16, 32, value as u32),
    {
        self.raw.set_bits(16, 32, value as u32);
    }
}

/// The registers of one channel.
#[derive(Debug, PartialEq, Eq, Structural, Clone, Copy)]
pub struct ChannelRegisters {
    pub control: ChannelControlRegister,
    pub memory_address: MemoryOrScratchpadAddress,
    pub quad_word_count: u32,
    pub tag_address: MemoryOrScratchpadAddress,
    pub tag_address_save_0: MemoryOrScratchpadAddress,
    pub tag_address_save_1: MemoryOrScratchpadAddress,
    pub scratchpad_memory_address: u32,
    pub process_next_tag: bool,
}

impl ChannelRegisters {
    pub open spec fn zero() -> ChannelRegisters {
        ChannelRegisters {
            control: ChannelControlRegister { raw: 0 },
            memory_address: MemoryOrScratchpadAddress(0),
            quad_word_count: 0,
            tag_address: MemoryOrScratchpadAddress(0),
            tag_address_save_0: MemoryOrScratchpadAddress(0),
            tag_address_save_1: MemoryOrScratchpadAddress(0),
            scratchpad_memory_address: 0,
            process_next_tag: false,
        }
    }

    pub fn new() -> (r: ChannelRegisters)
        ensures
            r == ChannelRegisters::zero(),
    {
        ChannelRegisters {
            control: ChannelControlRegister { raw: 0 },
            memory_address: MemoryOrScratchpadAddress(0),
            quad_word_count: 0,
            tag_address: MemoryOrScratchpadAddress(0),
            tag_address_save_0: MemoryOrScratchpadAddress(0),
            tag_address_save_1: MemoryOrScratchpadAddress(0),
            scratchpad_memory_address: 0,
            process_next_tag: false,
        }
    }

    /// The channel's registers after a write of `value` at register offset `offset`.
    pub open spec fn written(self, offset: u32, value: u32) -> ChannelRegisters {
        if offset == 0x00 {
            ChannelRegisters {
                control: ChannelControlRegister { raw: value },
                process_next_tag: if bit_u32(value, 8) {
                    true
                } else {
                    self.process_next_tag
                },
                ..self
            }
        } else if offset == 0x10 {
            ChannelRegisters { memory_address: MemoryOrScratchpadAddress(value), ..self }
        } else if offset == 0x20 {
            ChannelRegisters { quad_word_count: value, ..self }
        } else if offset == 0x30 {
            ChannelRegisters { tag_address: MemoryOrScratchpadAddress(value), ..self }
        } else if offset == 0x40 {
            ChannelRegisters { tag_address_save_0: MemoryOrScratchpadAddress(value), ..self }
        } else if offset == 0x50 {
            ChannelRegisters { tag_address_save_1: MemoryOrScratchpadAddress(value), ..self }
        } else {
            ChannelRegisters { scratchpad_memory_address: bits_u32(value, 0, 14), ..self }
        }
    }

    /// The value that a read at register offset `offset` gives.
    pub open spec fn read(self, offset: u32) -> u32 {
        if offset == 0x00 {
            self.control.raw
        } else if offset == 0x10 {
            self.memory_address.0
        } else if offset == 0x20 {
            self.quad_word_count
        } else if offset == 0x30 {
            self.tag_address.0
        } else if offset == 0x40 {
            self.tag_address_save_0.0
        } else if offset == 0x50 {
            self.tag_address_save_1.0
        } else {
            self.scratchpad_memory_address
        }
    }
}

/// The DMA controller's registers, as values.
pub struct DmacView {
    pub control: u32,
    pub status: u32,
    pub priority_control: u32,
    pub skip_quad_word: u32,
    pub ring_buffer_size: u32,
    pub ring_buffer_offset: u32,
    pub stall_address: u32,
    pub hold_status: u32,
    pub hold_control: u32,
    pub channels: Seq<ChannelRegisters>,
}

/// Whether `address` lies among the channel registers and names one.
pub open spec fn is_channel_register(address: u32) -> bool {
    &&& 0x1000_8000 <= address < 0x1000_E000
    &&& {
        let offset = address % 0x100;
        offset == 0x00 || offset == 0x10 || offset == 0x20 || offset == 0x30 || offset == 0x40
            || offset == 0x50 || offset == 0x80
    }
}

/// Whether `address` is a DMAC register that can be written.
pub open spec fn is_writable_dmac_register(address: u32) -> bool {
    is_channel_register(address) || address == 0x1000_E000 || address == 0x1000_E010 || address
        == 0x1000_E020 || address == 0x1000_E030 || address == 0x1000_E040 || address
        == 0x1000_E050 || address == 0x1000_E060 || address == 0x1000_F590
}

/// Whether `address` is a DMAC register that can be read.
pub open spec fn is_readable_dmac_register(address: u32) -> bool {
    is_channel_register(address) || address == 0x1000_E000 || address == 0x1000_E010 || address
        == 0x1000_E020 || address == 0x1000_E030 || address == 0x1000_E040 || address
        == 0x1000_E050 || address == 0x1000_E060 || address == 0x1000_F520
}

impl DmacView {
    /// The registers after a write of `value` at `address`.
    pub open spec fn written(self, address: u32, value: u32) -> DmacView {
        if address < 0x1000_E000 {
            let c = Channel::spec_of_address(address).spec_index();
            DmacView {
                channels: self.channels.update(c, self.channels[c].written(address % 0x100, value)),
                ..self
            }
        } else if address == 0x1000_E000 {
            DmacView { control: value, ..self }
        } else if address == 0x1000_E010 {
            DmacView { status: StatusRegister::written(self.status, value), ..self }
        } else if address == 0x1000_E020 {
            DmacView { priority_control: value, ..self }
        } else if address == 0x1000_E030 {
            DmacView { skip_quad_word: value, ..self }
        } else if address == 0x1000_E040 {
            DmacView { ring_buffer_size: value, ..self }
        } else if address == 0x1000_E050 {
            DmacView { ring_buffer_offset: value, ..self }
        } else if address == 0x1000_E060 {
            DmacView { stall_address: value, ..self }
        } else {
            DmacView { hold_control: value, ..self }
        }
    }

    /// The value that a read of `address` gives.
    pub open spec fn read(self, address: u32) -> u32 {
        if address < 0x1000_E000 {
            self.channels[Channel::spec_of_address(address).spec_index()].read(address % 0x100)
        } else if address == 0x1000_E000 {
            self.control
        } else if address == 0x1000_E010 {
            self.status
        } else if address == 0x1000_E020 {
            self.priority_control
        } else if address == 0x1000_E030 {
            self.skip_quad_word
        } else if address == 0x1000_E040 {
            self.ring_buffer_size
        } else if address == 0x1000_E050 {
            self.ring_buffer_offset
        } else if address == 0x1000_E060 {
            self.stall_address
        } else {
            self.hold_status
        }
    }
}

/// The DMA controller.
pub struct Dmac {
    control: ControlRegister,
    status: StatusRegister,
    priority_control: u32,
    skip_quad_word: u32,
    ring_buffer_size: u32,
    ring_buffer_offset: u32,
    stall_address: u32,
    hold_status: u32,
    hold_control: u32,
    pub channels: [ChannelRegisters; 10],
}

impl Dmac {
    pub closed spec fn view(self) -> DmacView {
        DmacView {
            control: self.control.raw,
            status: self.status.raw,
            priority_control: self.priority_control,
            skip_quad_word: self.skip_quad_word,
            ring_buffer_size: self.ring_buffer_size,
            ring_buffer_offset: self.ring_buffer_offset,
            stall_address: self.stall_address,
            hold_status: self.hold_status,
            hold_control: self.hold_control,
            channels: self.channels@,
        }
    }

    /// All registers zero.
    pub fn new() -> (r: Dmac)
        ensures
            r.view().control == 0 && r.view().status == 0 && r.view().priority_control == 0,
            r.view().skip_quad_word == 0 && r.view().ring_buffer_size == 0,
            r.view().ring_buffer_offset == 0 && r.view().stall_address == 0,
            r.view().hold_status == 0 && r.view().hold_control == 0,
            r.view().channels.len() == CHANNELS,
            forall|i: int| 0 <= i < CHANNELS ==> #[trigger] r.view().channels[i] == ChannelRegisters::zero(),
    {
        Dmac {
            control: ControlRegister { raw: 0 },
            status: StatusRegister { raw: 0 },
            priority_control: 0,
            skip_quad_word: 0,
            ring_buffer_size: 0,
            ring_buffer_offset: 0,
            stall_address: 0,
            hold_status: 0,
            hold_control: 0,
            channels: [
                ChannelRegisters::new(),
                ChannelRegisters::new(),
                ChannelRegisters::new(),
                ChannelRegisters::new(),
                ChannelRegisters::new(),
                ChannelRegisters::new(),
                ChannelRegisters::new(),
                ChannelRegisters::new(),
                ChannelRegisters::new(),
                ChannelRegisters::new(),
            ],
        }
    }

    /// Writes the register at `address`.
    pub fn write32(&mut self, address: u32, value: u32)
        requires
            is_writable_dmac_register(address),
        ensures
            final(self).view() == old(self).view().written(address, value),
    {
        if address < 0x1000_E000 {
            let channel = Channel::of_address(address);
            let index = channel.index();
            proof {
                lemma_dmac_fields(address);
            }
            let offset = address & 0xFF;
            let mut registers = self.channels[index];
            if offset == 0x00 {
                registers.control.raw = value;
                if registers.control.start() {
                    registers.process_next_tag = true;
                }
            } else if offset == 0x10 {
                registers.memory_address = MemoryOrScratchpadAddress(value);
            } else if offset == 0x20 {
                registers.quad_word_count = value;
            } else if offset == 0x30 {
                registers.tag_address = MemoryOrScratchpadAddress(value);
            } else if offset == 0x40 {
                registers.tag_address_save_0 = MemoryOrScratchpadAddress(value);
            } else if offset == 0x50 {
                registers.tag_address_save_1 = MemoryOrScratchpadAddress(value);
            } else {
                registers.scratchpad_memory_address = value.bits(0, 14);
            }
            self.channels[index] = registers;
            assert(self.view().channels =~= old(self).view().written(address, value).channels);
        } else if address == 0x1000_E000 {
            self.control.raw = value;
        } else if address == 0x1000_E010 {
            self.status.write(StatusRegister { raw: value });
        } else if address == 0x1000_E020 {
            self.priority_control = value;
        } else if address == 0x1000_E030 {
            self.skip_quad_word = value;
        } else if address == 0x1000_E040 {
            self.ring_buffer_size = value;
        } else if address == 0x1000_E050 {
            self.ring_buffer_offset = value;
        } else if address == 0x1000_E060 {
            self.stall_address = value;
        } else {
            self.hold_control = value;
        }
    }

    /// Reads the register at `address`.
    pub fn read32(&self, address: u32) -> (r: u32)
        requires
            is_readable_dmac_register(address),
        ensures
            r == self.view().read(address),
    {
        if address < 0x1000_E000 {
            let channel = Channel::of_address(address);
            let index = channel.index();
            proof {
                lemma_dmac_fields(address);
            }
            let offset = address & 0xFF;
            let registers = self.channels[index];
            if offset == 0x00 {
                registers.control.raw
            } else if offset == 0x10 {
                registers.memory_address.0
            } else if offset == 0x20 {
                registers.quad_word_count
            } else if offset == 0x30 {
                registers.tag_address.0
            } else if offset == 0x40 {
                registers.tag_address_save_0.0
            } else if offset == 0x50 {
                registers.tag_address_save_1.0
            } else {
                registers.scratchpad_memory_address
            }
        } else if address == 0x1000_E000 {
            self.control.raw
        } else if address == 0x1000_E010 {
            self.status.raw
        } else if address == 0x1000_E020 {
            self.priority_control
        } else if address == 0x1000_E030 {
            self.skip_quad_word
        } else if address == 0x1000_E040 {
            self.ring_buffer_size
        } else if address == 0x1000_E050 {
            self.ring_buffer_offset
        } else if address == 0x1000_E060 {
            self.stall_address
        } else {
            self.hold_status
        }
    }

    /// A word write of the register at `address`.
    pub fn write<T: Bytes>(&mut self, address: u32, value: T)
        requires
            T::byte_count() == 4,
            is_writable_dmac_register(address),
        ensures
            final(self).view() == old(self).view().written(
                address,
                u32::decode_bytes(value.encode_bytes()),
            ),
    {
        let bytes = value.to_bytes();
        let word = u32::from_bytes(bytes.as_slice());
        self.write32(address, word);
    }

    /// A word read of the register at `address`.
    pub fn read<T: Bytes>(&self, address: u32) -> (r: T)
        requires
            T::byte_count() == 4,
            is_readable_dmac_register(address),
        ensures
            r == T::decode_bytes(self.view().read(address).encode_bytes()),
    {
        let value = self.read32(address);
        let bytes = value.to_bytes();
        T::from_bytes(bytes.as_slice())
    }
}

/// The priority control field of a source chain tag (PCE).
#[derive(Debug, PartialEq, Eq, Structural, Clone, Copy)]
pub enum PriorityControl {
    Nothing,
    Reserved,
    Disabled,
    Enabled,
}

/// The kind of a source chain tag (ID).
#[derive(Debug, PartialEq, Eq, Structural, Clone, Copy)]
pub enum TagId {
    ReferenceEnd,
    Count,
    Next,
    Reference,
    References,
    Call,
    Return,
    End,
}

/// A DMA tag of a source chain transfer.
#[derive(Debug, PartialEq, Eq, Structural, Clone, Copy)]
pub struct SourceChainTag {
    pub quad_word_count: u16,
    pub priority_control: PriorityControl,
    pub tag_id: TagId,
    pub interrupt_request: bool,
    pub address: MemoryOrScratchpadAddress,
}

/// Bounds of the fields of a source chain tag.
proof fn lemma_tag_fields(x: u64)
    by (bit_vector)
    ensures
        bits_u64(x, 0, 16) < 0x1_0000,
        bits_u64(x, 26, 28) < 4,
        bits_u64(x, 28, 31) < 8,
        bits_u64(x, 32, 64) < 0x1_0000_0000,
{
}

impl SourceChainTag {
    /// QWC (bits 0..16), PCE (bits 26..28), ID (bits 28..31), IRQ (bit 31), ADDR and SPR
    /// (bits 32..64).
    pub open spec fn spec_from_raw(raw: u64) -> SourceChainTag {
        let pce = bits_u64(raw, 26, 28);
        let id = bits_u64(raw, 28, 31);
        SourceChainTag {
            quad_word_count: bits_u64(raw, 0, 16) as u16,
            priority_control: if pce == 0 {
                PriorityControl::Nothing
            } else if pce == 1 {
                PriorityControl::Reserved
            } else if pce == 2 {
                PriorityControl::Disabled
            } else {
                PriorityControl::Enabled
            },
            tag_id: if id == 0 {
                TagId::ReferenceEnd
            } else if id == 1 {
                TagId::Count
            } else if id == 2 {
                TagId::Next
            } else if id == 3 {
                TagId::Reference
            } else if id == 4 {
                TagId::References
            } else if id == 5 {
                TagId::Call
            } else if id == 6 {
                TagId::Return
            } else {
                TagId::End
            },
            interrupt_request: bit_u64(raw, 31),
            address: MemoryOrScratchpadAddress(bits_u64(raw, 32, 64) as u32),
        }
    }

    pub fn from_raw(raw: u64) -> (r: SourceChainTag)
        ensures
            r == SourceChainTag::spec_from_raw(raw),
    {
        proof {
            lemma_tag_fields(raw);
        }
        SourceChainTag {
            quad_word_count: raw.bits(0, 16) as u16,
            priority_control: match raw.bits(26, 28) {
                0 => PriorityControl::Nothing,
                1 => PriorityControl::Reserved,
                2 => PriorityControl::Disabled,
                _ => PriorityControl::Enabled,
            },
            tag_id: match raw.bits(28, 31) {
                0 => TagId::ReferenceEnd,
                1 => TagId::Count,
                2 => TagId::Next,
                3 => TagId::Reference,
                4 => TagId::References,
                5 => TagId::Call,
                6 => TagId::Return,
                _ => TagId::End,
            },
            interrupt_request: raw.bit(31),
            address: MemoryOrScratchpadAddress(raw.bits(32, 64) as u32),
        }
    }
}


/// The index of the GIF channel.
pub const GIF_CHANNEL: usize = 2;

/// The number of quadwords a burst moves: the remaining count, or as many as the FIFO has
/// room for.
pub open spec fn burst_length(quad_word_count: u32, room: int) -> int {
    if quad_word_count <= room {
        quad_word_count as int
    } else {
        room
    }
}

/// The address of quadword `k` of a burst from `address`.
pub open spec fn quadword_address(address: u32, k: int) -> PhysicalAddress {
    PhysicalAddress((address + 16 * k) as u32)
}

/// The `count` quadwords of memory or scratchpad from `address` on.
pub open spec fn source_quadwords(bus: Bus, address: u32, count: int) -> Seq<u128> {
    Seq::new(
        count as nat,
        |k: int| bus.spec_read_physical::<u128>(quadword_address(address, k)),
    )
}

/// Whether the `count` quadwords from `address` on can be read and their addresses do not
/// wrap.
pub open spec fn burst_readable(bus: Bus, address: u32, count: int) -> bool {
    &&& address + 16 * count <= u32::MAX
    &&& forall|k: int|
        0 <= k < count ==> bus.readable_physical::<u128>(#[trigger] quadword_address(address, k))
}

/// `new` is `old` with `items` added to the GIF FIFO and nothing else changed but the DMAC.
pub open spec fn gif_fed(old: Bus, new: Bus, items: Seq<u128>) -> bool {
    &&& new.wf()
    &&& new.gif.queue().view() == old.gif.queue().view() + items
    &&& new.gif.queue().max_len() == old.gif.queue().max_len()
    &&& new.gif.unpacking() == old.gif.unpacking()
    &&& new.gif.control() == old.gif.control() && new.gif.mode() == old.gif.mode()
    &&& forall|a: u32| #[trigger] new.gif.spec_read32(a) == old.gif.spec_read32(a)
    &&& new.main_memory == old.main_memory && new.boot_memory == old.boot_memory
    &&& new.scratchpad == old.scratchpad
    &&& new.timer == old.timer && new.gs == old.gs
}

/// Moves quadwords from `address` on into the GIF FIFO while any remain of
/// `quad_word_count` and the FIFO has room; gives the address and count after the burst.
fn transfer_to_gif(bus: &mut Bus, address: u32, quad_word_count: u32) -> (r: (u32, u32))
    requires
        old(bus).wf(),
        burst_readable(
            *old(bus),
            address,
            burst_length(
                quad_word_count,
                old(bus).gif.queue().max_len() - old(bus).gif.queue().view().len(),
            ),
        ),
    ensures
        ({
            let n = burst_length(
                quad_word_count,
                old(bus).gif.queue().max_len() - old(bus).gif.queue().view().len(),
            );
            &&& r == ((address + 16 * n) as u32, (quad_word_count - n) as u32)
            &&& gif_fed(*old(bus), *final(bus), source_quadwords(*old(bus), address, n))
            &&& final(bus).dmac == old(bus).dmac
        }),
{
    let ghost n = burst_length(
        quad_word_count,
        bus.gif.queue().max_len() - bus.gif.queue().view().len(),
    );
    let ghost start = *bus;
    proof {
        bus.gif.lemma_room();
    }
    let mut memory_address = address;
    let mut count = quad_word_count;
    let ghost mut moved: int = 0;
    while count > 0 && !bus.gif.is_full()
        invariant
            start.wf(),
            0 <= moved <= n,
            n == burst_length(
                quad_word_count,
                start.gif.queue().max_len() - start.gif.queue().view().len(),
            ),
            burst_readable(start, address, n),
            memory_address == address + 16 * moved,
            count == quad_word_count - moved,
            bus.gif.queue().view().len() == start.gif.queue().view().len() + moved,
            gif_fed(start, *bus, source_quadwords(start, address, moved)),
            bus.dmac == start.dmac,
        decreases count,
    {
        assert(moved < n);
        let physical = PhysicalAddress(memory_address);
        assert(physical == quadword_address(address, moved));
        assert(bus.readable_physical::<u128>(physical) == start.readable_physical::<u128>(physical));
        let data = bus.read_memory_or_scratchpad::<u128>(physical);
        assert(data == start.spec_read_physical::<u128>(physical));
        bus.gif.push_quadword(data);
        proof {
            assert(source_quadwords(start, address, moved).push(data) =~= source_quadwords(
                start,
                address,
                moved + 1,
            ));
            moved = moved + 1;
        }
        memory_address += 16;
        count -= 1;
    }
    (memory_address, count)
}


/// The room left in the GIF FIFO.
pub open spec fn gif_room(bus: Bus) -> int {
    bus.gif.queue().max_len() - bus.gif.queue().view().len()
}

/// The quadwords of the GIF channel's next burst.
pub open spec fn gif_burst(bus: Bus) -> int {
    burst_length(bus.dmac.view().channels[GIF_CHANNEL as int].quad_word_count, gif_room(bus))
}

/// The tag that a chain transfer of the GIF channel reads next.
pub open spec fn next_tag(bus: Bus) -> u128 {
    let c = bus.dmac.view().channels[GIF_CHANNEL as int];
    bus.spec_read_physical::<u128>(PhysicalAddress(c.tag_address.0))
}

/// Whether the GIF channel reaches a tag of its chain in this step.
pub open spec fn reads_tag(bus: Bus) -> bool {
    let c = bus.dmac.view().channels[GIF_CHANNEL as int];
    &&& bits_u32(c.control.raw, 2, 4) == 1
    &&& c.quad_word_count - gif_burst(bus) == 0
    &&& c.process_next_tag
}

/// Whether the DMAC can take a step: only the GIF channel may be running, in normal or
/// chain mode; its burst can be read; and a chain tag it reaches is a `refe` or `cnt` tag
/// that can be read, with tag transfer off.
pub open spec fn dmac_step_supported(bus: Bus) -> bool {
    let channels = bus.dmac.view().channels;
    let c = channels[GIF_CHANNEL as int];
    &&& forall|i: int|
        0 <= i < CHANNELS && i != GIF_CHANNEL ==> !bit_u32(#[trigger] channels[i].control.raw, 8)
    &&& bit_u32(c.control.raw, 8) ==> {
        let mode = bits_u32(c.control.raw, 2, 4);
        &&& mode == 0 || mode == 1
        &&& burst_readable(bus, c.memory_address.0, gif_burst(bus))
        &&& reads_tag(bus) ==> {
            let tag = SourceChainTag::spec_from_raw(next_tag(bus) as u64);
            &&& !bit_u32(c.control.raw, 6)
            &&& bus.readable_physical::<u128>(PhysicalAddress(c.tag_address.0))
            &&& tag.tag_id == TagId::ReferenceEnd || tag.tag_id == TagId::Count
            &&& c.tag_address.0 + 16 <= u32::MAX
        }
    }
}

/// The GIF channel's registers after a step.
pub open spec fn gif_channel_stepped(bus: Bus) -> ChannelRegisters {
    let c = bus.dmac.view().channels[GIF_CHANNEL as int];
    let n = gif_burst(bus);
    let address = (c.memory_address.0 + 16 * n) as u32;
    let count = (c.quad_word_count - n) as u32;
    if !bit_u32(c.control.raw, 8) {
        c
    } else if reads_tag(bus) {
        let raw = next_tag(bus);
        let tag = SourceChainTag::spec_from_raw(raw as u64);
        let control = ChannelControlRegister {
            raw: set_bits_u32(c.control.raw, 16, 32, bits_u128(raw, 16, 32) as u32),
        };
        let next_tag_address = MemoryOrScratchpadAddress((c.tag_address.0 + 16) as u32);
        if tag.tag_id == TagId::ReferenceEnd {
            ChannelRegisters {
                control,
                memory_address: tag.address,
                quad_word_count: tag.quad_word_count as u32,
                tag_address: next_tag_address,
                process_next_tag: false,
                ..c
            }
        } else {
            ChannelRegisters {
                control,
                memory_address: next_tag_address,
                quad_word_count: tag.quad_word_count as u32,
                tag_address: tag.address,
                ..c
            }
        }
    } else {
        ChannelRegisters {
            control: if count == 0 {
                ChannelControlRegister { raw: set_bit_u32(c.control.raw, 8, false) }
            } else {
                c.control
            },
            memory_address: MemoryOrScratchpadAddress(address),
            quad_word_count: count,
            ..c
        }
    }
}

proof fn lemma_quadword_fields(x: u128)
    by (bit_vector)
    ensures
        bits_u128(x, 16, 32) < 0x1_0000,
{
}

impl Dmac {
    /// Runs each started channel: the GIF channel moves a burst of quadwords into the GIF's
    /// FIFO; in chain mode, once the burst is done, it reads the next tag.
    pub fn step(bus: &mut Bus)
        requires
            old(bus).wf(),
            dmac_step_supported(*old(bus)),
        ensures
            final(bus).dmac.view() == (DmacView {
                channels: old(bus).dmac.view().channels.update(
                    GIF_CHANNEL as int,
                    gif_channel_stepped(*old(bus)),
                ),
                ..old(bus).dmac.view()
            }),
            gif_fed(
                *old(bus),
                *final(bus),
                if bit_u32(old(bus).dmac.view().channels[GIF_CHANNEL as int].control.raw, 8) {
                    source_quadwords(
                        *old(bus),
                        old(bus).dmac.view().channels[GIF_CHANNEL as int].memory_address.0,
                        gif_burst(*old(bus)),
                    )
                } else {
                    Seq::empty()
                },
            ),
    {
        let registers = bus.dmac.channels[GIF_CHANNEL];
        if !registers.control.start() {
            assert(bus.dmac.view().channels =~= old(bus).dmac.view().channels.update(
                GIF_CHANNEL as int,
                gif_channel_stepped(*old(bus)),
            ));
            assert(bus.gif.queue().view() =~= old(bus).gif.queue().view() + Seq::<u128>::empty());
            return;
        }
        let ghost start = *bus;
        proof {
            bus.gif.lemma_room();
        }
        let (memory_address, quad_word_count) = transfer_to_gif(
            bus,
            registers.memory_address.0,
            registers.quad_word_count,
        );
        let mut updated = registers;
        updated.memory_address = MemoryOrScratchpadAddress(memory_address);
        updated.quad_word_count = quad_word_count;
        let chain = registers.control.mode() == ChannelMode::Chain;
        if quad_word_count == 0 {
            if chain && registers.process_next_tag {
                let tag_address = PhysicalAddress(registers.tag_address.0);
                assert(bus.readable_physical::<u128>(tag_address) == start.readable_physical::<
                    u128,
                >(tag_address));
                let raw = bus.read_memory_or_scratchpad::<u128>(tag_address);
                assert(raw == next_tag(start));
                proof {
                    lemma_quadword_fields(raw);
                }
                updated.control.set_dma_tag(raw.bits(16, 32) as u16);
                let tag = SourceChainTag::from_raw(raw as u64);
                updated.quad_word_count = tag.quad_word_count as u32;
                match tag.tag_id {
                    TagId::ReferenceEnd => {
                        updated.memory_address = tag.address;
                        updated.tag_address = MemoryOrScratchpadAddress(
                            registers.tag_address.0 + 16,
                        );
                        updated.process_next_tag = false;
                    },
                    _ => {
                        updated.memory_address = MemoryOrScratchpadAddress(
                            registers.tag_address.0 + 16,
                        );
                        updated.tag_address = tag.address;
                    },
                }
            } else {
                updated.control.set_start(false);
            }
        }
        bus.dmac.channels[GIF_CHANNEL] = updated;
        assert(bus.dmac.view().channels =~= old(bus).dmac.view().channels.update(
            GIF_CHANNEL as int,
            gif_channel_stepped(*old(bus)),
        ));
    }
}

/// Whether `address` is a DMAC register that can be written.
pub fn writable_dmac_register(address: u32) -> (r: bool)
    ensures
        r == is_writable_dmac_register(address),
{
    channel_register(address) || address == 0x1000_E000 || address == 0x1000_E010 || address
        == 0x1000_E020 || address == 0x1000_E030 || address == 0x1000_E040 || address
        == 0x1000_E050 || address == 0x1000_E060 || address == 0x1000_F590
}

/// Whether `address` is a DMAC register that can be read.
pub fn readable_dmac_register(address: u32) -> (r: bool)
    ensures
        r == is_readable_dmac_register(address),
{
    channel_register(address) || address == 0x1000_E000 || address == 0x1000_E010 || address
        == 0x1000_E020 || address == 0x1000_E030 || address == 0x1000_E040 || address
        == 0x1000_E050 || address == 0x1000_E060 || address == 0x1000_F520
}

/// Whether `address` is a register of a channel.
fn channel_register(address: u32) -> (r: bool)
    ensures
        r == is_channel_register(address),
{
    if address < 0x1000_8000 || address >= 0x1000_E000 {
        return false;
    }
    let offset = address % 0x100;
    offset == 0x00 || offset == 0x10 || offset == 0x20 || offset == 0x30 || offset == 0x40
        || offset == 0x50 || offset == 0x80
}

impl Dmac {
    /// Whether `Dmac::step` can run on `bus` now.
    #[verifier::loop_isolation(false)]
    pub fn step_supported(bus: &Bus) -> (r: bool)
        requires
            bus.wf(),
        ensures
            r == dmac_step_supported(*bus),
    {
        let mut i: usize = 0;
        while i < CHANNELS
            invariant
                i <= CHANNELS,
                bus.dmac.view().channels == bus.dmac.channels@,
                forall|j: int|
                    0 <= j < i && j != GIF_CHANNEL ==> !bit_u32(
                        #[trigger] bus.dmac.view().channels[j].control.raw,
                        8,
                    ),
            decreases CHANNELS - i,
        {
            if i != GIF_CHANNEL && bus.dmac.channels[i].control.start() {
                return false;
            }
            i = i + 1;
        }
        let c = bus.dmac.channels[GIF_CHANNEL];
        if !c.control.start() {
            return true;
        }
        let mode = c.control.raw.bits(2, 4);
        if !(mode == 0 || mode == 1) {
            return false;
        }
        let room = bus.gif.room();
        let count: u64 = if (c.quad_word_count as u64) <= (room as u64) {
            c.quad_word_count as u64
        } else {
            room as u64
        };
        assert(count == gif_burst(*bus));
        let address = c.memory_address.0;
        if (address as u64) + 16 * count > u32::MAX as u64 {
            return false;
        }
        let mut k: u64 = 0;
        while k < count
            invariant
                k <= count,
                (address as u64) + 16 * count <= u32::MAX as u64,
                forall|j: int|
                    0 <= j < k ==> bus.readable_physical::<u128>(
                        #[trigger] quadword_address(address, j),
                    ),
            decreases count - k,
        {
            let physical = PhysicalAddress((address as u64 + 16 * k) as u32);
            assert(physical == quadword_address(address, k as int));
            if !bus.can_read_physical::<u128>(physical) {
                return false;
            }
            k = k + 1;
        }
        if mode == 1 && c.quad_word_count as u64 == count && c.process_next_tag {
            if c.control.raw.bit(6) {
                return false;
            }
            let tag_address = PhysicalAddress(c.tag_address.0);
            if !bus.can_read_physical::<u128>(tag_address) {
                return false;
            }
            let raw = bus.read_memory_or_scratchpad::<u128>(tag_address);
            let tag = SourceChainTag::from_raw(raw as u64);
            (tag.tag_id == TagId::ReferenceEnd || tag.tag_id == TagId::Count) && c.tag_address.0
                <= u32::MAX - 16
        } else {
            true
        }
    }
}

/// Reading a DMAC register back after writing it gives the value written, for every register
/// that can be both written and read but the status register, whose bits a write clears or
/// toggles; a channel's scratchpad address keeps the low 14 bits of the value.
pub proof fn law_register_read_after_write(dmac: Dmac, address: u32, value: u32)
    requires
        is_writable_dmac_register(address),
        is_readable_dmac_register(address),
        address != 0x1000_E010,
    ensures
        dmac.view().written(address, value).read(address) == if address < 0x1000_E000 && address
            % 0x100 == 0x80 {
            bits_u32(value, 0, 14)
        } else {
            value
        },
{
    if address < 0x1000_E000 {
        let c = Channel::spec_of_address(address).spec_index();
        assert(0 <= c < CHANNELS);
        assert(dmac.view().channels.len() == CHANNELS);
    }
}

/// Whether two DMAC register addresses name the same register: the same channel register
/// (same channel, same offset), or the same address.
pub open spec fn same_register(a: u32, b: u32) -> bool {
    if a < 0x1000_E000 && b < 0x1000_E000 {
        Channel::spec_of_address(a) == Channel::spec_of_address(b) && a % 0x100 == b % 0x100
    } else {
        a == b
    }
}

/// The registers after each write of `writes`, in order.
pub open spec fn all_written(view: DmacView, writes: Seq<(u32, u32)>) -> DmacView
    decreases writes.len(),
{
    if writes.len() == 0 {
        view
    } else {
        all_written(view, writes.drop_last()).written(writes.last().0, writes.last().1)
    }
}

/// A write keeps the number of channels.
proof fn lemma_written_channels(view: DmacView, address: u32, value: u32)
    requires
        view.channels.len() == CHANNELS,
        is_writable_dmac_register(address),
    ensures
        view.written(address, value).channels.len() == CHANNELS,
{
    if address < 0x1000_E000 {
        let c = Channel::spec_of_address(address).spec_index();
        assert(0 <= c < CHANNELS);
    }
}

/// Writing one DMAC register leaves what every other register reads as it was.
pub proof fn law_register_write_keeps_others(view: DmacView, address: u32, value: u32, other: u32)
    requires
        view.channels.len() == CHANNELS,
        is_writable_dmac_register(address),
        is_readable_dmac_register(other),
        !same_register(address, other),
    ensures
        view.written(address, value).read(other) == view.read(other),
{
    if address < 0x1000_E000 {
        let c = Channel::spec_of_address(address).spec_index();
        assert(0 <= c < CHANNELS);
        if other < 0x1000_E000 {
            let d = Channel::spec_of_address(other).spec_index();
            assert(0 <= d < CHANNELS);
            if c == d {
                assert(Channel::spec_of_address(address) == Channel::spec_of_address(other));
            }
        }
    }
}

/// Reading a DMAC register gives what its last write wrote, whatever was written to other
/// registers since: the value itself, or its low 14 bits for a channel's scratchpad address.
/// The status register is left out, as its bits a write clears or toggles.
pub proof fn law_last_write_is_read(dmac: Dmac, address: u32, value: u32, writes: Seq<(u32, u32)>)
    requires
        is_writable_dmac_register(address),
        is_readable_dmac_register(address),
        address != 0x1000_E010,
        forall|i: int|
            0 <= i < writes.len() ==> is_writable_dmac_register(#[trigger] writes[i].0)
                && !same_register(writes[i].0, address),
    ensures
        all_written(dmac.view().written(address, value), writes).read(address) == if address
            < 0x1000_E000 && address % 0x100 == 0x80 {
            bits_u32(value, 0, 14)
        } else {
            value
        },
    decreases writes.len(),
{
    if writes.len() == 0 {
        law_register_read_after_write(dmac, address, value);
    } else {
        let earlier = writes.drop_last();
        law_last_write_is_read(dmac, address, value, earlier);
        lemma_written_channels(dmac.view(), address, value);
        lemma_all_written_channels(dmac.view().written(address, value), earlier);
        let last = writes.last();
        assert(writes[writes.len() - 1] == last);
        law_register_write_keeps_others(
            all_written(dmac.view().written(address, value), earlier),
            last.0,
            last.1,
            address,
        );
    }
}

/// Writes keep the number of channels.
proof fn lemma_all_written_channels(view: DmacView, writes: Seq<(u32, u32)>)
    requires
        view.channels.len() == CHANNELS,
        forall|i: int| 0 <= i < writes.len() ==> is_writable_dmac_register(#[trigger] writes[i].0),
    ensures
        all_written(view, writes).channels.len() == CHANNELS,
    decreases writes.len(),
{
    if writes.len() > 0 {
        let earlier = writes.drop_last();
        assert forall|i: int| 0 <= i < earlier.len() implies is_writable_dmac_register(
            #[trigger] earlier[i].0,
        ) by {
            assert(earlier[i] == writes[i]);
        }
        lemma_all_written_channels(view, earlier);
        assert(writes[writes.len() - 1] == writes.last());
        lemma_written_channels(all_written(view, earlier), writes.last().0, writes.last().1);
    }
}

/// The number of a tag kind in the ID field of a DMA tag.
pub open spec fn tag_id_number(id: TagId) -> u64 {
    match id {
        TagId::ReferenceEnd => 0,
        TagId::Count => 1,
        TagId::Next => 2,
        TagId::Reference => 3,
        TagId::References => 4,
        TagId::Call => 5,
        TagId::Return => 6,
        TagId::End => 7,
    }
}

/// Decoding a source chain tag reads each field where the DMA tag keeps it: QWC from bits
/// 0..16, IRQ from bit 31, ADDR from bits 32..64, and the kind from the ID bits 28..31 by the
/// DMAC's numbering (0 refe, 1 cnt, 2 next, 3 ref, 4 refs, 5 call, 6 ret, 7 end).
pub proof fn law_tag_fields(raw: u64)
    ensures
        tag_id_number(SourceChainTag::spec_from_raw(raw).tag_id) == bits_u64(raw, 28, 31),
        SourceChainTag::spec_from_raw(raw).quad_word_count == bits_u64(raw, 0, 16),
        SourceChainTag::spec_from_raw(raw).interrupt_request == bit_u64(raw, 31),
        SourceChainTag::spec_from_raw(raw).address.0 == bits_u64(raw, 32, 64),
{
    lemma_tag_fields(raw);
}

/// A step of the GIF channel that reads a chain tag: a tag with ID 0 (refe) sends the channel
/// to transfer QWC quadwords from ADDR and ends the chain, the tag address moving past the tag;
/// a tag with ID 1 (cnt) transfers the QWC quadwords that follow the tag and takes the next
/// tag from ADDR.
pub proof fn law_chain_tag_step(bus: Bus)
    requires
        bus.wf(),
        dmac_step_supported(bus),
        bit_u32(bus.dmac.view().channels[GIF_CHANNEL as int].control.raw, 8),
        reads_tag(bus),
    ensures
        ({
            let c = bus.dmac.view().channels[GIF_CHANNEL as int];
            let raw = next_tag(bus) as u64;
            let after = gif_channel_stepped(bus);
            &&& bits_u64(raw, 28, 31) == 0 ==> {
                &&& after.memory_address.0 == bits_u64(raw, 32, 64)
                &&& after.quad_word_count == bits_u64(raw, 0, 16)
                &&& after.tag_address.0 == c.tag_address.0 + 16
                &&& !after.process_next_tag
            }
            &&& bits_u64(raw, 28, 31) == 1 ==> {
                &&& after.memory_address.0 == c.tag_address.0 + 16
                &&& after.quad_word_count == bits_u64(raw, 0, 16)
                &&& after.tag_address.0 == bits_u64(raw, 32, 64)
                &&& after.process_next_tag == c.process_next_tag
            }
        }),
{
    law_tag_fields(next_tag(bus) as u64);
}

} // verus!
