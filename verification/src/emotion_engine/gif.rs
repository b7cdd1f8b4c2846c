use vstd::prelude::*;

use std::collections::VecDeque;

use crate::bits::{bit_u128, bits_u128, bits_u32, set_bits_u32, Bits};
use crate::emotion_engine::gs::registers as gs;
use crate::bytes::Bytes;
use crate::emotion_engine::bus::Bus;
use crate::fifo::Fifo;

verus! {

/// A register descriptor of a GIF tag: where a packed quadword goes.
#[derive(Debug, PartialEq, Eq, Structural, Clone, Copy)]
pub enum Register {
    Primitive,
    Rgbaq,
    St,
    Uv,
    Xyzf2,
    Xyz2,
    Tex01,
    Tex02,
    Clamp1,
    Clamp2,
    Fog,
    Reserved,
    Xyzf3,
    Xyz3,
    AddressData,
    Nop,
}

impl Register {
    /// The descriptor with code `code` (only the low four bits count).
    pub open spec fn spec_from_code(code: u8) -> Register {
        let code = code % 16;
        if code == 0 {
            Register::Primitive
        } else if code == 1 {
            Register::Rgbaq
        } else if code == 2 {
            Register::St
        } else if code == 3 {
            Register::Uv
        } else if code == 4 {
            Register::Xyzf2
        } else if code == 5 {
            Register::Xyz2
        } else if code == 6 {
            Register::Tex01
        } else if code == 7 {
            Register::Tex02
        } else if code == 8 {
            Register::Clamp1
        } else if code == 9 {
            Register::Clamp2
        } else if code == 10 {
            Register::Fog
        } else if code == 11 {
            Register::Reserved
        } else if code == 12 {
            Register::Xyzf3
        } else if code == 13 {
            Register::Xyz3
        } else if code == 14 {
            Register::AddressData
        } else {
            Register::Nop
        }
    }

    pub fn from_code(code: u8) -> (r: Register)
        ensures
            r == Register::spec_from_code(code),
    {
        match code % 16 {
            0 => Register::Primitive,
            1 => Register::Rgbaq,
            2 => Register::St,
            3 => Register::Uv,
            4 => Register::Xyzf2,
            5 => Register::Xyz2,
            6 => Register::Tex01,
            7 => Register::Tex02,
            8 => Register::Clamp1,
            9 => Register::Clamp2,
            10 => Register::Fog,
            11 => Register::Reserved,
            12 => Register::Xyzf3,
            13 => Register::Xyz3,
            14 => Register::AddressData,
            _ => Register::Nop,
        }
    }
}

impl From<u8> for Register {
    fn from(value: u8) -> (r: Register) {
        Register::from_code(value)
    }
}

impl vstd::std_specs::convert::FromSpecImpl<u8> for Register {
    open spec fn obeys_from_spec() -> bool {
        true
    }

    open spec fn from_spec(value: u8) -> Register {
        Register::spec_from_code(value)
    }
}

/// The layout of the data that follows a GIF tag.
#[derive(Debug, PartialEq, Eq, Structural, Clone, Copy)]
pub enum DataFormat {
    Packed,
    RegisterList,
    Image,
}

/// A GIF tag: the header of a GS primitive packet.
#[derive(Debug, PartialEq, Eq, Structural, Clone, Copy)]
pub struct Tag {
    pub raw: u128,
}

/// Bounds of the fields of GIF tags and of the transfer status.
proof fn lemma_tag_fields(x: u128, s: u32)
    by (bit_vector)
    ensures
        bits_u128(x, 0, 15) < 0x8000,
        bits_u128(x, 47, 58) < 0x800,
        bits_u128(x, 58, 60) < 4,
        bits_u128(x, 60, 64) < 16,
        bits_u128(x, 64, 72) < 0x100,
        bits_u128(x, 0, 11) < 0x800,
        bits_u128(x, 0, 16) < 0x1_0000,
        bits_u128(x, 32, 48) < 0x1_0000,
        bits_u128(x, 68, 92) < 0x100_0000,
        bits_u128(x, 100, 108) < 0x100,
        bits_u128(x, 64, 96) < 0x1_0000_0000,
        bits_u128(x, 0, 64) < 0x1_0000_0000_0000_0000,
        bits_u128(x, 64, 128) < 0x1_0000_0000_0000_0000,
        bits_u128(x, 0, 32) < 0x1_0000_0000,
        bits_u128(x, 32, 64) < 0x1_0000_0000,
        bits_u128(x, 96, 128) < 0x1_0000_0000,
        bits_u32(s, 0, 15) < 0x8000,
        bits_u32(s, 16, 20) < 16,
        bits_u32(s, 20, 30) < 0x400,
        bits_u128(0, 0, 32) == 0 && bits_u128(0, 32, 64) == 0,
        bits_u128(0, 64, 96) == 0 && bits_u128(0, 96, 128) == 0,
{
}

impl Tag {
    pub open spec fn spec_repeat_count(self) -> u16 {
        bits_u128(self.raw, 0, 15) as u16
    }

    pub open spec fn spec_data_format(self) -> DataFormat {
        let flag = bits_u128(self.raw, 58, 60);
        if flag == 0 {
            DataFormat::Packed
        } else if flag == 1 {
            DataFormat::RegisterList
        } else {
            DataFormat::Image
        }
    }

    pub open spec fn spec_register_count(self) -> u8 {
        let count = bits_u128(self.raw, 60, 64);
        if count == 0 {
            16
        } else {
            count as u8
        }
    }

    /// The descriptor of register `index` (bits `64 + 4 * index` onwards).
    pub open spec fn spec_register(self, index: u8) -> Register {
        Register::spec_from_code(
            bits_u128(self.raw, (64 + index * 4) as u32, (68 + index * 4) as u32) as u8,
        )
    }

    /// NLOOP (bits 0..15): the number of times the register list repeats.
    pub fn repeat_count(&self) -> (r: u16)
        ensures
            r == self.spec_repeat_count(),
    {
        proof {
            lemma_tag_fields(self.raw, 0);
        }
        self.raw.bits(0, 15) as u16
    }

    /// EOP (bit 15): the packet ends with this tag's data.
    pub fn end_of_packet(&self) -> (r: bool)
        ensures
            r == bit_u128(self.raw, 15),
    {
        self.raw.bit(15)
    }

    /// PRE (bit 46): the PRIM field is written to the PRIM register.
    pub fn prim_field_enable(&self) -> (r: bool)
        ensures
            r == bit_u128(self.raw, 46),
    {
        self.raw.bit(46)
    }

    /// PRIM (bits 47..58).
    pub fn prim_data(&self) -> (r: u16)
        ensures
            r == bits_u128(self.raw, 47, 58),
    {
        proof {
            lemma_tag_fields(self.raw, 0);
        }
        self.raw.bits(47, 58) as u16
    }

    /// FLG (bits 58..60): packed, register list, or image (both codes 2 and 3).
    pub fn data_format(&self) -> (r: DataFormat)
        ensures
            r == self.spec_data_format(),
    {
        proof {
            lemma_tag_fields(self.raw, 0);
        }
        match self.raw.bits(58, 60) as u8 {
            0 => DataFormat::Packed,
            1 => DataFormat::RegisterList,
            _ => DataFormat::Image,
        }
    }

    /// NREG (bits 60..64): the number of registers in the list, where 0 stands for 16.
    pub fn register_count(&self) -> (r: u8)
        ensures
            r == self.spec_register_count(),
            1 <= r <= 16,
    {
        proof {
            lemma_tag_fields(self.raw, 0);
        }
        match self.raw.bits(60, 64) as u8 {
            0 => 16,
            n => n,
        }
    }

    /// Register `index` of the list (REGS).
    pub fn register(&self, index: u8) -> (r: Register)
        requires
            index < 16,
        ensures
            r == self.spec_register(index),
    {
        let start = 64 + index as u32 * 4;
        let end = start + 4;
        Register::from_code(self.raw.bits(start, end) as u8)
    }

    /// The `register_count` registers of the list, in order.
    pub fn registers(&self) -> (r: Vec<Register>)
        ensures
            r@.len() == self.spec_register_count(),
            forall|i: int| 0 <= i < r@.len() ==> #[trigger] r@[i] == self.spec_register(i as u8),
    {
        let count = self.register_count();
        let mut result: Vec<Register> = Vec::new();
        let mut i: u8 = 0;
        while i < count
            invariant
                count == self.spec_register_count(),
                count <= 16,
                i <= count,
                result@.len() == i,
                forall|j: int| 0 <= j < i ==> #[trigger] result@[j] == self.spec_register(j as u8),
            decreases count - i,
        {
            result.push(self.register(i));
            i += 1;
        }
        result
    }
}

/// The transfer status of the GIF (CNT): where in the current tag's data the transfer is.
#[derive(Debug, PartialEq, Eq, Structural, Clone, Copy)]
pub struct TransferStatus {
    pub raw: u32,
}

impl TransferStatus {
    pub open spec fn spec_loop_counter(self) -> u16 {
        bits_u32(self.raw, 0, 15) as u16
    }

    pub open spec fn spec_register_counter(self) -> u8 {
        bits_u32(self.raw, 16, 20) as u8
    }

    /// LOOPCNT (bits 0..15): the repetitions of the register list left.
    pub fn loop_counter(self) -> (r: u16)
        ensures
            r == self.spec_loop_counter(),
    {
        proof {
            lemma_tag_fields(0, self.raw);
        }
        self.raw.bits(0, 15) as u16
    }

    pub fn set_loop_counter(&mut self, value: u16)
        ensures
            final(self).raw == set_bits_u32(old(self).raw, 0, 15, value as u32),
    {
        self.raw.set_bits(0, 15, value as u32)
    }

    /// REGCNT (bits 16..20): the register of the list that comes next.
    pub fn register_counter(self) -> (r: u8)
        ensures
            r == self.spec_register_counter(),
            r < 16,
    {
        proof {
            lemma_tag_fields(0, self.raw);
        }
        self.raw.bits(16, 20) as u8
    }

    pub fn set_register_counter(&mut self, value: u8)
        ensures
            final(self).raw == set_bits_u32(old(self).raw, 16, 20, value as u32),
    {
        self.raw.set_bits(16, 20, value as u32)
    }

    /// VUADDR (bits 20..30).
    pub fn vu_address(self) -> (r: u16)
        ensures
            r == bits_u32(self.raw, 20, 30),
    {
        proof {
            lemma_tag_fields(0, self.raw);
        }
        self.raw.bits(20, 30) as u16
    }
}

/// The graphics interface: it unpacks GIF packets from its FIFO into writes of GS registers.
pub struct Gif {
    pub fifo: Fifo<u128>,
    control: u32,
    mode: u32,
    status: u32,
    tag: Tag,
    transfer_status: TransferStatus,
    path3_transfer_status_counter: u32,
    path3_tag_value: u32,
}

/// The GS register write of the XYZF2 descriptor: X (bits 0..16), Y (bits 32..48), Z (bits
/// 68..92) and F (bits 100..108) of the quadword, to XYZF3 when ADC (bit 111) is set.
pub open spec fn xyzf_command(data: u128) -> (gs::Register, u64) {
    let x = bits_u128(data, 0, 16) as u64;
    let y = bits_u128(data, 32, 48) as u64;
    let z = bits_u128(data, 68, 92) as u64;
    let f = bits_u128(data, 100, 108) as u64;
    (
        if bit_u128(data, 111) {
            gs::Register::Xyzf3
        } else {
            gs::Register::Xyzf2
        },
        x | (y << 16u64) | (z << 32u64) | (f << 56u64),
    )
}

/// The GS register write of the XYZ2 descriptor: X (bits 0..16), Y (bits 32..48) and Z (bits
/// 64..96) of the quadword, to XYZ3 when ADC (bit 111) is set.
pub open spec fn xyz_command(data: u128) -> (gs::Register, u64) {
    let x = bits_u128(data, 0, 16) as u64;
    let y = bits_u128(data, 32, 48) as u64;
    let z = bits_u128(data, 64, 96) as u64;
    (
        if bit_u128(data, 111) {
            gs::Register::Xyz3
        } else {
            gs::Register::Xyz2
        },
        x | (y << 16u64) | (z << 32u64),
    )
}

/// The GS register writes of one packed quadword under descriptor `register`; `None` for the
/// descriptors that are not handled, and for an address that names no GS register.
pub open spec fn packed_commands(register: Register, data: u128) -> Option<Seq<(gs::Register, u64)>> {
    match register {
        Register::Primitive => Some(seq![(gs::Register::Primitive, bits_u128(data, 0, 11) as u64)]),
        Register::Xyzf2 => Some(seq![xyzf_command(data)]),
        Register::Xyz2 => Some(seq![xyz_command(data)]),
        Register::AddressData => match gs::Register::spec_from_code(bits_u128(data, 64, 72) as u64) {
            Some(target) => Some(seq![(target, bits_u128(data, 0, 64) as u64)]),
            None => None,
        },
        _ => None,
    }
}

/// The state of the GIF that unpacking changes: the current tag and the transfer status.
pub struct Unpacking {
    pub tag: Tag,
    pub status: TransferStatus,
}

/// What the GIF does with one quadword of its FIFO: the next state and the GS register writes;
/// `None` where the GIF cannot handle it (a register list, a descriptor that is not handled, or
/// data after the last repetition).
pub open spec fn unpack(state: Unpacking, data: u128) -> Option<(Unpacking, Seq<(gs::Register, u64)>)> {
    let loop_counter = state.status.spec_loop_counter();
    let register_counter = state.status.spec_register_counter();
    if loop_counter == 0 && register_counter == 0 {
        let tag = Tag { raw: data };
        Some(
            (
                Unpacking {
                    tag,
                    status: TransferStatus {
                        raw: set_bits_u32(state.status.raw, 0, 15, tag.spec_repeat_count() as u32),
                    },
                },
                Seq::empty(),
            ),
        )
    } else {
        match state.tag.spec_data_format() {
            DataFormat::Packed => match packed_commands(
                state.tag.spec_register(register_counter),
                data,
            ) {
                Some(commands) => {
                    let next = (register_counter + 1) as u8;
                    if next == state.tag.spec_register_count() {
                        if loop_counter == 0 {
                            None
                        } else {
                            let raw = set_bits_u32(
                                state.status.raw,
                                0,
                                15,
                                (loop_counter - 1) as u32,
                            );
                            Some(
                                (
                                    Unpacking {
                                        tag: state.tag,
                                        status: TransferStatus { raw: set_bits_u32(raw, 16, 20, 0) },
                                    },
                                    commands,
                                ),
                            )
                        }
                    } else {
                        Some(
                            (
                                Unpacking {
                                    tag: state.tag,
                                    status: TransferStatus {
                                        raw: set_bits_u32(state.status.raw, 16, 20, next as u32),
                                    },
                                },
                                commands,
                            ),
                        )
                    }
                },
                None => None,
            },
            DataFormat::RegisterList => None,
            DataFormat::Image => if loop_counter == 0 {
                None
            } else {
                Some(
                    (
                        Unpacking {
                            tag: state.tag,
                            status: TransferStatus {
                                raw: set_bits_u32(state.status.raw, 0, 15, (loop_counter - 1) as u32),
                            },
                        },
                        seq![
                            (gs::Register::TransmissionData, bits_u128(data, 0, 64) as u64),
                            (gs::Register::TransmissionData, bits_u128(data, 64, 128) as u64),
                        ],
                    ),
                )
            },
        }
    }
}

/// Unpacking the quadwords `items` in order: the final state and all GS register writes, or
/// `None` where one of them cannot be handled.
pub open spec fn unpack_all(state: Unpacking, items: Seq<u128>) -> Option<(Unpacking, Seq<(gs::Register, u64)>)>
    decreases items.len(),
{
    if items.len() == 0 {
        Some((state, Seq::empty()))
    } else {
        match unpack(state, items[0]) {
            Some((next, commands)) => match unpack_all(next, items.drop_first()) {
                Some((last, rest)) => Some((last, commands + rest)),
                None => None,
            },
            None => None,
        }
    }
}

/// Whether `address` is a GIF register that can be written: CTRL or MODE.
pub open spec fn is_writable_gif_register(address: u32) -> bool {
    address == 0x1000_3000 || address == 0x1000_3010
}

/// Whether `address` is a GIF register that can be read.
pub open spec fn is_readable_gif_register(address: u32) -> bool {
    address == 0x1000_3020 || address == 0x1000_3040 || address == 0x1000_3050 || address
        == 0x1000_3060 || address == 0x1000_3070 || address == 0x1000_3080 || address
        == 0x1000_3090 || address == 0x1000_30a0
}

impl Gif {
    pub closed spec fn wf(self) -> bool {
        self.fifo.wf()
    }

    /// `new` is `old` after a write of `value` to CTRL or MODE at `address`.
    pub open spec fn written(old: Gif, new: Gif, address: u32, value: u32) -> bool {
        &&& new.queue() == old.queue()
        &&& new.wf() == old.wf()
        &&& new.unpacking() == old.unpacking()
        &&& new.control() == if address == 0x1000_3000 {
            value
        } else {
            old.control()
        }
        &&& new.mode() == if address == 0x1000_3010 {
            value
        } else {
            old.mode()
        }
        &&& forall|a: u32| #[trigger] new.spec_read32(a) == old.spec_read32(a)
    }

    /// The FIFO of quadwords waiting to be unpacked.
    pub closed spec fn queue(self) -> Fifo<u128> {
        self.fifo
    }

    pub closed spec fn unpacking(self) -> Unpacking {
        Unpacking { tag: self.tag, status: self.transfer_status }
    }

    pub closed spec fn control(self) -> u32 {
        self.control
    }

    pub closed spec fn mode(self) -> u32 {
        self.mode
    }

    /// The value that a read of the register at `address` gives.
    pub closed spec fn spec_read32(self, address: u32) -> u32 {
        if address == 0x1000_3020 {
            self.status
        } else if address == 0x1000_3040 {
            bits_u128(self.tag.raw, 0, 32) as u32
        } else if address == 0x1000_3050 {
            bits_u128(self.tag.raw, 32, 64) as u32
        } else if address == 0x1000_3060 {
            bits_u128(self.tag.raw, 64, 96) as u32
        } else if address == 0x1000_3070 {
            bits_u128(self.tag.raw, 96, 128) as u32
        } else if address == 0x1000_3080 {
            self.transfer_status.raw
        } else if address == 0x1000_3090 {
            self.path3_transfer_status_counter
        } else {
            self.path3_tag_value
        }
    }

    /// All registers zero, and an empty FIFO of 16 quadwords.
    pub fn new() -> (r: Gif)
        ensures
            r.wf(),
            r.queue().view() == Seq::<u128>::empty(),
            r.queue().max_len() == 16,
            r.unpacking() == (Unpacking { tag: Tag { raw: 0 }, status: TransferStatus { raw: 0 } }),
            r.control() == 0,
            r.mode() == 0,
            forall|address: u32| #[trigger] r.spec_read32(address) == 0,
    {
        proof {
            lemma_tag_fields(0, 0);
        }
        Gif {
            fifo: Fifo::with_capacity(16),
            control: 0,
            mode: 0,
            status: 0,
            tag: Tag { raw: 0 },
            transfer_status: TransferStatus { raw: 0 },
            path3_transfer_status_counter: 0,
            path3_tag_value: 0,
        }
    }

    /// Writes CTRL (0x1000_3000) or MODE (0x1000_3010).
    pub fn write32(&mut self, address: u32, value: u32)
        requires
            is_writable_gif_register(address),
        ensures
            Gif::written(*old(self), *final(self), address, value),
    {
        if address == 0x1000_3000 {
            self.control = value;
        } else {
            self.mode = value;
        }
    }

    /// Reads STAT, one of the four words of the current tag, CNT, P3CNT or P3TAG.
    pub fn read32(&self, address: u32) -> (r: u32)
        requires
            is_readable_gif_register(address),
        ensures
            r == self.spec_read32(address),
    {
        proof {
            lemma_tag_fields(self.tag.raw, 0);
        }
        match address {
            0x1000_3020 => self.status,
            0x1000_3040 => self.tag.raw.bits(0, 32) as u32,
            0x1000_3050 => self.tag.raw.bits(32, 64) as u32,
            0x1000_3060 => self.tag.raw.bits(64, 96) as u32,
            0x1000_3070 => self.tag.raw.bits(96, 128) as u32,
            0x1000_3080 => self.transfer_status.raw,
            0x1000_3090 => self.path3_transfer_status_counter,
            _ => self.path3_tag_value,
        }
    }

    /// A word write of the register at `address`.
    pub fn write<T: Bytes>(&mut self, address: u32, value: T)
        requires
            T::byte_count() == 4,
            is_writable_gif_register(address),
        ensures
            Gif::written(*old(self), *final(self), address, u32::decode_bytes(value.encode_bytes())),
    {
        let bytes = value.to_bytes();
        let word = <u32 as Bytes>::from_bytes(bytes.as_slice());
        self.write32(address, word);
    }

    /// A word read of the register at `address`.
    pub fn read<T: Bytes>(&self, address: u32) -> (r: T)
        requires
            T::byte_count() == 4,
            is_readable_gif_register(address),
        ensures
            r == T::decode_bytes(self.spec_read32(address).encode_bytes()),
    {
        let value = self.read32(address);
        let bytes = value.to_bytes();
        T::from_bytes(bytes.as_slice())
    }

    /// Unpacks one quadword `data` into GS register writes at the back of `commands`.
    fn unpack_one(&mut self, data: u128, commands: &mut VecDeque<(gs::Register, u64)>)
        requires
            unpack(old(self).unpacking(), data) is Some,
        ensures
            final(self).queue() == old(self).queue(),
            final(self).control() == old(self).control(),
            final(self).mode() == old(self).mode(),
            final(self).unpacking() == unpack(old(self).unpacking(), data).unwrap().0,
            final(commands)@ == old(commands)@ + unpack(old(self).unpacking(), data).unwrap().1,
    {
        proof {
            lemma_tag_fields(data, self.transfer_status.raw);
        }
        let loop_counter = self.transfer_status.loop_counter();
        let mut register_counter = self.transfer_status.register_counter();
        if loop_counter == 0 && register_counter == 0 {
            let tag = Tag { raw: data };
            self.transfer_status.set_loop_counter(tag.repeat_count());
            self.tag = tag;
            assert(commands@ =~= old(commands)@ + Seq::<(gs::Register, u64)>::empty());
            return;
        }
        match self.tag.data_format() {
            DataFormat::Packed => {
                let register = self.tag.register(register_counter);
                match register {
                    Register::Primitive => {
                        commands.push_back((gs::Register::Primitive, data.bits(0, 11) as u64));
                    },
                    Register::Xyzf2 => {
                        let x = data.bits(0, 16) as u64;
                        let y = data.bits(32, 48) as u64;
                        let z = data.bits(68, 92) as u64;
                        let f = data.bits(100, 108) as u64;
                        let adc = data.bit(111);
                        commands.push_back(
                            (
                                if adc {
                                    gs::Register::Xyzf3
                                } else {
                                    gs::Register::Xyzf2
                                },
                                x | (y << 16u64) | (z << 32u64) | (f << 56u64),
                            ),
                        );
                    },
                    Register::Xyz2 => {
                        let x = data.bits(0, 16) as u64;
                        let y = data.bits(32, 48) as u64;
                        let z = data.bits(64, 96) as u64;
                        let adc = data.bit(111);
                        commands.push_back(
                            (
                                if adc {
                                    gs::Register::Xyz3
                                } else {
                                    gs::Register::Xyz2
                                },
                                x | (y << 16u64) | (z << 32u64),
                            ),
                        );
                    },
                    _ => {
                        let target = gs::Register::from_code(data.bits(64, 72) as u64).unwrap();
                        commands.push_back((target, data.bits(0, 64) as u64));
                    },
                }
                register_counter += 1;
                if register_counter == self.tag.register_count() {
                    register_counter = 0;
                    self.transfer_status.set_loop_counter(loop_counter - 1);
                }
                self.transfer_status.set_register_counter(register_counter);
            },
            DataFormat::RegisterList => {},
            DataFormat::Image => {
                commands.push_back((gs::Register::TransmissionData, data.bits(0, 64) as u64));
                commands.push_back((gs::Register::TransmissionData, data.bits(64, 128) as u64));
                self.transfer_status.set_loop_counter(loop_counter - 1);
            },
        }
        assert(commands@ =~= old(commands)@ + unpack(old(self).unpacking(), data).unwrap().1);
    }

    /// Unpacks every quadword of the FIFO, in order, into GS register writes at the back of
    /// `commands`; the FIFO is left empty.
    pub fn unpack_fifo(&mut self, commands: &mut VecDeque<(gs::Register, u64)>)
        requires
            old(self).wf(),
            unpack_all(old(self).unpacking(), old(self).queue().view()) is Some,
        ensures
            final(self).wf(),
            final(self).queue().view() == Seq::<u128>::empty(),
            final(self).queue().max_len() == old(self).queue().max_len(),
            final(self).control() == old(self).control(),
            final(self).mode() == old(self).mode(),
            final(self).unpacking() == unpack_all(old(self).unpacking(), old(self).queue().view()).unwrap().0,
            final(commands)@ == old(commands)@ + unpack_all(
                old(self).unpacking(),
                old(self).queue().view(),
            ).unwrap().1,
    {
        let ghost total = unpack_all(self.unpacking(), self.fifo.view()).unwrap();
        let ghost mut produced: Seq<(gs::Register, u64)> = Seq::empty();
        while !self.fifo.is_empty()
            invariant
                self.wf(),
                self.fifo.max_len() == old(self).queue().max_len(),
                self.control() == old(self).control(),
                self.mode() == old(self).mode(),
                unpack_all(self.unpacking(), self.fifo.view()) is Some,
                unpack_all(self.unpacking(), self.fifo.view()).unwrap().0 == total.0,
                produced + unpack_all(self.unpacking(), self.fifo.view()).unwrap().1 == total.1,
                commands@ == old(commands)@ + produced,
            decreases self.fifo.view().len(),
        {
            let ghost items = self.fifo.view();
            let data = self.fifo.pop_front().unwrap();
            let ghost step = unpack(self.unpacking(), data).unwrap();
            assert(items.drop_first() == self.fifo.view());
            self.unpack_one(data, commands);
            proof {
                assert(produced + step.1 + unpack_all(self.unpacking(), self.fifo.view()).unwrap().1
                    =~= produced + (step.1 + unpack_all(self.unpacking(), self.fifo.view()).unwrap().1));
                produced = produced + step.1;
            }
        }
        assert(produced + Seq::<(gs::Register, u64)>::empty() =~= produced);
    }
}


impl Gif {
    /// Unpacks every quadword of the GIF's FIFO into GS register writes, which join the GS's
    /// queue of commands.
    pub fn step(bus: &mut Bus)
        requires
            old(bus).wf(),
            unpack_all(old(bus).gif.unpacking(), old(bus).gif.queue().view()) is Some,
        ensures
            final(bus).wf(),
            final(bus).gif.queue().view() == Seq::<u128>::empty(),
            final(bus).gif.unpacking() == unpack_all(
                old(bus).gif.unpacking(),
                old(bus).gif.queue().view(),
            ).unwrap().0,
            final(bus).gs.command_queue@ == old(bus).gs.command_queue@ + unpack_all(
                old(bus).gif.unpacking(),
                old(bus).gif.queue().view(),
            ).unwrap().1,
            final(bus).main_memory == old(bus).main_memory,
            final(bus).timer == old(bus).timer,
            final(bus).dmac == old(bus).dmac,
    {
        bus.gif.unpack_fifo(&mut bus.gs.command_queue);
    }
}


impl Gif {
    /// Adds `data` at the back of the FIFO, which must have room.
    pub fn push_quadword(&mut self, data: u128)
        requires
            old(self).wf(),
            old(self).queue().view().len() < old(self).queue().max_len(),
        ensures
            final(self).wf(),
            final(self).queue().view() == old(self).queue().view().push(data),
            final(self).queue().max_len() == old(self).queue().max_len(),
            final(self).unpacking() == old(self).unpacking(),
            final(self).control() == old(self).control(),
            final(self).mode() == old(self).mode(),
            forall|a: u32| #[trigger] final(self).spec_read32(a) == old(self).spec_read32(a),
    {
        self.fifo.push_back(data);
    }

    /// The FIFO of a well-formed GIF holds at most its capacity.
    pub proof fn lemma_room(self)
        requires
            self.wf(),
        ensures
            self.queue().view().len() <= self.queue().max_len(),
    {
        self.fifo.lemma_len_bound();
    }

    /// How many more quadwords the FIFO has room for.
    pub fn room(&self) -> (r: usize)
        requires
            self.wf(),
        ensures
            r == self.queue().max_len() - self.queue().view().len(),
    {
        proof {
            self.fifo.lemma_len_bound();
        }
        self.fifo.capacity() - self.fifo.len()
    }

    /// Whether the FIFO has no room.
    pub fn is_full(&self) -> (r: bool)
        requires
            self.wf(),
        ensures
            r == (self.queue().view().len() == self.queue().max_len()),
    {
        self.fifo.is_full()
    }
}

/// Whether `address` is a GIF register that can be written.
pub fn writable_gif_register(address: u32) -> (r: bool)
    ensures
        r == is_writable_gif_register(address),
{
    address == 0x1000_3000 || address == 0x1000_3010
}

/// Whether `address` is a GIF register that can be read.
pub fn readable_gif_register(address: u32) -> (r: bool)
    ensures
        r == is_readable_gif_register(address),
{
    address == 0x1000_3020 || address == 0x1000_3040 || address == 0x1000_3050 || address
        == 0x1000_3060 || address == 0x1000_3070 || address == 0x1000_3080 || address
        == 0x1000_3090 || address == 0x1000_30a0
}

impl Gif {
    /// Whether `unpack` can handle `data` in the present state.
    fn unpack_allowed(&self, data: u128) -> (r: bool)
        ensures
            r == (unpack(self.unpacking(), data) is Some),
    {
        proof {
            lemma_tag_fields(data, self.transfer_status.raw);
        }
        let loop_counter = self.transfer_status.loop_counter();
        let register_counter = self.transfer_status.register_counter();
        if loop_counter == 0 && register_counter == 0 {
            return true;
        }
        match self.tag.data_format() {
            DataFormat::Packed => {
                let handled = match self.tag.register(register_counter) {
                    Register::Primitive | Register::Xyzf2 | Register::Xyz2 => true,
                    Register::AddressData => gs::Register::from_code(data.bits(64, 72) as u64).is_some(),
                    _ => false,
                };
                handled && (register_counter + 1 != self.tag.register_count() || loop_counter != 0)
            },
            DataFormat::RegisterList => false,
            DataFormat::Image => loop_counter != 0,
        }
    }

    /// Whether every quadword of the FIFO can be unpacked, in order.
    pub fn can_unpack(&self) -> (r: bool)
        requires
            self.wf(),
        ensures
            r == (unpack_all(self.unpacking(), self.queue().view()) is Some),
    {
        let items = self.fifo.iter();
        let mut scratch = Gif {
            fifo: Fifo::with_capacity(1),
            control: self.control,
            mode: self.mode,
            status: self.status,
            tag: self.tag,
            transfer_status: self.transfer_status,
            path3_transfer_status_counter: self.path3_transfer_status_counter,
            path3_tag_value: self.path3_tag_value,
        };
        let mut commands: VecDeque<(gs::Register, u64)> = VecDeque::new();
        let mut i: usize = 0;
        assert(items@.skip(0) =~= items@);
        assert(scratch.unpacking() == self.unpacking());
        while i < items.len()
            invariant
                i <= items@.len(),
                items@ == self.queue().view(),
                (unpack_all(self.unpacking(), items@) is Some) == (unpack_all(
                    scratch.unpacking(),
                    items@.skip(i as int),
                ) is Some),
            decreases items@.len() - i,
        {
            let data = items[i];
            assert(items@.skip(i as int)[0] == data);
            assert(items@.skip(i as int).drop_first() =~= items@.skip(i + 1));
            if !scratch.unpack_allowed(data) {
                return false;
            }
            scratch.unpack_one(data, &mut commands);
            i = i + 1;
        }
        assert(items@.skip(i as int) =~= Seq::<u128>::empty());
        true
    }
}

/// A PACKED quadword under a vertex descriptor is one GS write, whose register its ADC bit 111
/// picks: with ADC clear an XYZ2 (XYZF2) quadword goes to XYZ2 (XYZF2), the registers that
/// kick drawing; with ADC set to XYZ3 (XYZF3), which only add the vertex.
pub proof fn law_packed_vertex_register(state: Unpacking, data: u128)
    requires
        state.status.spec_loop_counter() != 0 || state.status.spec_register_counter() != 0,
        state.tag.spec_data_format() == DataFormat::Packed,
        unpack(state, data) is Some,
    ensures
        ({
            let descriptor = state.tag.spec_register(state.status.spec_register_counter());
            let writes = unpack(state, data).unwrap().1;
            let adc = bit_u128(data, 111);
            &&& descriptor == Register::Xyz2 ==> writes.len() == 1 && writes[0].0 == if adc {
                gs::Register::Xyz3
            } else {
                gs::Register::Xyz2
            }
            &&& descriptor == Register::Xyzf2 ==> writes.len() == 1 && writes[0].0 == if adc {
                gs::Register::Xyzf3
            } else {
                gs::Register::Xyzf2
            }
        }),
{
}

/// The other quadwords that carry data: in IMAGE mode a quadword is two writes to the
/// transmission data register, its low doubleword first, then its high one; in PACKED mode under the A+D descriptor a quadword writes its low
/// doubleword to the GS register whose address stands in bits 64..72.
pub proof fn law_image_and_address_data(state: Unpacking, data: u128)
    requires
        state.status.spec_loop_counter() != 0 || state.status.spec_register_counter() != 0,
        unpack(state, data) is Some,
    ensures
        ({
            let writes = unpack(state, data).unwrap().1;
            &&& state.tag.spec_data_format() == DataFormat::Image ==> writes == seq![
                (gs::Register::TransmissionData, bits_u128(data, 0, 64) as u64),
                (gs::Register::TransmissionData, bits_u128(data, 64, 128) as u64),
            ]
            &&& state.tag.spec_data_format() == DataFormat::Packed && state.tag.spec_register(
                state.status.spec_register_counter(),
            ) == Register::AddressData ==> writes == seq![
                (
                    gs::Register::spec_from_code(bits_u128(data, 64, 72) as u64).unwrap(),
                    bits_u128(data, 0, 64) as u64,
                ),
            ]
        }),
{
}

} // verus!
