use vstd::prelude::*;

use crate::bits::{bit_u32, bit_u64, bits_u32, bits_u64, Bits};
use crate::emotion_engine::gs::registers::PixelStorageFormat;
use crate::emotion_engine::gs::rendering::Rect;

verus! {

/// The field bounds of the privileged registers.
proof fn lemma_privileged_fields(x: u64, y: u32)
    by (bit_vector)
    ensures
        bits_u64(x, 0, 9) < 0x200,
        bits_u64(x, 9, 15) < 0x40,
        bits_u64(x, 15, 20) < 0x20,
        bits_u64(x, 32, 43) < 0x800,
        bits_u64(x, 43, 54) < 0x800,
        bits_u64(x, 8, 16) < 0x100,
        bits_u64(x, 6, 7) < 2,
        bits_u64(x, 7, 8) < 2,
        bits_u64(x, 23, 27) < 0x10,
        bits_u64(x, 27, 29) < 4,
        bits_u64(x, 0, 12) < 0x1000,
        bits_u64(x, 12, 23) < 0x800,
        bits_u64(x, 32, 44) < 0x1000,
        bits_u64(x, 44, 55) < 0x800,
        bits_u32(y, 0, 8) < 0x100,
        bits_u32(y, 8, 16) < 0x100,
        bits_u32(y, 16, 24) < 0x100,
{
}

/// A frame buffer that a read circuit displays (DISPFB1, DISPFB2).
#[derive(Debug, PartialEq, Eq, Structural, Clone, Copy)]
pub struct DisplayFrameBuffer {
    pub base_pointer: u32,
    pub width: u16,
    pub pixel_storage_format: PixelStorageFormat,
    pub offset_x: u16,
    pub offset_y: u16,
}

impl DisplayFrameBuffer {
    /// The register value selects a pixel storage format.
    pub open spec fn valid_raw(raw: u64) -> bool {
        PixelStorageFormat::spec_from_code(bits_u64(raw, 15, 20)) is Some
    }

    /// FBP (bits 0..9) in units of 2048, FBW (bits 9..15) in units of 64 pixels, PSM (bits
    /// 15..20), DBX (bits 32..43), DBY (bits 43..54).
    pub open spec fn spec_from_raw(raw: u64) -> DisplayFrameBuffer {
        DisplayFrameBuffer {
            base_pointer: (bits_u64(raw, 0, 9) * 2048) as u32,
            width: (bits_u64(raw, 9, 15) * 64) as u16,
            pixel_storage_format: PixelStorageFormat::spec_from_code(
                bits_u64(raw, 15, 20),
            ).unwrap(),
            offset_x: bits_u64(raw, 32, 43) as u16,
            offset_y: bits_u64(raw, 43, 54) as u16,
        }
    }

    pub fn from_raw(raw: u64) -> (r: DisplayFrameBuffer)
        requires
            DisplayFrameBuffer::valid_raw(raw),
        ensures
            r == DisplayFrameBuffer::spec_from_raw(raw),
    {
        proof {
            lemma_privileged_fields(raw, 0);
        }
        DisplayFrameBuffer {
            base_pointer: raw.bits(0, 9) as u32 * 2048,
            width: raw.bits(9, 15) as u16 * 64,
            pixel_storage_format: PixelStorageFormat::from_code(raw.bits(15, 20)).unwrap(),
            offset_x: raw.bits(32, 43) as u16,
            offset_y: raw.bits(43, 54) as u16,
        }
    }
}

/// Where the alpha value that blends the two circuits comes from.
#[derive(Debug, PartialEq, Eq, Structural, Clone, Copy)]
pub enum AlphaValueSelection {
    Circuit1,
    Fixed(u8),
}

/// Which circuit's alpha value is written back.
#[derive(Debug, PartialEq, Eq, Structural, Clone, Copy)]
pub enum AlphaOutputSelection {
    Circuit1,
    Circuit2,
}

/// What the first circuit is blended with.
#[derive(Debug, PartialEq, Eq, Structural, Clone, Copy)]
pub enum AlphaBlendingMethod {
    Circuit2,
    BackgroundColor,
}

/// The mode of the two read circuits (PMODE).
#[derive(Debug, PartialEq, Eq, Structural, Clone, Copy)]
pub struct PcrtcMode {
    pub enable_circuit1: bool,
    pub enable_circuit2: bool,
    pub alpha_value_selection: AlphaValueSelection,
    pub alpha_output_selection: AlphaOutputSelection,
    pub alpha_blending_method: AlphaBlendingMethod,
}

impl PcrtcMode {
    /// EN1 (bit 0), EN2 (bit 1); the blending alpha is ALP (bits 8..16) when bit 1 is set,
    /// else that of the first circuit; AMOD (bit 6), SLBG (bit 7).
    pub open spec fn spec_from_raw(raw: u64) -> PcrtcMode {
        PcrtcMode {
            enable_circuit1: bit_u64(raw, 0),
            enable_circuit2: bit_u64(raw, 1),
            alpha_value_selection: if bit_u64(raw, 1) {
                AlphaValueSelection::Fixed(bits_u64(raw, 8, 16) as u8)
            } else {
                AlphaValueSelection::Circuit1
            },
            alpha_output_selection: if bits_u64(raw, 6, 7) == 0 {
                AlphaOutputSelection::Circuit1
            } else {
                AlphaOutputSelection::Circuit2
            },
            alpha_blending_method: if bits_u64(raw, 7, 8) == 0 {
                AlphaBlendingMethod::Circuit2
            } else {
                AlphaBlendingMethod::BackgroundColor
            },
        }
    }

    pub fn from_raw(raw: u64) -> (r: PcrtcMode)
        ensures
            r == PcrtcMode::spec_from_raw(raw),
    {
        proof {
            lemma_privileged_fields(raw, 0);
        }
        PcrtcMode {
            enable_circuit1: raw.bit(0),
            enable_circuit2: raw.bit(1),
            alpha_value_selection: if raw.bit(1) {
                AlphaValueSelection::Fixed(raw.bits(8, 16) as u8)
            } else {
                AlphaValueSelection::Circuit1
            },
            alpha_output_selection: if raw.bits(6, 7) == 0 {
                AlphaOutputSelection::Circuit1
            } else {
                AlphaOutputSelection::Circuit2
            },
            alpha_blending_method: if raw.bits(7, 8) == 0 {
                AlphaBlendingMethod::Circuit2
            } else {
                AlphaBlendingMethod::BackgroundColor
            },
        }
    }

    pub open spec fn zero() -> PcrtcMode {
        PcrtcMode {
            enable_circuit1: false,
            enable_circuit2: false,
            alpha_value_selection: AlphaValueSelection::Circuit1,
            alpha_output_selection: AlphaOutputSelection::Circuit1,
            alpha_blending_method: AlphaBlendingMethod::Circuit2,
        }
    }
}

/// The area of the screen that a read circuit shows (DISPLAY1, DISPLAY2), in frame buffer
/// pixels.
#[derive(Debug, PartialEq, Eq, Structural, Clone, Copy)]
pub struct Display {
    pub x_position: u16,
    pub y_position: u16,
    pub horizontal_magnification: u8,
    pub vertical_magnification: u8,
    pub width: u16,
    pub height: u16,
}

impl Display {
    /// The rectangle the display shows.
    pub fn rect(&self) -> (r: Rect<u16>)
        requires
            self.x_position + self.width <= u16::MAX,
            self.y_position + self.height <= u16::MAX,
        ensures
            r == (Rect {
                x_start: self.x_position,
                y_start: self.y_position,
                x_end: (self.x_position + self.width) as u16,
                y_end: (self.y_position + self.height) as u16,
            }),
    {
        Rect {
            x_start: self.x_position,
            y_start: self.y_position,
            x_end: self.x_position + self.width,
            y_end: self.y_position + self.height,
        }
    }

    /// MAGH (bits 23..27) and MAGV (bits 27..29) are the magnifications less one; DX (bits
    /// 0..12), DY (bits 12..23), DW (bits 32..44) and DH (bits 44..55, the last two less one)
    /// are in screen pixels and divided by the magnification.
    pub open spec fn spec_from_raw(raw: u64) -> Display {
        let horizontal = (bits_u64(raw, 23, 27) + 1) as u8;
        let vertical = (bits_u64(raw, 27, 29) + 1) as u8;
        Display {
            x_position: (bits_u64(raw, 0, 12) as int / horizontal as int) as u16,
            y_position: (bits_u64(raw, 12, 23) as int / vertical as int) as u16,
            horizontal_magnification: horizontal,
            vertical_magnification: vertical,
            width: ((bits_u64(raw, 32, 44) + 1) / horizontal as int) as u16,
            height: ((bits_u64(raw, 44, 55) + 1) / vertical as int) as u16,
        }
    }

    pub fn from_raw(raw: u64) -> (r: Display)
        ensures
            r == Display::spec_from_raw(raw),
    {
        proof {
            lemma_privileged_fields(raw, 0);
        }
        let horizontal_magnification = raw.bits(23, 27) as u8 + 1;
        let vertical_magnification = raw.bits(27, 29) as u8 + 1;
        Display {
            x_position: raw.bits(0, 12) as u16 / horizontal_magnification as u16,
            y_position: raw.bits(12, 23) as u16 / vertical_magnification as u16,
            horizontal_magnification,
            vertical_magnification,
            width: (raw.bits(32, 44) as u16 + 1) / horizontal_magnification as u16,
            height: (raw.bits(44, 55) as u16 + 1) / vertical_magnification as u16,
        }
    }

    pub open spec fn zero() -> Display {
        Display {
            x_position: 0,
            y_position: 0,
            horizontal_magnification: 0,
            vertical_magnification: 0,
            width: 0,
            height: 0,
        }
    }
}

/// A colour without alpha.
#[derive(Debug, PartialEq, Eq, Structural, Clone, Copy)]
pub struct Rgb {
    pub r: u8,
    pub g: u8,
    pub b: u8,
}

impl Rgb {
    /// R (bits 0..8), G (bits 8..16), B (bits 16..24).
    pub open spec fn spec_from_raw(raw: u32) -> Rgb {
        Rgb {
            r: bits_u32(raw, 0, 8) as u8,
            g: bits_u32(raw, 8, 16) as u8,
            b: bits_u32(raw, 16, 24) as u8,
        }
    }

    pub fn from_raw(raw: u32) -> (r: Rgb)
        ensures
            r == Rgb::spec_from_raw(raw),
    {
        proof {
            lemma_privileged_fields(0, raw);
        }
        Rgb { r: raw.bits(0, 8) as u8, g: raw.bits(8, 16) as u8, b: raw.bits(16, 24) as u8 }
    }
}

impl From<u32> for Rgb {
    fn from(raw: u32) -> (r: Rgb) {
        Rgb::from_raw(raw)
    }
}

impl vstd::std_specs::convert::FromSpecImpl<u32> for Rgb {
    open spec fn obeys_from_spec() -> bool {
        true
    }

    open spec fn from_spec(raw: u32) -> Rgb {
        Rgb::spec_from_raw(raw)
    }
}

/// The privileged registers of the graphics synthesizer, which the CPU reads and writes
/// directly.
#[derive(Debug, PartialEq, Eq, Structural, Clone, Copy)]
pub struct PrivilegedRegisters {
    pub pcrtc_mode: PcrtcMode,
    pub sync_mode1: u64,
    pub sync_mode2: u64,
    pub dram_refresh: u64,
    pub synch1: u64,
    pub synch2: u64,
    pub syncv: u64,
    pub display_frame_buffer1: DisplayFrameBuffer,
    pub display1: Display,
    pub display_frame_buffer2: DisplayFrameBuffer,
    pub display2: Display,
    pub write_buffer: u64,
    pub write_data: u64,
    pub write_start: u64,
    pub background_color: Rgb,
    pub status: u64,
    pub interrupt_mask: u64,
    pub bus_direction: u64,
    pub signal_label_id: u64,
}

/// Whether `address` is a privileged register that a doubleword write may name, with a value
/// that its fields accept.
pub open spec fn is_writable_privileged(address: u32, value: u64) -> bool {
    ||| address == 0x1200_0000 || address == 0x1200_0010 || address == 0x1200_0020
    ||| address == 0x1200_0030 || address == 0x1200_0040 || address == 0x1200_0050
    ||| address == 0x1200_0060 || address == 0x1200_0080 || address == 0x1200_00A0
    ||| address == 0x1200_00B0 || address == 0x1200_00C0 || address == 0x1200_00D0
    ||| address == 0x1200_00E0 || address == 0x1200_1000 || address == 0x1200_1010
    ||| address == 0x1200_1040 || address == 0x1200_1080
    ||| (address == 0x1200_0070 || address == 0x1200_0090) && DisplayFrameBuffer::valid_raw(
        value,
    )
}

/// Whether `address` is a privileged register that a doubleword read may name: CSR or
/// SIGLBLID.
pub open spec fn is_readable_privileged(address: u32) -> bool {
    address == 0x1200_1000 || address == 0x1200_1080
}

/// The status register (CSR) as written: a write of 1 to VSINT (bit 3) clears it.
pub open spec fn written_status(value: u64) -> u64 {
    if bit_u64(value, 3) {
        value & !8u64
    } else {
        value
    }
}

impl PrivilegedRegisters {
    /// The registers after a doubleword write of `value` at `address`.
    pub open spec fn written(self, address: u32, value: u64) -> PrivilegedRegisters {
        if address == 0x1200_0000 {
            PrivilegedRegisters { pcrtc_mode: PcrtcMode::spec_from_raw(value), ..self }
        } else if address == 0x1200_0010 {
            PrivilegedRegisters { sync_mode1: value, ..self }
        } else if address == 0x1200_0020 {
            PrivilegedRegisters { sync_mode2: value, ..self }
        } else if address == 0x1200_0030 {
            PrivilegedRegisters { dram_refresh: value, ..self }
        } else if address == 0x1200_0040 {
            PrivilegedRegisters { synch1: value, ..self }
        } else if address == 0x1200_0050 {
            PrivilegedRegisters { synch2: value, ..self }
        } else if address == 0x1200_0060 {
            PrivilegedRegisters { syncv: value, ..self }
        } else if address == 0x1200_0070 {
            PrivilegedRegisters {
                display_frame_buffer1: DisplayFrameBuffer::spec_from_raw(value),
                ..self
            }
        } else if address == 0x1200_0080 {
            PrivilegedRegisters { display1: Display::spec_from_raw(value), ..self }
        } else if address == 0x1200_0090 {
            PrivilegedRegisters {
                display_frame_buffer2: DisplayFrameBuffer::spec_from_raw(value),
                ..self
            }
        } else if address == 0x1200_00A0 {
            PrivilegedRegisters { display2: Display::spec_from_raw(value), ..self }
        } else if address == 0x1200_00B0 {
            PrivilegedRegisters { write_buffer: value, ..self }
        } else if address == 0x1200_00C0 {
            PrivilegedRegisters { write_data: value, ..self }
        } else if address == 0x1200_00D0 {
            PrivilegedRegisters { write_start: value, ..self }
        } else if address == 0x1200_00E0 {
            PrivilegedRegisters { background_color: Rgb::spec_from_raw(value as u32), ..self }
        } else if address == 0x1200_1000 {
            PrivilegedRegisters { status: written_status(value), ..self }
        } else if address == 0x1200_1010 {
            PrivilegedRegisters { interrupt_mask: value, ..self }
        } else if address == 0x1200_1040 {
            PrivilegedRegisters { bus_direction: value, ..self }
        } else {
            PrivilegedRegisters { signal_label_id: value, ..self }
        }
    }

    /// The value that a doubleword read of `address` gives.
    pub open spec fn read(self, address: u32) -> u64 {
        if address == 0x1200_1000 {
            self.status
        } else {
            self.signal_label_id
        }
    }

    /// Every register zero, with the first value of each field.
    pub open spec fn new_spec() -> PrivilegedRegisters {
        let frame_buffer = DisplayFrameBuffer {
            base_pointer: 0,
            width: 0,
            pixel_storage_format: PixelStorageFormat::Ct32,
            offset_x: 0,
            offset_y: 0,
        };
        PrivilegedRegisters {
            pcrtc_mode: PcrtcMode::zero(),
            sync_mode1: 0,
            sync_mode2: 0,
            dram_refresh: 0,
            synch1: 0,
            synch2: 0,
            syncv: 0,
            display_frame_buffer1: frame_buffer,
            display1: Display::zero(),
            display_frame_buffer2: frame_buffer,
            display2: Display::zero(),
            write_buffer: 0,
            write_data: 0,
            write_start: 0,
            background_color: Rgb { r: 0, g: 0, b: 0 },
            status: 0,
            interrupt_mask: 0,
            bus_direction: 0,
            signal_label_id: 0,
        }
    }

    pub fn new() -> (r: PrivilegedRegisters)
        ensures
            r == PrivilegedRegisters::new_spec(),
    {
        let frame_buffer = DisplayFrameBuffer {
            base_pointer: 0,
            width: 0,
            pixel_storage_format: PixelStorageFormat::Ct32,
            offset_x: 0,
            offset_y: 0,
        };
        let display = Display {
            x_position: 0,
            y_position: 0,
            horizontal_magnification: 0,
            vertical_magnification: 0,
            width: 0,
            height: 0,
        };
        PrivilegedRegisters {
            pcrtc_mode: PcrtcMode {
                enable_circuit1: false,
                enable_circuit2: false,
                alpha_value_selection: AlphaValueSelection::Circuit1,
                alpha_output_selection: AlphaOutputSelection::Circuit1,
                alpha_blending_method: AlphaBlendingMethod::Circuit2,
            },
            sync_mode1: 0,
            sync_mode2: 0,
            dram_refresh: 0,
            synch1: 0,
            synch2: 0,
            syncv: 0,
            display_frame_buffer1: frame_buffer,
            display1: display,
            display_frame_buffer2: frame_buffer,
            display2: display,
            write_buffer: 0,
            write_data: 0,
            write_start: 0,
            background_color: Rgb { r: 0, g: 0, b: 0 },
            status: 0,
            interrupt_mask: 0,
            bus_direction: 0,
            signal_label_id: 0,
        }
    }

    /// Writes the register at `address`.
    pub fn write64(&mut self, address: u32, value: u64)
        requires
            is_writable_privileged(address, value),
        ensures
            *final(self) == old(self).written(address, value),
    {
        match address {
            0x1200_0000 => self.pcrtc_mode = PcrtcMode::from_raw(value),
            0x1200_0010 => self.sync_mode1 = value,
            0x1200_0020 => self.sync_mode2 = value,
            0x1200_0030 => self.dram_refresh = value,
            0x1200_0040 => self.synch1 = value,
            0x1200_0050 => self.synch2 = value,
            0x1200_0060 => self.syncv = value,
            0x1200_0070 => self.display_frame_buffer1 = DisplayFrameBuffer::from_raw(value),
            0x1200_0080 => self.display1 = Display::from_raw(value),
            0x1200_0090 => self.display_frame_buffer2 = DisplayFrameBuffer::from_raw(value),
            0x1200_00A0 => self.display2 = Display::from_raw(value),
            0x1200_00B0 => self.write_buffer = value,
            0x1200_00C0 => self.write_data = value,
            0x1200_00D0 => self.write_start = value,
            0x1200_00E0 => self.background_color = Rgb::from_raw(value as u32),
            0x1200_1000 => {
                let value = if value.bit(3) {
                    value & !u64::mask(3, 4)
                } else {
                    value
                };
                assert(crate::bits::mask_u64(3, 4) == 8) by (bit_vector);
                self.status = value;
            },
            0x1200_1010 => self.interrupt_mask = value,
            0x1200_1040 => self.bus_direction = value,
            _ => self.signal_label_id = value,
        }
    }

    /// Reads the register at `address`.
    pub fn read64(&self, address: u32) -> (r: u64)
        requires
            is_readable_privileged(address),
        ensures
            r == self.read(address),
    {
        if address == 0x1200_1000 {
            self.status
        } else {
            self.signal_label_id
        }
    }
}

/// Whether a doubleword write of `value` at `address` names a privileged register whose
/// fields accept it.
pub fn writable_privileged(address: u32, value: u64) -> (r: bool)
    ensures
        r == is_writable_privileged(address, value),
{
    if address == 0x1200_0070 || address == 0x1200_0090 {
        PixelStorageFormat::from_code(value.bits(15, 20)).is_some()
    } else {
        address == 0x1200_0000 || address == 0x1200_0010 || address == 0x1200_0020 || address
            == 0x1200_0030 || address == 0x1200_0040 || address == 0x1200_0050 || address
            == 0x1200_0060 || address == 0x1200_0080 || address == 0x1200_00A0 || address
            == 0x1200_00B0 || address == 0x1200_00C0 || address == 0x1200_00D0 || address
            == 0x1200_00E0 || address == 0x1200_1000 || address == 0x1200_1010 || address
            == 0x1200_1040 || address == 0x1200_1080
    }
}

/// Whether a doubleword read of `address` names a privileged register.
pub fn readable_privileged(address: u32) -> (r: bool)
    ensures
        r == is_readable_privileged(address),
{
    address == 0x1200_1000 || address == 0x1200_1080
}

} // verus!
