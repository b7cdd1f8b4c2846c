use vstd::prelude::*;

use crate::bits::{bit_u64, bits_u64, Bits};
use crate::bytes::Bytes;
use crate::emotion_engine::gs::pixel_storage::{load_u32, psmct32_address, stored};
use crate::emotion_engine::gs::registers::{
    Alpha, BitBlitBuffer, ColorClamp, ContextualRegisters, DitherControl, Fix124, FrameBufferSettings,
    PixelStorageFormat, PixelTest, PixelTransmissionOrder, Primitive, PrimitiveModeControl, Register,
    Registers, Rgbaq, Scissor, Texture, TransmissionDirection, TransmissionPosition, TransmissionSize,
    Uv, XyOffset, Xyz, ZBufferSettings,
};
use crate::emotion_engine::gs::{Gs, LOCAL_MEMORY_SIZE};

verus! {

/// The column of pixel number `pixel` of a transmission `width` pixels wide that starts at
/// column `start`, wrapping at 2048.
pub open spec fn transfer_x(start: u16, pixel: u32, width: u16) -> u16 {
    ((start + pixel % (width as u32)) % 2048) as u16
}

/// The row of pixel number `pixel` of a transmission `width` pixels wide that starts at row
/// `start`, wrapping at 2048.
pub open spec fn transfer_y(start: u16, pixel: u32, width: u16) -> u16 {
    ((start + pixel / (width as u32)) % 2048) as u16
}

/// The address in local memory of pixel number `pixel` of the transmission's destination.
pub open spec fn destination_address(registers: Registers, pixel: u32) -> int {
    let position = registers.transmission_position;
    let width = registers.transmission_size.width;
    psmct32_address(
        registers.bit_blit_buffer.destination_base_pointer,
        transfer_x(position.destination_x, pixel, width),
        transfer_y(position.destination_y, pixel, width),
        registers.bit_blit_buffer.destination_width,
    )
}

/// The address in local memory of pixel number `pixel` of the transmission's source.
pub open spec fn source_address(registers: Registers, pixel: u32) -> int {
    let position = registers.transmission_position;
    let width = registers.transmission_size.width;
    psmct32_address(
        registers.bit_blit_buffer.source_base_pointer,
        transfer_x(position.source_x, pixel, width),
        transfer_y(position.source_y, pixel, width),
        registers.bit_blit_buffer.source_width,
    )
}

/// The number of pixels of the transmission.
pub open spec fn transmission_pixels(registers: Registers) -> int {
    registers.transmission_size.width * registers.transmission_size.height
}

/// Local memory after the first `n` pixels of a transmission within local memory: each
/// destination pixel receives its source pixel as it was in `memory` before the transmission.
pub open spec fn local_copy(memory: Seq<u8>, registers: Registers, n: nat) -> Seq<u8>
    decreases n,
{
    if n == 0 {
        memory
    } else {
        let p = (n - 1) as u32;
        stored(
            local_copy(memory, registers, (n - 1) as nat),
            destination_address(registers, p),
            load_u32(memory, source_address(registers, p)).encode_bytes(),
        )
    }
}

/// Whether a transmission within local memory can be carried out: pixels go from the upper
/// left to the lower right, both buffers hold PSMCT32 pixels, and every pixel lies in local
/// memory.
pub open spec fn local_copy_supported(registers: Registers) -> bool {
    &&& registers.transmission_position.order == PixelTransmissionOrder::UpperLeftToLowerRight
    &&& registers.bit_blit_buffer.source_pixel_storage_format == PixelStorageFormat::Ct32
    &&& registers.bit_blit_buffer.destination_pixel_storage_format == PixelStorageFormat::Ct32
    &&& forall|p: u32|
        p < transmission_pixels(registers) ==> #[trigger] source_address(registers, p) + 4
            <= LOCAL_MEMORY_SIZE && destination_address(registers, p) + 4 <= LOCAL_MEMORY_SIZE
}

/// Whether a doubleword of host data can be stored: the transmission goes from the host, its
/// destination holds PSMCT32 pixels, it is at least one pixel wide, and the one or two pixels
/// that the doubleword fills lie in local memory.
pub open spec fn host_data_supported(registers: Registers) -> bool {
    let pixel = registers.transmission_pixel;
    &&& registers.transmission_direction == TransmissionDirection::HostToLocal
    &&& registers.bit_blit_buffer.destination_pixel_storage_format == PixelStorageFormat::Ct32
    &&& registers.transmission_size.width > 0
    &&& pixel + 2 <= u32::MAX
    &&& registers.transmission_position.destination_y + (pixel + 1) / (
    registers.transmission_size.width as int) <= u32::MAX
    &&& destination_address(registers, pixel) + 4 <= LOCAL_MEMORY_SIZE
    &&& pixel + 1 != transmission_pixels(registers) ==> destination_address(
        registers,
        (pixel + 1) as u32,
    ) + 4 <= LOCAL_MEMORY_SIZE
}

/// Whether the GS can carry out a write of `data` to `register` in its present state.
pub open spec fn register_write_supported(gs: Gs, register: Register, data: u64) -> bool {
    match register {
        Register::Primitive | Register::Rgbaq | Register::Uv | Register::Xyzf2 | Register::Xyz2
        | Register::XyOffset1 | Register::XyOffset2 | Register::PrimitiveModeControl
        | Register::TextureFlush | Register::Scissor1 | Register::Scissor2 | Register::Alpha1
        | Register::Alpha2 | Register::DitherControl | Register::ColorClamp
        | Register::PixelTest1 | Register::PixelTest2 | Register::TransmissionPosition
        | Register::TransmissionSize => true,
        Register::Texture1 | Register::Texture2 | Register::TextureClut1
        | Register::TextureClut2 => Texture::valid_raw(data),
        Register::FrameBuffer1 | Register::FrameBuffer2 => FrameBufferSettings::valid_raw(data),
        Register::ZBuffer1 | Register::ZBuffer2 => ZBufferSettings::valid_raw(data),
        Register::BitBlitBuffer => BitBlitBuffer::valid_raw(data),
        Register::TransmissionActivation => {
            let code = bits_u64(data, 0, 2);
            code == 0 || code == 3 || (code == 2 && local_copy_supported(gs.registers))
        },
        Register::TransmissionData => host_data_supported(gs.registers),
        _ => false,
    }
}

/// `new` differs from `old` at most in the registers of context `i`, which are `context`.
pub open spec fn context_written(
    old: Registers,
    new: Registers,
    i: int,
    context: ContextualRegisters,
) -> bool {
    &&& new == Registers { contextual: new.contextual, ..old }
    &&& new.contextual[i] == context
    &&& new.contextual[1 - i] == old.contextual[1 - i]
}

/// The effect of a register write on the registers, local memory and vertex queue, and
/// whether it kicks a vertex for drawing.
pub open spec fn register_written(old: Gs, new: Gs, register: Register, data: u64, kick: bool) -> bool {
    let r = old.registers;
    let c0 = r.contextual[0];
    let c1 = r.contextual[1];
    &&& kick == (register == Register::Xyzf2 || register == Register::Xyz2)
    &&& register != Register::Primitive ==> new.vertex_queue == old.vertex_queue
    &&& register != Register::TransmissionActivation && register != Register::TransmissionData
        ==> new.local_memory@ == old.local_memory@
    &&& match register {
        Register::Primitive => new.registers == Registers {
            primitive: Primitive::spec_from_raw(data),
            ..r
        } && new.vertex_queue.view().len() == 0,
        Register::Rgbaq => new.registers == Registers { rgbaq: Rgbaq::spec_from_raw(data), ..r },
        Register::Uv => new.registers == Registers {
            uv: Uv {
                u: Fix124 { 0: bits_u64(data, 0, 14) as u16 },
                v: Fix124 { 0: bits_u64(data, 16, 30) as u16 },
            },
            ..r
        },
        Register::Xyzf2 => new.registers == Registers {
            xyz: Xyz {
                x: Fix124 { 0: bits_u64(data, 0, 16) as u16 },
                y: Fix124 { 0: bits_u64(data, 16, 32) as u16 },
                z: bits_u64(data, 32, 56) as u32,
            },
            fog: bits_u64(data, 56, 64) as u8,
            ..r
        },
        Register::Xyz2 => new.registers == Registers {
            xyz: Xyz {
                x: Fix124 { 0: bits_u64(data, 0, 16) as u16 },
                y: Fix124 { 0: bits_u64(data, 16, 32) as u16 },
                z: bits_u64(data, 32, 64) as u32,
            },
            ..r
        },
        Register::Texture1 => context_written(
            r,
            new.registers,
            0,
            ContextualRegisters { texture: Texture::spec_from_raw(data), ..c0 },
        ),
        Register::Texture2 => context_written(
            r,
            new.registers,
            1,
            ContextualRegisters { texture: Texture::spec_from_raw(data), ..c1 },
        ),
        Register::TextureClut1 => {
            let t = Texture::spec_from_raw(data);
            context_written(
                r,
                new.registers,
                0,
                ContextualRegisters {
                    texture: Texture {
                        pixel_storage_format: t.pixel_storage_format,
                        clut_buffer_base_pointer: t.clut_buffer_base_pointer,
                        clut_pixel_storage_format: t.clut_pixel_storage_format,
                        clut_storage_mode: t.clut_storage_mode,
                        clut_entry_offset: t.clut_entry_offset,
                        clut_buffer_load_control: t.clut_buffer_load_control,
                        ..c0.texture
                    },
                    ..c0
                },
            )
        },
        Register::TextureClut2 => {
            let t = Texture::spec_from_raw(data);
            context_written(
                r,
                new.registers,
                1,
                ContextualRegisters {
                    texture: Texture {
                        pixel_storage_format: t.pixel_storage_format,
                        clut_buffer_base_pointer: t.clut_buffer_base_pointer,
                        clut_pixel_storage_format: t.clut_pixel_storage_format,
                        clut_storage_mode: t.clut_storage_mode,
                        clut_entry_offset: t.clut_entry_offset,
                        clut_buffer_load_control: t.clut_buffer_load_control,
                        ..c1.texture
                    },
                    ..c1
                },
            )
        },
        Register::XyOffset1 => context_written(
            r,
            new.registers,
            0,
            ContextualRegisters {
                xy_offset: XyOffset {
                    x: Fix124 { 0: bits_u64(data, 0, 16) as u16 },
                    y: Fix124 { 0: bits_u64(data, 32, 48) as u16 },
                },
                ..c0
            },
        ),
        Register::XyOffset2 => context_written(
            r,
            new.registers,
            1,
            ContextualRegisters {
                xy_offset: XyOffset {
                    x: Fix124 { 0: bits_u64(data, 0, 16) as u16 },
                    y: Fix124 { 0: bits_u64(data, 32, 48) as u16 },
                },
                ..c1
            },
        ),
        Register::PrimitiveModeControl => new.registers == Registers {
            primitive_mode_control: if bit_u64(data, 0) {
                PrimitiveModeControl::Primitive
            } else {
                PrimitiveModeControl::PrimitiveMode
            },
            ..r
        },
        Register::Scissor1 => context_written(
            r,
            new.registers,
            0,
            ContextualRegisters { scissor: Scissor::spec_from_raw(data), ..c0 },
        ),
        Register::Scissor2 => context_written(
            r,
            new.registers,
            1,
            ContextualRegisters { scissor: Scissor::spec_from_raw(data), ..c1 },
        ),
        Register::Alpha1 => context_written(
            r,
            new.registers,
            0,
            ContextualRegisters { alpha: Alpha::spec_from_raw(data), ..c0 },
        ),
        Register::Alpha2 => context_written(
            r,
            new.registers,
            1,
            ContextualRegisters { alpha: Alpha::spec_from_raw(data), ..c1 },
        ),
        Register::DitherControl => new.registers == Registers {
            dither_control: DitherControl { enabled: bit_u64(data, 0) },
            ..r
        },
        Register::ColorClamp => new.registers == Registers {
            color_clamp: ColorClamp::spec_from_code(bits_u64(data, 0, 1)).unwrap(),
            ..r
        },
        Register::PixelTest1 => context_written(
            r,
            new.registers,
            0,
            ContextualRegisters { pixel_test: PixelTest::spec_from_raw(data), ..c0 },
        ),
        Register::PixelTest2 => context_written(
            r,
            new.registers,
            1,
            ContextualRegisters { pixel_test: PixelTest::spec_from_raw(data), ..c1 },
        ),
        Register::FrameBuffer1 => context_written(
            r,
            new.registers,
            0,
            ContextualRegisters {
                frame_buffer_settings: FrameBufferSettings::spec_from_raw(data),
                ..c0
            },
        ),
        Register::FrameBuffer2 => context_written(
            r,
            new.registers,
            1,
            ContextualRegisters {
                frame_buffer_settings: FrameBufferSettings::spec_from_raw(data),
                ..c1
            },
        ),
        Register::ZBuffer1 => context_written(
            r,
            new.registers,
            0,
            ContextualRegisters { z_buffer_settings: ZBufferSettings::spec_from_raw(data), ..c0 },
        ),
        Register::ZBuffer2 => context_written(
            r,
            new.registers,
            1,
            ContextualRegisters { z_buffer_settings: ZBufferSettings::spec_from_raw(data), ..c1 },
        ),
        Register::BitBlitBuffer => new.registers == Registers {
            bit_blit_buffer: BitBlitBuffer::spec_from_raw(data),
            ..r
        },
        Register::TransmissionPosition => new.registers == Registers {
            transmission_position: TransmissionPosition::spec_from_raw(data),
            ..r
        },
        Register::TransmissionSize => new.registers == Registers {
            transmission_size: TransmissionSize::spec_from_raw(data),
            ..r
        },
        Register::TransmissionActivation => {
            let code = bits_u64(data, 0, 2);
            if code == 2 {
                &&& new.registers == Registers {
                    transmission_direction: TransmissionDirection::Deactivated,
                    transmission_pixel: 0,
                    ..r
                }
                &&& new.local_memory@ == local_copy(
                    old.local_memory@,
                    r,
                    transmission_pixels(r) as nat,
                )
            } else {
                &&& new.registers == Registers {
                    transmission_direction: TransmissionDirection::spec_from_code(code).unwrap(),
                    transmission_pixel: 0,
                    ..r
                }
                &&& new.local_memory@ == old.local_memory@
            }
        },
        Register::TransmissionData => {
            let pixel = r.transmission_pixel;
            let first = stored(
                old.local_memory@,
                destination_address(r, pixel),
                (bits_u64(data, 0, 32) as u32).encode_bytes(),
            );
            if pixel + 1 == transmission_pixels(r) {
                &&& new.local_memory@ == first
                &&& new.registers == Registers {
                    transmission_pixel: (pixel + 1) as u32,
                    transmission_direction: TransmissionDirection::Deactivated,
                    ..r
                }
            } else {
                &&& new.local_memory@ == stored(
                    first,
                    destination_address(r, (pixel + 1) as u32),
                    (bits_u64(data, 32, 64) as u32).encode_bytes(),
                )
                &&& new.registers == Registers {
                    transmission_pixel: (pixel + 2) as u32,
                    transmission_direction: if pixel + 2 == transmission_pixels(r) {
                        TransmissionDirection::Deactivated
                    } else {
                        r.transmission_direction
                    },
                    ..r
                }
            }
        },
        _ => new.registers == r,
    }
}

proof fn lemma_data_fields(x: u64)
    by (bit_vector)
    ensures
        bits_u64(x, 0, 2) < 4,
        bits_u64(x, 32, 56) < 0x100_0000,
        bits_u64(x, 56, 64) < 0x100,
        bits_u64(x, 0, 32) < 0x1_0000_0000,
{
}

impl Gs {
    /// Carries out a write of `data` to the drawing register `register`; the result tells
    /// whether the write kicks a vertex for drawing.
    pub fn write_register(&mut self, register: Register, data: u64) -> (drawing_kick: bool)
        requires
            old(self).wf(),
            register_write_supported(*old(self), register, data),
        ensures
            final(self).wf(),
            final(self).command_queue == old(self).command_queue,
            final(self).privileged_registers == old(self).privileged_registers,
            register_written(*old(self), *final(self), register, data, drawing_kick),
    {
        match register {
            Register::Primitive | Register::Rgbaq | Register::Uv | Register::Xyzf2
            | Register::Xyz2 => self.write_vertex_register(register, data),
            Register::Texture1 | Register::TextureClut1 | Register::XyOffset1 | Register::Scissor1
            | Register::Alpha1 | Register::PixelTest1 | Register::FrameBuffer1
            | Register::ZBuffer1 => self.write_first_context_register(register, data),
            Register::Texture2 | Register::TextureClut2 | Register::XyOffset2 | Register::Scissor2
            | Register::Alpha2 | Register::PixelTest2 | Register::FrameBuffer2
            | Register::ZBuffer2 => self.write_second_context_register(register, data),
            Register::TransmissionActivation => {
                self.activate_transmission(data);
                false
            },
            Register::TransmissionData => {
                self.transmit_host_data(data);
                false
            },
            _ => self.write_global_register(register, data),
        }
    }

    /// Writes PRIM, RGBAQ, UV, XYZF2 or XYZ2.
    #[verifier::rlimit(100)]
    fn write_vertex_register(&mut self, register: Register, data: u64) -> (drawing_kick: bool)
        requires
            old(self).wf(),
            register_write_supported(*old(self), register, data),
            register == Register::Primitive || register == Register::Rgbaq || register == Register::Uv || register == Register::Xyzf2 || register == Register::Xyz2,
        ensures
            final(self).wf(),
            final(self).command_queue == old(self).command_queue,
            final(self).privileged_registers == old(self).privileged_registers,
            register_written(*old(self), *final(self), register, data, drawing_kick),
    {
        proof {
            lemma_data_fields(data);
        }
        match register {
            Register::Primitive => {
                self.registers.primitive = Primitive::from_raw(data);
                self.vertex_queue.clear();
                false
            },
            Register::Rgbaq => {
                self.registers.rgbaq = Rgbaq::from_raw(data);
                false
            },
            Register::Uv => {
                self.registers.uv = Uv::from_raw(data);
                false
            },
            Register::Xyzf2 => {
                self.registers.xyz = Xyz {
                    x: Fix124::from_raw(data.bits(0, 16) as u16),
                    y: Fix124::from_raw(data.bits(16, 32) as u16),
                    z: data.bits(32, 56) as u32,
                };
                self.registers.fog = data.bits(56, 64) as u8;
                true
            },
            Register::Xyz2 => {
                self.registers.xyz = Xyz::from_raw(data);
                true
            },
            _ => false,
        }
    }

    /// Writes a register of the first context.
    #[verifier::rlimit(100)]
    fn write_first_context_register(&mut self, register: Register, data: u64) -> (drawing_kick: bool)
        requires
            old(self).wf(),
            register_write_supported(*old(self), register, data),
            register == Register::Texture1 || register == Register::TextureClut1 || register == Register::XyOffset1 || register == Register::Scissor1 || register == Register::Alpha1 || register == Register::PixelTest1 || register == Register::FrameBuffer1 || register == Register::ZBuffer1,
        ensures
            final(self).wf(),
            final(self).command_queue == old(self).command_queue,
            final(self).privileged_registers == old(self).privileged_registers,
            register_written(*old(self), *final(self), register, data, drawing_kick),
    {
        proof {
            lemma_data_fields(data);
        }
        match register {
            Register::Texture1 => {
                self.registers.contextual[0].texture = Texture::from_raw(data);
                false
            },
            Register::TextureClut1 => {
                let new = Texture::from_raw(data);
                self.registers.contextual[0].texture.update_clut_info(new);
                false
            },
            Register::XyOffset1 => {
                self.registers.contextual[0].xy_offset = XyOffset::from_raw(data);
                false
            },
            Register::Scissor1 => {
                self.registers.contextual[0].scissor = Scissor::from_raw(data);
                false
            },
            Register::Alpha1 => {
                self.registers.contextual[0].alpha = Alpha::from_raw(data);
                false
            },
            Register::PixelTest1 => {
                self.registers.contextual[0].pixel_test = PixelTest::from_raw(data);
                false
            },
            Register::FrameBuffer1 => {
                self.registers.contextual[0].frame_buffer_settings = FrameBufferSettings::from_raw(
                    data,
                );
                false
            },
            Register::ZBuffer1 => {
                self.registers.contextual[0].z_buffer_settings = ZBufferSettings::from_raw(data);
                false
            },
            _ => false,
        }
    }

    /// Writes a register of the second context.
    #[verifier::rlimit(100)]
    fn write_second_context_register(&mut self, register: Register, data: u64) -> (drawing_kick: bool)
        requires
            old(self).wf(),
            register_write_supported(*old(self), register, data),
            register == Register::Texture2 || register == Register::TextureClut2 || register == Register::XyOffset2 || register == Register::Scissor2 || register == Register::Alpha2 || register == Register::PixelTest2 || register == Register::FrameBuffer2 || register == Register::ZBuffer2,
        ensures
            final(self).wf(),
            final(self).command_queue == old(self).command_queue,
            final(self).privileged_registers == old(self).privileged_registers,
            register_written(*old(self), *final(self), register, data, drawing_kick),
    {
        proof {
            lemma_data_fields(data);
        }
        match register {
            Register::Texture2 => {
                self.registers.contextual[1].texture = Texture::from_raw(data);
                false
            },
            Register::TextureClut2 => {
                let new = Texture::from_raw(data);
                self.registers.contextual[1].texture.update_clut_info(new);
                false
            },
            Register::XyOffset2 => {
                self.registers.contextual[1].xy_offset = XyOffset::from_raw(data);
                false
            },
            Register::Scissor2 => {
                self.registers.contextual[1].scissor = Scissor::from_raw(data);
                false
            },
            Register::Alpha2 => {
                self.registers.contextual[1].alpha = Alpha::from_raw(data);
                false
            },
            Register::PixelTest2 => {
                self.registers.contextual[1].pixel_test = PixelTest::from_raw(data);
                false
            },
            Register::FrameBuffer2 => {
                self.registers.contextual[1].frame_buffer_settings = FrameBufferSettings::from_raw(
                    data,
                );
                false
            },
            Register::ZBuffer2 => {
                self.registers.contextual[1].z_buffer_settings = ZBufferSettings::from_raw(data);
                false
            },
            _ => false,
        }
    }

    /// Writes PRMODECONT, TEXFLUSH, DTHE, COLCLAMP, BITBLTBUF, TRXPOS or TRXREG.
    #[verifier::rlimit(100)]
    fn write_global_register(&mut self, register: Register, data: u64) -> (drawing_kick: bool)
        requires
            old(self).wf(),
            register_write_supported(*old(self), register, data),
            register == Register::PrimitiveModeControl || register == Register::TextureFlush || register == Register::DitherControl || register == Register::ColorClamp || register == Register::BitBlitBuffer || register == Register::TransmissionPosition || register == Register::TransmissionSize,
        ensures
            final(self).wf(),
            final(self).command_queue == old(self).command_queue,
            final(self).privileged_registers == old(self).privileged_registers,
            register_written(*old(self), *final(self), register, data, drawing_kick),
    {
        proof {
            lemma_data_fields(data);
        }
        match register {
            Register::PrimitiveModeControl => {
                self.registers.primitive_mode_control = if data.bit(0) {
                    PrimitiveModeControl::Primitive
                } else {
                    PrimitiveModeControl::PrimitiveMode
                };
                false
            },
            Register::TextureFlush => false,
            Register::DitherControl => {
                self.registers.dither_control = DitherControl::from_raw(data);
                false
            },
            Register::ColorClamp => {
                self.registers.color_clamp = ColorClamp::from_raw(data);
                false
            },
            Register::BitBlitBuffer => {
                self.registers.bit_blit_buffer = BitBlitBuffer::from_raw(data);
                false
            },
            Register::TransmissionPosition => {
                self.registers.transmission_position = TransmissionPosition::from_raw(data);
                false
            },
            Register::TransmissionSize => {
                self.registers.transmission_size = TransmissionSize::from_raw(data);
                false
            },
            _ => false,
        }
    }

    /// A write of TRXDIR: starts a transmission in the direction it gives; one within local
    /// memory is carried out at once.
    fn activate_transmission(&mut self, data: u64)
        requires
            old(self).wf(),
            register_write_supported(*old(self), Register::TransmissionActivation, data),
        ensures
            final(self).wf(),
            final(self).command_queue == old(self).command_queue,
            final(self).privileged_registers == old(self).privileged_registers,
            final(self).vertex_queue == old(self).vertex_queue,
            register_written(*old(self), *final(self), Register::TransmissionActivation, data, false),
    {
        proof {
            lemma_data_fields(data);
        }
        let direction = TransmissionDirection::from_code(data.bits(0, 2)).unwrap();
        match direction {
            TransmissionDirection::LocalToLocal => {
                self.copy_local();
                self.registers.transmission_pixel = 0;
                self.registers.transmission_direction = TransmissionDirection::Deactivated;
            },
            _ => {
                self.registers.transmission_direction = direction;
                self.registers.transmission_pixel = 0;
            },
        }
    }

    /// Copies the transmission's source pixels to its destination: all source pixels are read
    /// first, then written in order.
    fn copy_local(&mut self)
        requires
            old(self).wf(),
            local_copy_supported(old(self).registers),
        ensures
            final(self).wf(),
            final(self).command_queue == old(self).command_queue,
            final(self).privileged_registers == old(self).privileged_registers,
            final(self).vertex_queue == old(self).vertex_queue,
            final(self).registers == old(self).registers,
            final(self).local_memory@ == local_copy(
                old(self).local_memory@,
                old(self).registers,
                transmission_pixels(old(self).registers) as nat,
            ),
    {
        let source_x = self.registers.transmission_position.source_x as u32;
        let source_y = self.registers.transmission_position.source_y as u32;
        let destination_x = self.registers.transmission_position.destination_x as u32;
        let destination_y = self.registers.transmission_position.destination_y as u32;
        let width = self.registers.transmission_size.width as u32;
        let height = self.registers.transmission_size.height as u32;
        assert(width * height <= u16::MAX * u16::MAX) by (nonlinear_arith)
            requires
                width <= u16::MAX,
                height <= u16::MAX,
        ;
        let pixels = width * height;
        let ghost registers = self.registers;
        let ghost memory = self.local_memory@;
        self.tmp_data.clear();
        let mut pixel: u32 = 0;
        while pixel < pixels
            invariant
                self.wf(),
                self.registers == registers,
                self.local_memory@ == memory,
                self.command_queue == old(self).command_queue,
                self.privileged_registers == old(self).privileged_registers,
                self.vertex_queue == old(self).vertex_queue,
                local_copy_supported(registers),
                pixels == transmission_pixels(registers),
                width == registers.transmission_size.width,
                source_x == registers.transmission_position.source_x,
                source_y == registers.transmission_position.source_y,
                pixel <= pixels,
                self.tmp_data@.len() == pixel,
                forall|p: int|
                    0 <= p < pixel ==> #[trigger] self.tmp_data@[p] == load_u32(
                        memory,
                        source_address(registers, p as u32),
                    ),
            decreases pixels - pixel,
        {
            assert(width > 0 && pixel / width < registers.transmission_size.height)
                by (nonlinear_arith)
                requires
                    pixel < pixels,
                    pixels == width * registers.transmission_size.height,
            ;
            let x = (source_x + pixel % width) % 2048;
            let y = (source_y + pixel / width) % 2048;
            assert(source_address(registers, pixel) + 4 <= LOCAL_MEMORY_SIZE
                && destination_address(registers, pixel) + 4 <= LOCAL_MEMORY_SIZE);
            let data = self.read_psmct32(
                self.registers.bit_blit_buffer.source_base_pointer,
                x as u16,
                y as u16,
                self.registers.bit_blit_buffer.source_width,
            );
            self.tmp_data.push(data);
            pixel += 1;
        }
        let mut pixel: u32 = 0;
        while pixel < pixels
            invariant
                self.wf(),
                self.registers == registers,
                self.command_queue == old(self).command_queue,
                self.privileged_registers == old(self).privileged_registers,
                self.vertex_queue == old(self).vertex_queue,
                local_copy_supported(registers),
                pixels == transmission_pixels(registers),
                width == registers.transmission_size.width,
                destination_x == registers.transmission_position.destination_x,
                destination_y == registers.transmission_position.destination_y,
                pixel <= pixels,
                self.tmp_data@.len() == pixels,
                forall|p: int|
                    0 <= p < pixels ==> #[trigger] self.tmp_data@[p] == load_u32(
                        memory,
                        source_address(registers, p as u32),
                    ),
                self.local_memory@ == local_copy(memory, registers, pixel as nat),
            decreases pixels - pixel,
        {
            assert(width > 0 && pixel / width < registers.transmission_size.height)
                by (nonlinear_arith)
                requires
                    pixel < pixels,
                    pixels == width * registers.transmission_size.height,
            ;
            let x = (destination_x + pixel % width) % 2048;
            let y = (destination_y + pixel / width) % 2048;
            assert(source_address(registers, pixel) + 4 <= LOCAL_MEMORY_SIZE
                && destination_address(registers, pixel) + 4 <= LOCAL_MEMORY_SIZE);
            let data = self.tmp_data[pixel as usize];
            self.write_psmct32(
                self.registers.bit_blit_buffer.destination_base_pointer,
                x as u16,
                y as u16,
                self.registers.bit_blit_buffer.destination_width,
                data,
            );
            pixel += 1;
        }
        self.tmp_data.clear();
    }

    /// A write of HWREG while data goes from the host: the doubleword holds two PSMCT32
    /// pixels, the low one first; the transmission ends after its last pixel.
    fn transmit_host_data(&mut self, data: u64)
        requires
            old(self).wf(),
            host_data_supported(old(self).registers),
        ensures
            final(self).wf(),
            final(self).command_queue == old(self).command_queue,
            final(self).privileged_registers == old(self).privileged_registers,
            final(self).vertex_queue == old(self).vertex_queue,
            register_written(*old(self), *final(self), Register::TransmissionData, data, false),
    {
        proof {
            lemma_data_fields(data);
        }
        let destination_x = self.registers.transmission_position.destination_x as u32;
        let destination_y = self.registers.transmission_position.destination_y as u32;
        let width = self.registers.transmission_size.width as u32;
        let height = self.registers.transmission_size.height as u32;
        assert(width * height <= u16::MAX * u16::MAX) by (nonlinear_arith)
            requires
                width <= u16::MAX,
                height <= u16::MAX,
        ;
        let pixels = width * height;
        let mut pixel = self.registers.transmission_pixel;
        assert(pixel as int / width as int <= (pixel + 1) / width as int) by (nonlinear_arith)
            requires
                width > 0,
        ;
        let low = data.bits(0, 32) as u32;
        let x = (destination_x + pixel % width) % 2048;
        let y = (destination_y + pixel / width) % 2048;
        self.write_psmct32(
            self.registers.bit_blit_buffer.destination_base_pointer,
            x as u16,
            y as u16,
            self.registers.bit_blit_buffer.destination_width,
            low,
        );
        pixel += 1;
        self.registers.transmission_pixel = pixel;
        if pixel == pixels {
            self.registers.transmission_direction = TransmissionDirection::Deactivated;
            return;
        }
        let high = data.bits(32, 64) as u32;
        let x = (destination_x + pixel % width) % 2048;
        let y = (destination_y + pixel / width) % 2048;
        self.write_psmct32(
            self.registers.bit_blit_buffer.destination_base_pointer,
            x as u16,
            y as u16,
            self.registers.bit_blit_buffer.destination_width,
            high,
        );
        pixel += 1;
        self.registers.transmission_pixel = pixel;
        if pixel == pixels {
            self.registers.transmission_direction = TransmissionDirection::Deactivated;
        }
    }
}


impl Gs {
    /// Takes the next register write from the command queue and carries it out; `None` when
    /// the queue is empty, else whether the write kicks a vertex for drawing.
    pub fn next_command(&mut self) -> (r: Option<bool>)
        requires
            old(self).wf(),
            old(self).command_queue@.len() > 0 ==> register_write_supported(
                *old(self),
                old(self).command_queue@[0].0,
                old(self).command_queue@[0].1,
            ),
        ensures
            final(self).wf(),
            old(self).command_queue@.len() == 0 ==> r is None && final(self).command_queue@
                == old(self).command_queue@ && *final(self) == (Gs {
                command_queue: final(self).command_queue,
                ..*old(self)
            }),
            old(self).command_queue@.len() > 0 ==> {
                let (register, data) = old(self).command_queue@[0];
                &&& r matches Some(kick)
                &&& final(self).command_queue@ == old(self).command_queue@.drop_first()
                &&& register_written(
                    Gs { command_queue: final(self).command_queue, ..*old(self) },
                    *final(self),
                    register,
                    data,
                    kick,
                )
            },
            r matches Some(kick) ==> command_step(*old(self), *final(self), kick),
    {
        match self.command_queue.pop_front() {
            Some((register, data)) => {
                let kick = self.write_register(register, data);
                Some(kick)
            },
            None => None,
        }
    }
}

/// `next` is `gs` after its first queued register write was taken off the queue and carried
/// out, `kick` telling whether that write kicked a vertex.
pub open spec fn command_step(gs: Gs, next: Gs, kick: bool) -> bool {
    &&& gs.command_queue@.len() > 0
    &&& next.command_queue@ == gs.command_queue@.drop_first()
    &&& register_written(
        Gs { command_queue: next.command_queue, ..gs },
        next,
        gs.command_queue@[0].0,
        gs.command_queue@[0].1,
        kick,
    )
}

/// Draining the command queue: steps taken one after another, as many as there were queued
/// writes, leave the queue empty and carry out the queued writes in the order they were queued.
pub proof fn law_queue_drains_in_order(states: Seq<Gs>, kicks: Seq<bool>)
    requires
        states.len() == kicks.len() + 1,
        kicks.len() == states[0].command_queue@.len(),
        forall|i: int| 0 <= i < kicks.len() ==> #[trigger] command_step(states[i], states[i + 1], kicks[i]),
    ensures
        states.last().command_queue@.len() == 0,
        forall|i: int|
            0 <= i < kicks.len() ==> register_written(
                Gs { command_queue: states[i + 1].command_queue, ..states[i] },
                #[trigger] states[i + 1],
                states[0].command_queue@[i].0,
                states[0].command_queue@[i].1,
                kicks[i],
            ),
{
    let queue = states[0].command_queue@;
    let n = kicks.len() as int;
    assert forall|i: int| 0 <= i < n implies register_written(
        Gs { command_queue: states[i + 1].command_queue, ..states[i] },
        #[trigger] states[i + 1],
        queue[i].0,
        queue[i].1,
        kicks[i],
    ) by {
        lemma_queue_after_steps(states, kicks, i);
        assert(command_step(states[i], states[i + 1], kicks[i]));
        assert(states[i].command_queue@[0] == queue.subrange(i, n)[0]);
    }
    lemma_queue_after_steps(states, kicks, n);
    assert(states[n].command_queue@ =~= queue.subrange(n, n));
}

/// After `i` steps the queue holds what is left of the first queue from index `i` on.
proof fn lemma_queue_after_steps(states: Seq<Gs>, kicks: Seq<bool>, i: int)
    requires
        states.len() == kicks.len() + 1,
        kicks.len() == states[0].command_queue@.len(),
        forall|j: int| 0 <= j < kicks.len() ==> #[trigger] command_step(states[j], states[j + 1], kicks[j]),
        0 <= i <= kicks.len(),
    ensures
        states[i].command_queue@ =~= states[0].command_queue@.subrange(i, kicks.len() as int),
    decreases i,
{
    if i > 0 {
        let j = i - 1;
        lemma_queue_after_steps(states, kicks, j);
        assert(command_step(states[j], states[j + 1], kicks[j]));
    }
}

} // verus!
