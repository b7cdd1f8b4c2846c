use vstd::prelude::*;

use crate::bits::Bits;
use crate::emotion_engine::gs::commands::{
    destination_address, host_data_supported, local_copy_supported, register_write_supported,
    source_address, transmission_pixels,
};
use crate::emotion_engine::gs::display::{
    circuit_readable, first_rect, frame_buffer_supported, reads_first, reads_second,
    second_rect,
};
use crate::emotion_engine::gs::pixel::{context, frame_address, pixel_supported};
use crate::emotion_engine::gs::pixel_storage::{psmct32_address, psmct32_offset_spec};
use crate::emotion_engine::gs::privileged_registers::{AlphaBlendingMethod, DisplayFrameBuffer};
use crate::emotion_engine::gs::registers::{
    ClutBufferLoadControl, DepthTest, InputAlpha, InputColor, PixelStorageFormat,
    PixelTransmissionOrder, Register, TextureCoordinateMethod, TextureFunction,
    TransmissionDirection, Uv, ZStorageFormat,
};
use crate::emotion_engine::gs::rendering::Rect;
use crate::emotion_engine::gs::{Gs, LOCAL_MEMORY_SIZE};

verus! {

/// Whether the PSMCT32 pixel (`x`, `y`) of the buffer at `base_pointer`, `width` pixels wide,
/// lies in local memory.
pub fn pixel_in_memory(base_pointer: u32, x: u16, y: u16, width: u16) -> (r: bool)
    ensures
        r == (psmct32_address(base_pointer, x, y, width) + 4 <= LOCAL_MEMORY_SIZE),
{
    let page_x = (x / 64) as u64;
    let page_y = (y / 32) as u64;
    let columns = (width / 64) as u64;
    assert(page_y * columns <= 2048 * 1024) by (nonlinear_arith)
        requires
            page_y < 2048,
            columns < 1024,
    ;
    let page_index = page_y * columns + page_x;
    let block_x = (x % 64) / 8;
    let block_y = (y % 32) / 8;
    let block_index = (block_x % 2 + (block_x / 2) % 2 * 4 + (block_x / 4) % 2 * 16 + block_y % 2
        * 2 + (block_y / 2) % 2 * 8) as u64;
    let local_x = x % 8;
    let local_y = y % 8;
    let local_index = (local_x % 2 + (local_x / 2) % 2 * 4 + (local_x / 4) % 2 * 8 + local_y % 2
        * 2 + (local_y / 2) % 2 * 16 + (local_y / 4) % 2 * 32) as u64;
    let address = base_pointer as u64 + page_index * 8192 + block_index * 256 + local_index * 4;
    assert(address == psmct32_address(base_pointer, x, y, width));
    address + 4 <= LOCAL_MEMORY_SIZE as u64
}

impl Gs {
    /// Whether `write_register` can carry out a write of `data` to `register` now.
    pub fn supports_register_write(&self, register: Register, data: u64) -> (r: bool)
        ensures
            r == register_write_supported(*self, register, data),
    {
        match register {
            Register::Primitive | Register::Rgbaq | Register::Uv | Register::Xyzf2
            | Register::Xyz2 | Register::XyOffset1 | Register::XyOffset2
            | Register::PrimitiveModeControl | Register::TextureFlush | Register::Scissor1
            | Register::Scissor2 | Register::Alpha1 | Register::Alpha2 | Register::DitherControl
            | Register::ColorClamp | Register::PixelTest1 | Register::PixelTest2
            | Register::TransmissionPosition | Register::TransmissionSize => true,
            Register::Texture1 | Register::Texture2 | Register::TextureClut1
            | Register::TextureClut2 => {
                PixelStorageFormat::from_code(data.bits(20, 26)).is_some()
                    && PixelStorageFormat::from_code(data.bits(51, 55)).is_some()
                    && ClutBufferLoadControl::from_code(data.bits(61, 64)).is_some()
            },
            Register::FrameBuffer1 | Register::FrameBuffer2 => PixelStorageFormat::from_code(
                data.bits(24, 30),
            ).is_some(),
            Register::ZBuffer1 | Register::ZBuffer2 => ZStorageFormat::from_code(
                data.bits(24, 28),
            ).is_some(),
            Register::BitBlitBuffer => {
                PixelStorageFormat::from_code(data.bits(24, 30)).is_some()
                    && PixelStorageFormat::from_code(data.bits(56, 62)).is_some()
            },
            Register::TransmissionActivation => {
                let code = data.bits(0, 2);
                code == 0 || code == 3 || (code == 2 && self.supports_local_copy())
            },
            Register::TransmissionData => self.supports_host_data(),
            _ => false,
        }
    }

    /// Whether a transmission within local memory can be carried out now.
    fn supports_local_copy(&self) -> (r: bool)
        ensures
            r == local_copy_supported(self.registers),
    {
        let registers = self.registers;
        if !(registers.transmission_position.order == PixelTransmissionOrder::UpperLeftToLowerRight
            && registers.bit_blit_buffer.source_pixel_storage_format == PixelStorageFormat::Ct32
            && registers.bit_blit_buffer.destination_pixel_storage_format
            == PixelStorageFormat::Ct32) {
            return false;
        }
        let width = registers.transmission_size.width as u32;
        let height = registers.transmission_size.height as u32;
        assert(width * height <= u16::MAX * u16::MAX) by (nonlinear_arith)
            requires
                width <= u16::MAX,
                height <= u16::MAX,
        ;
        let pixels = width * height;
        let mut pixel: u32 = 0;
        while pixel < pixels
            invariant
                registers == self.registers,
                registers.transmission_position.order == PixelTransmissionOrder::UpperLeftToLowerRight,
                registers.bit_blit_buffer.source_pixel_storage_format == PixelStorageFormat::Ct32,
                registers.bit_blit_buffer.destination_pixel_storage_format
                    == PixelStorageFormat::Ct32,
                pixels == transmission_pixels(registers),
                width == registers.transmission_size.width,
                pixel <= pixels,
                forall|p: u32|
                    p < pixel ==> #[trigger] source_address(registers, p) + 4 <= LOCAL_MEMORY_SIZE
                        && destination_address(registers, p) + 4 <= LOCAL_MEMORY_SIZE,
            decreases pixels - pixel,
        {
            assert(width > 0) by (nonlinear_arith)
                requires
                    pixel < pixels,
                    pixels == width * registers.transmission_size.height,
            ;
            let position = registers.transmission_position;
            let column = (pixel % width) as u64;
            let row = (pixel / width) as u64;
            let source_x = ((position.source_x as u64 + column) % 2048) as u16;
            let source_y = ((position.source_y as u64 + row) % 2048) as u16;
            let destination_x = ((position.destination_x as u64 + column) % 2048) as u16;
            let destination_y = ((position.destination_y as u64 + row) % 2048) as u16;
            assert(source_address(registers, pixel) == psmct32_address(
                registers.bit_blit_buffer.source_base_pointer,
                source_x,
                source_y,
                registers.bit_blit_buffer.source_width,
            ));
            assert(destination_address(registers, pixel) == psmct32_address(
                registers.bit_blit_buffer.destination_base_pointer,
                destination_x,
                destination_y,
                registers.bit_blit_buffer.destination_width,
            ));
            let source_ok = pixel_in_memory(
                registers.bit_blit_buffer.source_base_pointer,
                source_x,
                source_y,
                registers.bit_blit_buffer.source_width,
            );
            let destination_ok = pixel_in_memory(
                registers.bit_blit_buffer.destination_base_pointer,
                destination_x,
                destination_y,
                registers.bit_blit_buffer.destination_width,
            );
            if !(source_ok && destination_ok) {
                return false;
            }
            pixel += 1;
        }
        true
    }

    /// Whether a doubleword of host data can be stored now.
    fn supports_host_data(&self) -> (r: bool)
        ensures
            r == host_data_supported(self.registers),
    {
        let registers = self.registers;
        let pixel = registers.transmission_pixel;
        let width = registers.transmission_size.width as u32;
        if !(registers.transmission_direction == TransmissionDirection::HostToLocal
            && registers.bit_blit_buffer.destination_pixel_storage_format
            == PixelStorageFormat::Ct32 && width > 0 && pixel <= u32::MAX - 2) {
            return false;
        }
        let position = registers.transmission_position;
        if (position.destination_y as u64) + ((pixel as u64 + 1) / (width as u64)) > u32::MAX as u64 {
            return false;
        }
        let x = ((position.destination_x as u64 + (pixel % width) as u64) % 2048) as u16;
        let y = ((position.destination_y as u64 + (pixel / width) as u64) % 2048) as u16;
        assert(destination_address(registers, pixel) == psmct32_address(
            registers.bit_blit_buffer.destination_base_pointer,
            x,
            y,
            registers.bit_blit_buffer.destination_width,
        ));
        if !pixel_in_memory(
            registers.bit_blit_buffer.destination_base_pointer,
            x,
            y,
            registers.bit_blit_buffer.destination_width,
        ) {
            return false;
        }
        let height = registers.transmission_size.height as u32;
        assert(width * height <= u16::MAX * u16::MAX) by (nonlinear_arith)
            requires
                width <= u16::MAX,
                height <= u16::MAX,
        ;
        let next = pixel + 1;
        if next == width * height {
            return true;
        }
        let x = ((position.destination_x as u64 + (next % width) as u64) % 2048) as u16;
        let y = ((position.destination_y as u64 + (next / width) as u64) % 2048) as u16;
        assert(destination_address(registers, next) == psmct32_address(
            registers.bit_blit_buffer.destination_base_pointer,
            x,
            y,
            registers.bit_blit_buffer.destination_width,
        ));
        pixel_in_memory(
            registers.bit_blit_buffer.destination_base_pointer,
            x,
            y,
            registers.bit_blit_buffer.destination_width,
        )
    }

    /// Whether `render_pixel` can draw pixel (`x`, `y`) with texture coordinates `uv` now.
    pub fn supports_pixel(&self, x: u16, y: u16, uv: Uv) -> (r: bool)
        ensures
            r == pixel_supported(*self, x, y, uv),
    {
        let c = self.contextual_registers();
        let testing = c.pixel_test.depth_test == DepthTest::GreaterOrEqual
            || c.pixel_test.depth_test == DepthTest::Greater;
        if testing || !c.z_buffer_settings.no_update {
            if !(c.z_buffer_settings.storage_format == ZStorageFormat::Z32 && pixel_in_memory(
                c.z_buffer_settings.base_pointer,
                x,
                y,
                c.frame_buffer_settings.width,
            )) {
                return false;
            }
        }
        let primitive = self.registers.primitive;
        if primitive.texture_mapping {
            if !(primitive.texture_coordinate_method == TextureCoordinateMethod::Uv
                && c.texture.pixel_storage_format == PixelStorageFormat::Ct32
                && c.texture.function == TextureFunction::Decal && uv.u.0 <= u16::MAX - 8
                && uv.v.0 <= u16::MAX - 8) {
                return false;
            }
            if !pixel_in_memory(
                c.texture.base_pointer,
                (uv.u.0 + 8) / 16,
                (uv.v.0 + 8) / 16,
                c.texture.buffer_width,
            ) {
                return false;
            }
        }
        if !(c.frame_buffer_settings.pixel_storage_format == PixelStorageFormat::Ct32
            && pixel_in_memory(
            c.frame_buffer_settings.base_pointer,
            x,
            y,
            c.frame_buffer_settings.width,
        )) {
            return false;
        }
        !primitive.alpha_blending || (c.alpha.input_color_a != InputColor::Reserved
            && c.alpha.input_color_b != InputColor::Reserved && c.alpha.input_color_d
            != InputColor::Reserved && c.alpha.input_alpha_c != InputAlpha::Reserved)
    }

    /// Whether `frame_buffer` can put the picture together now.
    pub fn supports_frame_buffer(&self) -> (r: bool)
        ensures
            r == frame_buffer_supported(*self),
    {
        let p = self.privileged_registers;
        let pcrtc = p.pcrtc_mode;
        if !((p.display1.x_position as u32) + (p.display1.width as u32) <= u16::MAX as u32
            && (p.display1.y_position as u32) + (p.display1.height as u32) <= u16::MAX as u32
            && (p.display2.x_position as u32) + (p.display2.width as u32) <= u16::MAX as u32
            && (p.display2.y_position as u32) + (p.display2.height as u32) <= u16::MAX as u32) {
            return false;
        }
        if pcrtc.enable_circuit1 && p.display_frame_buffer1.pixel_storage_format
            != PixelStorageFormat::Ct32 {
            return false;
        }
        if pcrtc.enable_circuit2 && p.display_frame_buffer2.pixel_storage_format
            != PixelStorageFormat::Ct32 {
            return false;
        }
        let first = if pcrtc.enable_circuit1 {
            Self::circuit_pixels_readable(p.display_frame_buffer1, p.display1.rect())
        } else {
            true
        };
        if !first {
            let rect = p.display1.rect();
            let fb = p.display_frame_buffer1;
            let ghost (wx, wy) = choose|x: u16, y: u16|
                rect.x_start <= x < rect.x_end && rect.y_start <= y < rect.y_end
                    && !circuit_readable(fb, rect, x, y);
            assert(reads_first(p, wx, wy));
            return false;
        }
        let second = if pcrtc.enable_circuit2 && pcrtc.alpha_blending_method
            == AlphaBlendingMethod::Circuit2 {
            Self::circuit_pixels_readable(p.display_frame_buffer2, p.display2.rect())
        } else {
            true
        };
        if !second {
            let rect = p.display2.rect();
            let fb = p.display_frame_buffer2;
            let ghost (wx, wy) = choose|x: u16, y: u16|
                rect.x_start <= x < rect.x_end && rect.y_start <= y < rect.y_end
                    && !circuit_readable(fb, rect, x, y);
            assert(reads_second(p, wx, wy));
            return false;
        }
        true
    }

    /// Whether every pixel of `rect` can be read from the frame buffer `fb`.
    fn circuit_pixels_readable(fb: DisplayFrameBuffer, rect: Rect<u16>) -> (r: bool)
        ensures
            r == (forall|x: u16, y: u16|
                rect.x_start <= x < rect.x_end && rect.y_start <= y < rect.y_end
                    ==> #[trigger] circuit_readable(fb, rect, x, y)),
    {
        let mut y = rect.y_start;
        while y < rect.y_end
            invariant
                rect.y_start <= y,
                forall|x: u16, y2: u16|
                    rect.x_start <= x < rect.x_end && rect.y_start <= y2 < y
                        ==> #[trigger] circuit_readable(fb, rect, x, y2),
            decreases rect.y_end - y,
        {
            let mut x = rect.x_start;
            while x < rect.x_end
                invariant
                    rect.y_start <= y < rect.y_end,
                    rect.x_start <= x,
                    forall|x2: u16, y2: u16|
                        rect.x_start <= x2 < rect.x_end && rect.y_start <= y2 < y
                            ==> #[trigger] circuit_readable(fb, rect, x2, y2),
                    forall|x2: u16| rect.x_start <= x2 < x ==> #[trigger] circuit_readable(fb, rect, x2, y),
                decreases rect.x_end - x,
            {
                if !Self::circuit_pixel_readable(fb, rect, x, y) {
                    return false;
                }
                x = x + 1;
            }
            y = y + 1;
        }
        true
    }

    /// Whether the pixel of frame buffer `fb` shown at (`x`, `y`) can be read.
    fn circuit_pixel_readable(fb: DisplayFrameBuffer, rect: Rect<u16>, x: u16, y: u16) -> (r: bool)
        requires
            rect.x_start <= x,
            rect.y_start <= y,
        ensures
            r == circuit_readable(fb, rect, x, y),
    {
        if (x as u32) + (fb.offset_x as u32) > u16::MAX as u32 || (y as u32) + (fb.offset_y as u32)
            > u16::MAX as u32 {
            return false;
        }
        pixel_in_memory(
            fb.base_pointer,
            x + fb.offset_x - rect.x_start,
            y + fb.offset_y - rect.y_start,
            fb.width,
        )
    }
}

} // verus!
