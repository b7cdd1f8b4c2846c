use vstd::prelude::*;

use crate::bytes::Bytes;
use crate::emotion_engine::gs::pixel_storage::{
    law_pixel_read_after_write, load_u32, psmct32_address, stored,
};
use crate::emotion_engine::gs::registers::{
    ColorClamp, ContextualRegisters, DepthTest, InputAlpha, InputColor, PixelStorageFormat,
    TextureCoordinateMethod, TextureFunction, Uv, ZStorageFormat,
};
use crate::emotion_engine::gs::rendering::Rgba;
use crate::emotion_engine::gs::{Gs, LOCAL_MEMORY_SIZE};

verus! {

/// The registers of the context that the current primitive draws with.
pub open spec fn context(gs: Gs) -> ContextualRegisters {
    gs.registers.contextual[if gs.registers.primitive.context
        == crate::emotion_engine::gs::registers::Context::Context1 {
        0int
    } else {
        1int
    }]
}

/// The colour with channels `r`, `g`, `b`, `a` as one PSMCT32 word.
pub open spec fn color_word(r: u8, g: u8, b: u8, a: u8) -> u32 {
    u32::decode_bytes(seq![r, g, b, a])
}

/// The arithmetic shift right by 7 of a blend term, rounding down.
pub open spec fn blend_term(a: u8, b: u8, c: u8, d: u8) -> int {
    (a - b) * c / 128 + d
}

/// A blended channel brought back into a byte: its low eight bits, or clamped to 0..=255.
pub open spec fn clamped(value: int, clamp: ColorClamp) -> u8 {
    match clamp {
        ColorClamp::Mask => ((value as i32 as u32) & 0xFFu32) as u8,
        ColorClamp::Clamp => if value < 0 {
            0
        } else if value > 255 {
            255
        } else {
            value as u8
        },
    }
}

/// The colour that input `input` selects.
pub open spec fn input_color(input: InputColor, source: Rgba, destination: Rgba) -> Rgba {
    match input {
        InputColor::Source => source,
        InputColor::Destination => destination,
        _ => Rgba { r: 0, g: 0, b: 0, a: 0 },
    }
}

/// The colour `source` blended over `destination` by the formula (A - B) * C / 128 + D of the
/// context, as a PSMCT32 word; alpha is that of the source.
pub open spec fn blended(gs: Gs, source: Rgba, destination: Rgba) -> u32 {
    let alpha = context(gs).alpha;
    let a = input_color(alpha.input_color_a, source, destination);
    let b = input_color(alpha.input_color_b, source, destination);
    let d = input_color(alpha.input_color_d, source, destination);
    let c = match alpha.input_alpha_c {
        InputAlpha::Source => source.a,
        InputAlpha::Destination => destination.a,
        _ => alpha.fixed,
    };
    let clamp = gs.registers.color_clamp;
    color_word(
        clamped(blend_term(a.r, b.r, c, d.r), clamp),
        clamped(blend_term(a.g, b.g, c, d.g), clamp),
        clamped(blend_term(a.b, b.b, c, d.b), clamp),
        source.a,
    )
}

/// Whether the pixel with depth `z` passes the depth test of the context.
pub open spec fn depth_passes(gs: Gs, x: u16, y: u16, z: u32) -> bool {
    let c = context(gs);
    let stored_z = load_u32(
        gs.local_memory@,
        psmct32_address(c.z_buffer_settings.base_pointer, x, y, c.frame_buffer_settings.width),
    );
    match c.pixel_test.depth_test {
        DepthTest::Never => false,
        DepthTest::Always => true,
        DepthTest::GreaterOrEqual => z >= stored_z,
        DepthTest::Greater => z > stored_z,
    }
}

/// Local memory after the depth of a pixel that passed the test is stored, unless the depth
/// buffer is not updated.
pub open spec fn depth_written(gs: Gs, x: u16, y: u16, z: u32) -> Seq<u8> {
    let c = context(gs);
    if c.z_buffer_settings.no_update {
        gs.local_memory@
    } else {
        stored(
            gs.local_memory@,
            psmct32_address(c.z_buffer_settings.base_pointer, x, y, c.frame_buffer_settings.width),
            z.encode_bytes(),
        )
    }
}

/// The colour of the pixel before blending: the texel at the rounded texture coordinates
/// (read from `memory`) when texture mapping is on, else `color`.
pub open spec fn source_color(gs: Gs, memory: Seq<u8>, color: Rgba, uv: Uv) -> Rgba {
    let texture = context(gs).texture;
    if gs.registers.primitive.texture_mapping {
        Rgba::spec_from_raw(
            load_u32(
                memory,
                psmct32_address(
                    texture.base_pointer,
                    ((uv.u.0 + 8) / 16) as u16,
                    ((uv.v.0 + 8) / 16) as u16,
                    texture.buffer_width,
                ),
            ),
        )
    } else {
        color
    }
}

/// The address of the pixel in the frame buffer.
pub open spec fn frame_address(gs: Gs, x: u16, y: u16) -> int {
    let frame = context(gs).frame_buffer_settings;
    psmct32_address(frame.base_pointer, x, y, frame.width)
}

/// Local memory after the pixel is drawn: its depth is tested and stored, its colour is
/// taken from the texture or the vertex, blended with the frame buffer when alpha blending is
/// on, and stored except in the bits of the drawing mask.
pub open spec fn pixel_drawn(gs: Gs, x: u16, y: u16, z: u32, color: Rgba, uv: Uv) -> Seq<u8> {
    if !depth_passes(gs, x, y, z) {
        gs.local_memory@
    } else {
        let memory = depth_written(gs, x, y, z);
        let source = source_color(gs, memory, color, uv);
        let destination_word = load_u32(memory, frame_address(gs, x, y));
        let destination = Rgba::spec_from_raw(destination_word);
        let word = if gs.registers.primitive.alpha_blending {
            blended(gs, source, destination)
        } else {
            color_word(source.r, source.g, source.b, source.a)
        };
        let mask = context(gs).frame_buffer_settings.drawing_mask;
        stored(
            memory,
            frame_address(gs, x, y),
            ((word & !mask) | (destination_word & mask)).encode_bytes(),
        )
    }
}

/// Whether the pixel can be drawn: every buffer it touches holds 32-bit values, the texture
/// is given by UV and replaces the colour, the blending inputs are not reserved, and every
/// address lies in local memory.
pub open spec fn pixel_supported(gs: Gs, x: u16, y: u16, uv: Uv) -> bool {
    let c = context(gs);
    let z_address = psmct32_address(
        c.z_buffer_settings.base_pointer,
        x,
        y,
        c.frame_buffer_settings.width,
    );
    let testing = c.pixel_test.depth_test == DepthTest::GreaterOrEqual || c.pixel_test.depth_test
        == DepthTest::Greater;
    &&& (testing || !c.z_buffer_settings.no_update) ==> c.z_buffer_settings.storage_format
        == ZStorageFormat::Z32 && z_address + 4 <= LOCAL_MEMORY_SIZE
    &&& gs.registers.primitive.texture_mapping ==> {
        &&& gs.registers.primitive.texture_coordinate_method == TextureCoordinateMethod::Uv
        &&& c.texture.pixel_storage_format == PixelStorageFormat::Ct32
        &&& c.texture.function == TextureFunction::Decal
        &&& uv.u.0 + 8 <= u16::MAX && uv.v.0 + 8 <= u16::MAX
        &&& psmct32_address(
            c.texture.base_pointer,
            ((uv.u.0 + 8) / 16) as u16,
            ((uv.v.0 + 8) / 16) as u16,
            c.texture.buffer_width,
        ) + 4 <= LOCAL_MEMORY_SIZE
    }
    &&& c.frame_buffer_settings.pixel_storage_format == PixelStorageFormat::Ct32
    &&& frame_address(gs, x, y) + 4 <= LOCAL_MEMORY_SIZE
    &&& gs.registers.primitive.alpha_blending ==> {
        &&& c.alpha.input_color_a != InputColor::Reserved
        &&& c.alpha.input_color_b != InputColor::Reserved
        &&& c.alpha.input_color_d != InputColor::Reserved
        &&& c.alpha.input_alpha_c != InputAlpha::Reserved
    }
}

/// Rounding down a blend term: the arithmetic shift right by 7.
fn shift_term(a: u8, b: u8, c: u8, d: u8) -> (r: i32)
    ensures
        r == blend_term(a, b, c, d),
{
    let difference = a as i32 - b as i32;
    assert(-65025 <= difference * c <= 65025) by (nonlinear_arith)
        requires
            -255 <= difference <= 255,
            0 <= c <= 255,
    ;
    let product = difference * c as i32;
    let shifted = if product >= 0 {
        (product as u32 / 128) as i32
    } else {
        0 - ((((0 - product) as u32) + 127) / 128) as i32
    };
    assert(shifted == product as int / 128) by (nonlinear_arith)
        requires
            -0x1_0000 < product < 0x1_0000,
            product >= 0 ==> shifted == product / 128,
            product < 0 ==> shifted == -((-product + 127) / 128),
    ;
    shifted + d as i32
}

/// A blended channel brought back into a byte.
fn clamp_channel(value: i32, clamp: ColorClamp) -> (r: u8)
    ensures
        r == clamped(value as int, clamp),
{
    match clamp {
        ColorClamp::Mask => ((value as u32) & 0xFF) as u8,
        ColorClamp::Clamp => if value < 0 {
            0
        } else if value > 255 {
            255
        } else {
            value as u8
        },
    }
}

/// The colour word of four channels.
fn pack(r: u8, g: u8, b: u8, a: u8) -> (w: u32)
    ensures
        w == color_word(r, g, b, a),
{
    let bytes: [u8; 4] = [r, g, b, a];
    assert(bytes@ =~= seq![r, g, b, a]);
    u32::from_bytes(vstd::array::array_as_slice(&bytes))
}

impl Gs {
    /// The registers of the context that the current primitive draws with.
    pub fn contextual_registers(&self) -> (r: ContextualRegisters)
        ensures
            r == context(*self),
    {
        self.registers.contextual[self.registers.primitive.context.index()]
    }

    /// Draws pixel (`x`, `y`) with depth `z`, vertex colour `color` and texture coordinates
    /// `uv`.
    #[verifier::rlimit(100)]
    pub fn render_pixel(&mut self, x: u16, y: u16, z: u32, color: Rgba, uv: Uv)
        requires
            old(self).wf(),
            pixel_supported(*old(self), x, y, uv),
        ensures
            final(self).wf(),
            final(self).local_memory@ == pixel_drawn(*old(self), x, y, z, color, uv),
            final(self).registers == old(self).registers,
            final(self).privileged_registers == old(self).privileged_registers,
            final(self).command_queue == old(self).command_queue,
            final(self).vertex_queue == old(self).vertex_queue,
    {
        let z_buffer = self.contextual_registers().z_buffer_settings;
        let frame = self.contextual_registers().frame_buffer_settings;
        match self.contextual_registers().pixel_test.depth_test {
            DepthTest::Never => return ,
            DepthTest::Always => {},
            DepthTest::GreaterOrEqual => {
                let value = self.read_psmct32(z_buffer.base_pointer, x, y, frame.width);
                if z < value {
                    return ;
                }
            },
            DepthTest::Greater => {
                let value = self.read_psmct32(z_buffer.base_pointer, x, y, frame.width);
                if z <= value {
                    return ;
                }
            },
        }
        if !z_buffer.no_update {
            self.write_psmct32(z_buffer.base_pointer, x, y, frame.width, z);
        }
        let ghost memory = self.local_memory@;
        let primitive = self.registers.primitive;
        let source = if primitive.texture_mapping {
            let texture = self.contextual_registers().texture;
            let u = uv.u.round();
            let v = uv.v.round();
            Rgba::from_raw(self.read_psmct32(texture.base_pointer, u, v, texture.buffer_width))
        } else {
            color
        };
        let destination_word = self.read_psmct32(frame.base_pointer, x, y, frame.width);
        let destination = Rgba::from_raw(destination_word);
        let word = if primitive.alpha_blending {
            let alpha = self.contextual_registers().alpha;
            let a = match alpha.input_color_a {
                InputColor::Source => source,
                InputColor::Destination => destination,
                _ => Rgba { r: 0, g: 0, b: 0, a: 0 },
            };
            let b = match alpha.input_color_b {
                InputColor::Source => source,
                InputColor::Destination => destination,
                _ => Rgba { r: 0, g: 0, b: 0, a: 0 },
            };
            let c = match alpha.input_alpha_c {
                InputAlpha::Source => source.a,
                InputAlpha::Destination => destination.a,
                _ => alpha.fixed,
            };
            let d = match alpha.input_color_d {
                InputColor::Source => source,
                InputColor::Destination => destination,
                _ => Rgba { r: 0, g: 0, b: 0, a: 0 },
            };
            let clamp = self.registers.color_clamp;
            let r = clamp_channel(shift_term(a.r, b.r, c, d.r), clamp);
            let g = clamp_channel(shift_term(a.g, b.g, c, d.g), clamp);
            let bl = clamp_channel(shift_term(a.b, b.b, c, d.b), clamp);
            pack(r, g, bl, source.a)
        } else {
            pack(source.r, source.g, source.b, source.a)
        };
        let color = word & !frame.drawing_mask | destination_word & frame.drawing_mask;
        self.write_psmct32(frame.base_pointer, x, y, frame.width, color);
    }
}

/// The address of the depth of pixel (`x`, `y`) in the depth buffer of the context.
pub open spec fn depth_address(gs: Gs, x: u16, y: u16) -> int {
    let c = context(gs);
    psmct32_address(c.z_buffer_settings.base_pointer, x, y, c.frame_buffer_settings.width)
}

/// Storing a word leaves the words that do not overlap it as they were.
proof fn lemma_load_elsewhere(memory: Seq<u8>, address: int, value: u32, other: int)
    requires
        0 <= address,
        address + 4 <= memory.len(),
        0 <= other,
        other + 4 <= memory.len(),
        address + 4 <= other || other + 4 <= address,
    ensures
        load_u32(stored(memory, address, value.encode_bytes()), other) == load_u32(memory, other),
{
    value.lemma_bytes_roundtrip(Seq::empty());
    assert(stored(memory, address, value.encode_bytes()).subrange(other, other + 4) =~= memory.subrange(
        other,
        other + 4,
    ));
}

/// The depth test decides whether a pixel is drawn: with the test `NEVER` nothing changes;
/// under `GEQUAL` a pixel whose depth is below the stored depth changes nothing, and one whose
/// depth is at least the stored depth is drawn; under `GREATER` the same with strictly greater;
/// under `ALWAYS` every pixel is drawn. A drawn pixel leaves its depth in the depth buffer
/// unless depth updates are off (the depth and frame buffers being apart at the pixel).
pub proof fn law_depth_test(gs: Gs, x: u16, y: u16, z: u32, color: Rgba, uv: Uv)
    requires
        gs.wf(),
        pixel_supported(gs, x, y, uv),
        context(gs).z_buffer_settings.storage_format == ZStorageFormat::Z32,
        0 <= depth_address(gs, x, y),
        depth_address(gs, x, y) + 4 <= LOCAL_MEMORY_SIZE,
        frame_address(gs, x, y) + 4 <= depth_address(gs, x, y) || depth_address(gs, x, y) + 4
            <= frame_address(gs, x, y),
    ensures
        ({
            let c = context(gs);
            let stored_z = load_u32(gs.local_memory@, depth_address(gs, x, y));
            let drawn = pixel_drawn(gs, x, y, z, color, uv);
            let test = c.pixel_test.depth_test;
            let depth_kept = !c.z_buffer_settings.no_update;
            &&& test == DepthTest::Never ==> drawn == gs.local_memory@
            &&& test == DepthTest::GreaterOrEqual && z < stored_z ==> drawn == gs.local_memory@
            &&& test == DepthTest::Greater && z <= stored_z ==> drawn == gs.local_memory@
            &&& depth_kept && (test == DepthTest::Always || (test == DepthTest::GreaterOrEqual
                && z >= stored_z) || (test == DepthTest::Greater && z > stored_z)) ==> load_u32(
                drawn,
                depth_address(gs, x, y),
            ) == z
        }),
{
    let c = context(gs);
    let a = depth_address(gs, x, y);
    if depth_passes(gs, x, y, z) && !c.z_buffer_settings.no_update {
        let memory = depth_written(gs, x, y, z);
        law_pixel_read_after_write(
            gs.local_memory@,
            c.z_buffer_settings.base_pointer,
            x,
            y,
            c.frame_buffer_settings.width,
            z,
        );
        assert(load_u32(memory, a) == z);
        let source = source_color(gs, memory, color, uv);
        let destination_word = load_u32(memory, frame_address(gs, x, y));
        let destination = Rgba::spec_from_raw(destination_word);
        let word = if gs.registers.primitive.alpha_blending {
            blended(gs, source, destination)
        } else {
            color_word(source.r, source.g, source.b, source.a)
        };
        let mask = c.frame_buffer_settings.drawing_mask;
        let frame_word = (word & !mask) | (destination_word & mask);
        lemma_load_elsewhere(memory, frame_address(gs, x, y), frame_word, a);
    }
}

} // verus!
