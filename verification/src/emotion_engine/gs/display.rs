use vstd::prelude::*;

use crate::emotion_engine::gs::pixel_storage::{load_u32, psmct32_address};
use crate::emotion_engine::gs::privileged_registers::{
    AlphaBlendingMethod, AlphaValueSelection, Display, DisplayFrameBuffer, PrivilegedRegisters, Rgb,
};
use crate::emotion_engine::gs::registers::PixelStorageFormat;
use crate::emotion_engine::gs::rendering::{Rect, Rgba};
use crate::emotion_engine::gs::{Gs, LOCAL_MEMORY_SIZE};

verus! {

/// The rectangle that a read circuit shows.
pub open spec fn display_rect(display: Display) -> Rect<u16> {
    Rect {
        x_start: display.x_position,
        y_start: display.y_position,
        x_end: (display.x_position + display.width) as u16,
        y_end: (display.y_position + display.height) as u16,
    }
}

/// The empty rectangle at the origin.
pub open spec fn no_rect() -> Rect<u16> {
    Rect { x_start: 0, y_start: 0, x_end: 0, y_end: 0 }
}

/// Whether a rectangle contains the point (`x`, `y`).
pub open spec fn rect_contains(rect: Rect<u16>, x: u16, y: u16) -> bool {
    rect.x_start <= x < rect.x_end && rect.y_start <= y < rect.y_end
}

/// The rectangle of the first circuit, empty when it is off.
pub open spec fn first_rect(p: PrivilegedRegisters) -> Rect<u16> {
    if p.pcrtc_mode.enable_circuit1 {
        display_rect(p.display1)
    } else {
        no_rect()
    }
}

/// The rectangle of the second circuit, empty when it is off.
pub open spec fn second_rect(p: PrivilegedRegisters) -> Rect<u16> {
    if p.pcrtc_mode.enable_circuit2 {
        display_rect(p.display2)
    } else {
        no_rect()
    }
}

/// The part of the screen that the enabled circuits show: the rectangle that bounds both, or
/// `None` when both are off.
pub open spec fn shown_rect(p: PrivilegedRegisters) -> Option<Rect<u16>> {
    if p.pcrtc_mode.enable_circuit1 && p.pcrtc_mode.enable_circuit2 {
        Some(display_rect(p.display1).spec_union(display_rect(p.display2)))
    } else if p.pcrtc_mode.enable_circuit1 {
        Some(display_rect(p.display1))
    } else if p.pcrtc_mode.enable_circuit2 {
        Some(display_rect(p.display2))
    } else {
        None
    }
}

/// The address of the pixel that a circuit shows at screen position (`x`, `y`) from frame
/// buffer `fb`, whose rectangle is `rect`.
pub open spec fn circuit_address(fb: DisplayFrameBuffer, rect: Rect<u16>, x: u16, y: u16) -> int {
    psmct32_address(
        fb.base_pointer,
        (x + fb.offset_x - rect.x_start) as u16,
        (y + fb.offset_y - rect.y_start) as u16,
        fb.width,
    )
}

/// Whether the pixel of a circuit at (`x`, `y`) can be read: its coordinates in the frame
/// buffer fit in 16 bits and its address lies in local memory.
pub open spec fn circuit_readable(fb: DisplayFrameBuffer, rect: Rect<u16>, x: u16, y: u16) -> bool {
    &&& x + fb.offset_x <= u16::MAX
    &&& y + fb.offset_y <= u16::MAX
    &&& circuit_address(fb, rect, x, y) + 4 <= LOCAL_MEMORY_SIZE
}

/// Whether the first circuit reads a pixel at (`x`, `y`).
pub open spec fn reads_first(p: PrivilegedRegisters, x: u16, y: u16) -> bool {
    p.pcrtc_mode.enable_circuit1 && rect_contains(first_rect(p), x, y)
}

/// Whether the second circuit reads a pixel at (`x`, `y`).
pub open spec fn reads_second(p: PrivilegedRegisters, x: u16, y: u16) -> bool {
    &&& p.pcrtc_mode.alpha_blending_method == AlphaBlendingMethod::Circuit2
    &&& p.pcrtc_mode.enable_circuit2
    &&& rect_contains(second_rect(p), x, y)
}

/// The colour that the first circuit gives at (`x`, `y`): black where it shows nothing.
pub open spec fn first_output(gs: Gs, x: u16, y: u16) -> Rgba {
    let p = gs.privileged_registers;
    if reads_first(p, x, y) {
        Rgba::spec_from_raw(
            load_u32(
                gs.local_memory@,
                circuit_address(p.display_frame_buffer1, first_rect(p), x, y),
            ),
        )
    } else {
        Rgba { r: 0, g: 0, b: 0, a: 0 }
    }
}

/// The colour that the first circuit is blended with at (`x`, `y`): the second circuit where
/// it is selected and shows the point, else the background colour.
pub open spec fn second_output(gs: Gs, x: u16, y: u16) -> Rgb {
    let p = gs.privileged_registers;
    if reads_second(p, x, y) {
        Rgb::spec_from_raw(
            load_u32(
                gs.local_memory@,
                circuit_address(p.display_frame_buffer2, second_rect(p), x, y),
            ),
        )
    } else {
        p.background_color
    }
}

/// The blending weight of the first circuit at (`x`, `y`), out of 255: twice its alpha
/// (at most 255), or the fixed value inside its rectangle and 0 outside.
pub open spec fn blend_alpha(gs: Gs, x: u16, y: u16) -> int {
    let p = gs.privileged_registers;
    match p.pcrtc_mode.alpha_value_selection {
        AlphaValueSelection::Circuit1 => {
            let doubled = first_output(gs, x, y).a * 2;
            if doubled < 255 {
                doubled
            } else {
                255
            }
        },
        AlphaValueSelection::Fixed(a) => if rect_contains(first_rect(p), x, y) {
            a as int
        } else {
            0
        },
    }
}

/// One channel of the shown pixel: the two inputs weighted by `a` and `255 - a`, divided by
/// 256 and at most 255.
pub open spec fn mixed(first: u8, second: u8, a: int) -> u8 {
    let value = (first * a + second * (255 - a)) / 256;
    if value < 255 {
        value as u8
    } else {
        255
    }
}

/// The four bytes of the shown pixel at (`x`, `y`): blue, green, red and zero.
pub open spec fn shown_pixel(gs: Gs, x: u16, y: u16) -> Seq<u8> {
    let a = blend_alpha(gs, x, y);
    let first = first_output(gs, x, y);
    let second = second_output(gs, x, y);
    seq![mixed(first.b, second.b, a), mixed(first.g, second.g, a), mixed(first.r, second.r, a), 0]
}

/// The shown pixels of row `y` from `x_start` up to `x`, in order.
pub open spec fn shown_row(gs: Gs, y: u16, x_start: u16, x: int) -> Seq<u8>
    decreases x - x_start,
{
    if x <= x_start {
        Seq::empty()
    } else {
        shown_row(gs, y, x_start, x - 1) + shown_pixel(gs, (x - 1) as u16, y)
    }
}

/// The shown pixels of the rows of `rect` up to `y`, row by row.
pub open spec fn shown_rows(gs: Gs, rect: Rect<u16>, y: int) -> Seq<u8>
    decreases y - rect.y_start,
{
    if y <= rect.y_start {
        Seq::empty()
    } else {
        shown_rows(gs, rect, y - 1) + shown_row(gs, (y - 1) as u16, rect.x_start, rect.x_end as int)
    }
}

/// Whether the picture can be put together: both display rectangles fit in 16-bit
/// coordinates, each enabled circuit reads 32-bit pixels, and every pixel read lies in local
/// memory.
pub open spec fn frame_buffer_supported(gs: Gs) -> bool {
    let p = gs.privileged_registers;
    &&& p.display1.x_position + p.display1.width <= u16::MAX
    &&& p.display1.y_position + p.display1.height <= u16::MAX
    &&& p.display2.x_position + p.display2.width <= u16::MAX
    &&& p.display2.y_position + p.display2.height <= u16::MAX
    &&& p.pcrtc_mode.enable_circuit1 ==> p.display_frame_buffer1.pixel_storage_format
        == PixelStorageFormat::Ct32
    &&& p.pcrtc_mode.enable_circuit2 ==> p.display_frame_buffer2.pixel_storage_format
        == PixelStorageFormat::Ct32
    &&& forall|x: u16, y: u16|
        #[trigger] reads_first(p, x, y) ==> circuit_readable(
            p.display_frame_buffer1,
            first_rect(p),
            x,
            y,
        )
    &&& forall|x: u16, y: u16|
        #[trigger] reads_second(p, x, y) ==> circuit_readable(
            p.display_frame_buffer2,
            second_rect(p),
            x,
            y,
        )
}

impl Gs {
    /// The picture the read circuits show, as rows of blue, green, red and zero bytes, with
    /// its width; `None` when both circuits are off or their rectangle is empty.
    pub fn frame_buffer(&self) -> (r: Option<(u16, Vec<u8>)>)
        requires
            self.wf(),
            frame_buffer_supported(*self),
        ensures
            match shown_rect(self.privileged_registers) {
                None => r is None,
                Some(rect) => if rect.x_start >= rect.x_end || rect.y_start >= rect.y_end {
                    r is None
                } else {
                    &&& r matches Some((width, bytes))
                    &&& width == rect.x_end - rect.x_start
                    &&& bytes@ == shown_rows(*self, rect, rect.y_end as int)
                },
            },
    {
        let p = self.privileged_registers;
        let pcrtc = p.pcrtc_mode;
        let display_rect1 = p.display1.rect();
        let display_rect2 = p.display2.rect();
        let rect = if pcrtc.enable_circuit1 && pcrtc.enable_circuit2 {
            display_rect1.union(&display_rect2)
        } else if pcrtc.enable_circuit1 {
            display_rect1
        } else if pcrtc.enable_circuit2 {
            display_rect2
        } else {
            return None;
        };
        if rect.is_empty() {
            return None;
        }
        let mut result: Vec<u8> = Vec::new();
        let mut y = rect.y_start;
        while y < rect.y_end
            invariant
                self.wf(),
                frame_buffer_supported(*self),
                shown_rect(self.privileged_registers) == Some(rect),
                rect.y_start <= y <= rect.y_end,
                rect.x_start < rect.x_end,
                result@ == shown_rows(*self, rect, y as int),
            decreases rect.y_end - y,
        {
            let mut x = rect.x_start;
            while x < rect.x_end
                invariant
                    self.wf(),
                    frame_buffer_supported(*self),
                    rect.y_start <= y < rect.y_end,
                    rect.x_start <= x <= rect.x_end,
                    result@ == shown_rows(*self, rect, y as int) + shown_row(
                        *self,
                        y,
                        rect.x_start,
                        x as int,
                    ),
                decreases rect.x_end - x,
            {
                let pixel = self.shown_pixel(x, y);
                result.push(pixel[0]);
                result.push(pixel[1]);
                result.push(pixel[2]);
                result.push(pixel[3]);
                proof {
                    let before = shown_rows(*self, rect, y as int) + shown_row(
                        *self,
                        y,
                        rect.x_start,
                        x as int,
                    );
                    assert(result@ =~= before + shown_pixel(*self, x, y));
                    assert(shown_row(*self, y, rect.x_start, x + 1) == shown_row(
                        *self,
                        y,
                        rect.x_start,
                        x as int,
                    ) + shown_pixel(*self, x, y));
                }
                x = x + 1;
            }
            proof {
                assert(shown_rows(*self, rect, y + 1) == shown_rows(*self, rect, y as int)
                    + shown_row(*self, y, rect.x_start, rect.x_end as int));
            }
            y = y + 1;
        }
        Some((rect.x_end - rect.x_start, result))
    }

    /// The four bytes of the shown pixel at (`x`, `y`).
    fn shown_pixel(&self, x: u16, y: u16) -> (r: [u8; 4])
        requires
            self.wf(),
            frame_buffer_supported(*self),
        ensures
            r@ == shown_pixel(*self, x, y),
    {
        let p = self.privileged_registers;
        let pcrtc = p.pcrtc_mode;
        let rect1 = if pcrtc.enable_circuit1 {
            p.display1.rect()
        } else {
            Rect { x_start: 0, y_start: 0, x_end: 0, y_end: 0 }
        };
        let rect2 = if pcrtc.enable_circuit2 {
            p.display2.rect()
        } else {
            Rect { x_start: 0, y_start: 0, x_end: 0, y_end: 0 }
        };
        let in_rect1 = rect1.contains(x, y);
        let out1 = if pcrtc.enable_circuit1 && in_rect1 {
            assert(reads_first(p, x, y));
            let fb1 = p.display_frame_buffer1;
            Rgba::from_raw(
                self.read_psmct32(
                    fb1.base_pointer,
                    x + fb1.offset_x - rect1.x_start,
                    y + fb1.offset_y - rect1.y_start,
                    fb1.width,
                ),
            )
        } else {
            Rgba { r: 0, g: 0, b: 0, a: 0 }
        };
        let out2 = match pcrtc.alpha_blending_method {
            AlphaBlendingMethod::Circuit2 => {
                if pcrtc.enable_circuit2 && rect2.contains(x, y) {
                    assert(reads_second(p, x, y));
                    let fb2 = p.display_frame_buffer2;
                    Rgb::from_raw(
                        self.read_psmct32(
                            fb2.base_pointer,
                            x + fb2.offset_x - rect2.x_start,
                            y + fb2.offset_y - rect2.y_start,
                            fb2.width,
                        ),
                    )
                } else {
                    p.background_color
                }
            },
            AlphaBlendingMethod::BackgroundColor => p.background_color,
        };
        let a: u32 = match pcrtc.alpha_value_selection {
            AlphaValueSelection::Circuit1 => {
                let doubled = out1.a as u32 * 2;
                if doubled < 255 {
                    doubled
                } else {
                    255
                }
            },
            AlphaValueSelection::Fixed(a) => if in_rect1 {
                a as u32
            } else {
                0
            },
        };
        [mix(out1.b, out2.b, a), mix(out1.g, out2.g, a), mix(out1.r, out2.r, a), 0]
    }
}

/// One channel of the shown pixel.
fn mix(first: u8, second: u8, a: u32) -> (r: u8)
    requires
        a <= 255,
    ensures
        r == mixed(first, second, a as int),
{
    assert(first as u32 * a <= 255 * 255 && second as u32 * (255 - a) <= 255 * 255)
        by (nonlinear_arith)
        requires
            a <= 255,
    ;
    let value = (first as u32 * a + second as u32 * (255 - a)) / 256;
    if value < 255 {
        value as u8
    } else {
        255
    }
}

/// A row of the picture holds four bytes for each of its pixels.
proof fn lemma_shown_row_len(gs: Gs, y: u16, x_start: u16, x: int)
    requires
        x_start <= x,
    ensures
        shown_row(gs, y, x_start, x).len() == 4 * (x - x_start),
    decreases x - x_start,
{
    if x > x_start {
        lemma_shown_row_len(gs, y, x_start, x - 1);
    }
}

/// The picture that `frame_buffer` gives holds four bytes for each pixel of its rectangle:
/// its rows up to `y` are `4 * (y - y_start) * width` bytes long.
pub proof fn law_picture_size(gs: Gs, rect: Rect<u16>, y: int)
    requires
        rect.y_start <= y,
        rect.x_start <= rect.x_end,
    ensures
        shown_rows(gs, rect, y).len() == 4 * (y - rect.y_start) * (rect.x_end - rect.x_start),
    decreases y - rect.y_start,
{
    if y > rect.y_start {
        law_picture_size(gs, rect, y - 1);
        lemma_shown_row_len(gs, (y - 1) as u16, rect.x_start, rect.x_end as int);
        assert(4 * ((y - 1) - rect.y_start) * (rect.x_end - rect.x_start) + 4 * (rect.x_end
            - rect.x_start) == 4 * (y - rect.y_start) * (rect.x_end - rect.x_start))
            by (nonlinear_arith);
        assert(shown_rows(gs, rect, y) == shown_rows(gs, rect, y - 1) + shown_row(
            gs,
            (y - 1) as u16,
            rect.x_start,
            rect.x_end as int,
        ));
    } else {
        assert(4 * (y - rect.y_start) * (rect.x_end - rect.x_start) == 0) by (nonlinear_arith)
            requires
                y == rect.y_start,
        ;
    }
}

} // verus!
