use vstd::prelude::*;

use crate::bits::{bit_u64, bits_u64, Bits};
use crate::fix::Fix;

verus! {

/// Coordinates with 4 fraction bits.
pub type Fix124 = Fix<u16, 4>;

/// A colour input of the alpha blending formula.
#[derive(Debug, PartialEq, Eq, Structural, Clone, Copy)]
pub enum InputColor {
    Source,
    Destination,
    Zero,
    Reserved,
}

impl InputColor {
    /// The value that the field code `code` selects, if any.
    pub open spec fn spec_from_code(code: u64) -> Option<InputColor> {
        if code == 0 {
            Some(InputColor::Source)
        } else if code == 1 {
            Some(InputColor::Destination)
        } else if code == 2 {
            Some(InputColor::Zero)
        } else if code == 3 {
            Some(InputColor::Reserved)
        } else {
            None
        }
    }

    pub fn from_code(code: u64) -> (r: Option<InputColor>)
        ensures
            r == InputColor::spec_from_code(code),
    {
        match code {
            0 => Some(InputColor::Source),
            1 => Some(InputColor::Destination),
            2 => Some(InputColor::Zero),
            3 => Some(InputColor::Reserved),
            _ => None,
        }
    }
}

/// The alpha input of the alpha blending formula.
#[derive(Debug, PartialEq, Eq, Structural, Clone, Copy)]
pub enum InputAlpha {
    Source,
    Destination,
    Fixed,
    Reserved,
}

impl InputAlpha {
    /// The value that the field code `code` selects, if any.
    pub open spec fn spec_from_code(code: u64) -> Option<InputAlpha> {
        if code == 0 {
            Some(InputAlpha::Source)
        } else if code == 1 {
            Some(InputAlpha::Destination)
        } else if code == 2 {
            Some(InputAlpha::Fixed)
        } else if code == 3 {
            Some(InputAlpha::Reserved)
        } else {
            None
        }
    }

    pub fn from_code(code: u64) -> (r: Option<InputAlpha>)
        ensures
            r == InputAlpha::spec_from_code(code),
    {
        match code {
            0 => Some(InputAlpha::Source),
            1 => Some(InputAlpha::Destination),
            2 => Some(InputAlpha::Fixed),
            3 => Some(InputAlpha::Reserved),
            _ => None,
        }
    }
}

/// The storage format of the depth buffer.
#[derive(Debug, PartialEq, Eq, Structural, Clone, Copy)]
pub enum ZStorageFormat {
    Z32,
    Z24,
    Z16,
    Z16s,
}

impl ZStorageFormat {
    /// The value that the field code `code` selects, if any.
    pub open spec fn spec_from_code(code: u64) -> Option<ZStorageFormat> {
        if code == 0 {
            Some(ZStorageFormat::Z32)
        } else if code == 1 {
            Some(ZStorageFormat::Z24)
        } else if code == 2 {
            Some(ZStorageFormat::Z16)
        } else if code == 10 {
            Some(ZStorageFormat::Z16s)
        } else {
            None
        }
    }

    pub fn from_code(code: u64) -> (r: Option<ZStorageFormat>)
        ensures
            r == ZStorageFormat::spec_from_code(code),
    {
        match code {
            0 => Some(ZStorageFormat::Z32),
            1 => Some(ZStorageFormat::Z24),
            2 => Some(ZStorageFormat::Z16),
            10 => Some(ZStorageFormat::Z16s),
            _ => None,
        }
    }
}

/// The storage format of pixels in local memory.
#[derive(Debug, PartialEq, Eq, Structural, Clone, Copy)]
pub enum PixelStorageFormat {
    Ct32,
    Ct24,
    Ct16,
    Ct16s,
    Gpu24,
    T8,
    T4,
    T8h,
    T4hl,
    T4hh,
    Z32,
    Z24,
    Z16,
    Z16s,
}

impl PixelStorageFormat {
    /// The value that the field code `code` selects, if any.
    pub open spec fn spec_from_code(code: u64) -> Option<PixelStorageFormat> {
        if code == 0 {
            Some(PixelStorageFormat::Ct32)
        } else if code == 1 {
            Some(PixelStorageFormat::Ct24)
        } else if code == 2 {
            Some(PixelStorageFormat::Ct16)
        } else if code == 10 {
            Some(PixelStorageFormat::Ct16s)
        } else if code == 18 {
            Some(PixelStorageFormat::Gpu24)
        } else if code == 19 {
            Some(PixelStorageFormat::T8)
        } else if code == 20 {
            Some(PixelStorageFormat::T4)
        } else if code == 27 {
            Some(PixelStorageFormat::T8h)
        } else if code == 36 {
            Some(PixelStorageFormat::T4hl)
        } else if code == 44 {
            Some(PixelStorageFormat::T4hh)
        } else if code == 48 {
            Some(PixelStorageFormat::Z32)
        } else if code == 49 {
            Some(PixelStorageFormat::Z24)
        } else if code == 50 {
            Some(PixelStorageFormat::Z16)
        } else if code == 58 {
            Some(PixelStorageFormat::Z16s)
        } else {
            None
        }
    }

    pub fn from_code(code: u64) -> (r: Option<PixelStorageFormat>)
        ensures
            r == PixelStorageFormat::spec_from_code(code),
    {
        match code {
            0 => Some(PixelStorageFormat::Ct32),
            1 => Some(PixelStorageFormat::Ct24),
            2 => Some(PixelStorageFormat::Ct16),
            10 => Some(PixelStorageFormat::Ct16s),
            18 => Some(PixelStorageFormat::Gpu24),
            19 => Some(PixelStorageFormat::T8),
            20 => Some(PixelStorageFormat::T4),
            27 => Some(PixelStorageFormat::T8h),
            36 => Some(PixelStorageFormat::T4hl),
            44 => Some(PixelStorageFormat::T4hh),
            48 => Some(PixelStorageFormat::Z32),
            49 => Some(PixelStorageFormat::Z24),
            50 => Some(PixelStorageFormat::Z16),
            58 => Some(PixelStorageFormat::Z16s),
            _ => None,
        }
    }
}

/// The kind of primitive that vertices are drawn as.
#[derive(Debug, PartialEq, Eq, Structural, Clone, Copy)]
pub enum PrimitiveType {
    Point,
    Line,
    LineStrip,
    Triangle,
    TriangleStrip,
    TriangleFan,
    Sprite,
    SpecificationProhibited,
}

impl PrimitiveType {
    /// The value that the field code `code` selects, if any.
    pub open spec fn spec_from_code(code: u64) -> Option<PrimitiveType> {
        if code == 0 {
            Some(PrimitiveType::Point)
        } else if code == 1 {
            Some(PrimitiveType::Line)
        } else if code == 2 {
            Some(PrimitiveType::LineStrip)
        } else if code == 3 {
            Some(PrimitiveType::Triangle)
        } else if code == 4 {
            Some(PrimitiveType::TriangleStrip)
        } else if code == 5 {
            Some(PrimitiveType::TriangleFan)
        } else if code == 6 {
            Some(PrimitiveType::Sprite)
        } else if code == 7 {
            Some(PrimitiveType::SpecificationProhibited)
        } else {
            None
        }
    }

    pub fn from_code(code: u64) -> (r: Option<PrimitiveType>)
        ensures
            r == PrimitiveType::spec_from_code(code),
    {
        match code {
            0 => Some(PrimitiveType::Point),
            1 => Some(PrimitiveType::Line),
            2 => Some(PrimitiveType::LineStrip),
            3 => Some(PrimitiveType::Triangle),
            4 => Some(PrimitiveType::TriangleStrip),
            5 => Some(PrimitiveType::TriangleFan),
            6 => Some(PrimitiveType::Sprite),
            7 => Some(PrimitiveType::SpecificationProhibited),
            _ => None,
        }
    }
}

/// The order in which a transmission visits pixels.
#[derive(Debug, PartialEq, Eq, Structural, Clone, Copy)]
pub enum PixelTransmissionOrder {
    UpperLeftToLowerRight,
    LowerLeftToUpperRight,
    UpperRightToLowerLeft,
    LowerRightToUpperLeft,
}

impl PixelTransmissionOrder {
    /// The value that the field code `code` selects, if any.
    pub open spec fn spec_from_code(code: u64) -> Option<PixelTransmissionOrder> {
        if code == 0 {
            Some(PixelTransmissionOrder::UpperLeftToLowerRight)
        } else if code == 1 {
            Some(PixelTransmissionOrder::LowerLeftToUpperRight)
        } else if code == 2 {
            Some(PixelTransmissionOrder::UpperRightToLowerLeft)
        } else if code == 3 {
            Some(PixelTransmissionOrder::LowerRightToUpperLeft)
        } else {
            None
        }
    }

    pub fn from_code(code: u64) -> (r: Option<PixelTransmissionOrder>)
        ensures
            r == PixelTransmissionOrder::spec_from_code(code),
    {
        match code {
            0 => Some(PixelTransmissionOrder::UpperLeftToLowerRight),
            1 => Some(PixelTransmissionOrder::LowerLeftToUpperRight),
            2 => Some(PixelTransmissionOrder::UpperRightToLowerLeft),
            3 => Some(PixelTransmissionOrder::LowerRightToUpperLeft),
            _ => None,
        }
    }
}

/// The direction of a transmission between buffers.
#[derive(Debug, PartialEq, Eq, Structural, Clone, Copy)]
pub enum TransmissionDirection {
    HostToLocal,
    LocalToHost,
    LocalToLocal,
    Deactivated,
}

impl TransmissionDirection {
    /// The value that the field code `code` selects, if any.
    pub open spec fn spec_from_code(code: u64) -> Option<TransmissionDirection> {
        if code == 0 {
            Some(TransmissionDirection::HostToLocal)
        } else if code == 1 {
            Some(TransmissionDirection::LocalToHost)
        } else if code == 2 {
            Some(TransmissionDirection::LocalToLocal)
        } else if code == 3 {
            Some(TransmissionDirection::Deactivated)
        } else {
            None
        }
    }

    pub fn from_code(code: u64) -> (r: Option<TransmissionDirection>)
        ensures
            r == TransmissionDirection::spec_from_code(code),
    {
        match code {
            0 => Some(TransmissionDirection::HostToLocal),
            1 => Some(TransmissionDirection::LocalToHost),
            2 => Some(TransmissionDirection::LocalToLocal),
            3 => Some(TransmissionDirection::Deactivated),
            _ => None,
        }
    }
}

/// How colour values that leave 0..=255 are brought back.
#[derive(Debug, PartialEq, Eq, Structural, Clone, Copy)]
pub enum ColorClamp {
    Mask,
    Clamp,
}

impl ColorClamp {
    /// The value that the field code `code` selects, if any.
    pub open spec fn spec_from_code(code: u64) -> Option<ColorClamp> {
        if code == 0 {
            Some(ColorClamp::Mask)
        } else if code == 1 {
            Some(ColorClamp::Clamp)
        } else {
            None
        }
    }

    pub fn from_code(code: u64) -> (r: Option<ColorClamp>)
        ensures
            r == ColorClamp::spec_from_code(code),
    {
        match code {
            0 => Some(ColorClamp::Mask),
            1 => Some(ColorClamp::Clamp),
            _ => None,
        }
    }
}

/// The comparison of the alpha test.
#[derive(Debug, PartialEq, Eq, Structural, Clone, Copy)]
pub enum AlphaTest {
    Never,
    Always,
    Less,
    LessOrEqual,
    Equal,
    GreaterOrEqual,
    Greater,
    NotEqual,
}

impl AlphaTest {
    /// The value that the field code `code` selects, if any.
    pub open spec fn spec_from_code(code: u64) -> Option<AlphaTest> {
        if code == 0 {
            Some(AlphaTest::Never)
        } else if code == 1 {
            Some(AlphaTest::Always)
        } else if code == 2 {
            Some(AlphaTest::Less)
        } else if code == 3 {
            Some(AlphaTest::LessOrEqual)
        } else if code == 4 {
            Some(AlphaTest::Equal)
        } else if code == 5 {
            Some(AlphaTest::GreaterOrEqual)
        } else if code == 6 {
            Some(AlphaTest::Greater)
        } else if code == 7 {
            Some(AlphaTest::NotEqual)
        } else {
            None
        }
    }

    pub fn from_code(code: u64) -> (r: Option<AlphaTest>)
        ensures
            r == AlphaTest::spec_from_code(code),
    {
        match code {
            0 => Some(AlphaTest::Never),
            1 => Some(AlphaTest::Always),
            2 => Some(AlphaTest::Less),
            3 => Some(AlphaTest::LessOrEqual),
            4 => Some(AlphaTest::Equal),
            5 => Some(AlphaTest::GreaterOrEqual),
            6 => Some(AlphaTest::Greater),
            7 => Some(AlphaTest::NotEqual),
            _ => None,
        }
    }
}

/// What is written when the alpha test fails.
#[derive(Debug, PartialEq, Eq, Structural, Clone, Copy)]
pub enum AlphaFail {
    Keep,
    FramebufferOnly,
    DepthBufferOnly,
    RgbOnly,
}

impl AlphaFail {
    /// The value that the field code `code` selects, if any.
    pub open spec fn spec_from_code(code: u64) -> Option<AlphaFail> {
        if code == 0 {
            Some(AlphaFail::Keep)
        } else if code == 1 {
            Some(AlphaFail::FramebufferOnly)
        } else if code == 2 {
            Some(AlphaFail::DepthBufferOnly)
        } else if code == 3 {
            Some(AlphaFail::RgbOnly)
        } else {
            None
        }
    }

    pub fn from_code(code: u64) -> (r: Option<AlphaFail>)
        ensures
            r == AlphaFail::spec_from_code(code),
    {
        match code {
            0 => Some(AlphaFail::Keep),
            1 => Some(AlphaFail::FramebufferOnly),
            2 => Some(AlphaFail::DepthBufferOnly),
            3 => Some(AlphaFail::RgbOnly),
            _ => None,
        }
    }
}

/// The comparison of the depth test.
#[derive(Debug, PartialEq, Eq, Structural, Clone, Copy)]
pub enum DepthTest {
    Never,
    Always,
    GreaterOrEqual,
    Greater,
}

impl DepthTest {
    /// The value that the field code `code` selects, if any.
    pub open spec fn spec_from_code(code: u64) -> Option<DepthTest> {
        if code == 0 {
            Some(DepthTest::Never)
        } else if code == 1 {
            Some(DepthTest::Always)
        } else if code == 2 {
            Some(DepthTest::GreaterOrEqual)
        } else if code == 3 {
            Some(DepthTest::Greater)
        } else {
            None
        }
    }

    pub fn from_code(code: u64) -> (r: Option<DepthTest>)
        ensures
            r == DepthTest::spec_from_code(code),
    {
        match code {
            0 => Some(DepthTest::Never),
            1 => Some(DepthTest::Always),
            2 => Some(DepthTest::GreaterOrEqual),
            3 => Some(DepthTest::Greater),
            _ => None,
        }
    }
}

/// How the texture colour combines with the vertex colour.
#[derive(Debug, PartialEq, Eq, Structural, Clone, Copy)]
pub enum TextureFunction {
    Modulate,
    Decal,
    Highlight,
    Highlight2,
}

impl TextureFunction {
    /// The value that the field code `code` selects, if any.
    pub open spec fn spec_from_code(code: u64) -> Option<TextureFunction> {
        if code == 0 {
            Some(TextureFunction::Modulate)
        } else if code == 1 {
            Some(TextureFunction::Decal)
        } else if code == 2 {
            Some(TextureFunction::Highlight)
        } else if code == 3 {
            Some(TextureFunction::Highlight2)
        } else {
            None
        }
    }

    pub fn from_code(code: u64) -> (r: Option<TextureFunction>)
        ensures
            r == TextureFunction::spec_from_code(code),
    {
        match code {
            0 => Some(TextureFunction::Modulate),
            1 => Some(TextureFunction::Decal),
            2 => Some(TextureFunction::Highlight),
            3 => Some(TextureFunction::Highlight2),
            _ => None,
        }
    }
}

/// The storage mode of the colour lookup table.
#[derive(Debug, PartialEq, Eq, Structural, Clone, Copy)]
pub enum ClutStorageMode {
    Csm1,
    Csm2,
}

impl ClutStorageMode {
    /// The value that the field code `code` selects, if any.
    pub open spec fn spec_from_code(code: u64) -> Option<ClutStorageMode> {
        if code == 0 {
            Some(ClutStorageMode::Csm1)
        } else if code == 1 {
            Some(ClutStorageMode::Csm2)
        } else {
            None
        }
    }

    pub fn from_code(code: u64) -> (r: Option<ClutStorageMode>)
        ensures
            r == ClutStorageMode::spec_from_code(code),
    {
        match code {
            0 => Some(ClutStorageMode::Csm1),
            1 => Some(ClutStorageMode::Csm2),
            _ => None,
        }
    }
}

/// When the colour lookup table buffer is loaded.
#[derive(Debug, PartialEq, Eq, Structural, Clone, Copy)]
pub enum ClutBufferLoadControl {
    NotChanged,
    LoadFromCsa,
    LoadFromCsaCopyToCbp0,
    LoadFromCsaCopyToCbp1,
    LoadFromCbpCopyToCbp0,
    LoadFromCbpCopyToCbp1,
}

impl ClutBufferLoadControl {
    /// The value that the field code `code` selects, if any.
    pub open spec fn spec_from_code(code: u64) -> Option<ClutBufferLoadControl> {
        if code == 0 {
            Some(ClutBufferLoadControl::NotChanged)
        } else if code == 1 {
            Some(ClutBufferLoadControl::LoadFromCsa)
        } else if code == 2 {
            Some(ClutBufferLoadControl::LoadFromCsaCopyToCbp0)
        } else if code == 3 {
            Some(ClutBufferLoadControl::LoadFromCsaCopyToCbp1)
        } else if code == 4 {
            Some(ClutBufferLoadControl::LoadFromCbpCopyToCbp0)
        } else if code == 5 {
            Some(ClutBufferLoadControl::LoadFromCbpCopyToCbp1)
        } else {
            None
        }
    }

    pub fn from_code(code: u64) -> (r: Option<ClutBufferLoadControl>)
        ensures
            r == ClutBufferLoadControl::spec_from_code(code),
    {
        match code {
            0 => Some(ClutBufferLoadControl::NotChanged),
            1 => Some(ClutBufferLoadControl::LoadFromCsa),
            2 => Some(ClutBufferLoadControl::LoadFromCsaCopyToCbp0),
            3 => Some(ClutBufferLoadControl::LoadFromCsaCopyToCbp1),
            4 => Some(ClutBufferLoadControl::LoadFromCbpCopyToCbp0),
            5 => Some(ClutBufferLoadControl::LoadFromCbpCopyToCbp1),
            _ => None,
        }
    }
}

/// How colours are spread over a primitive.
#[derive(Debug, PartialEq, Eq, Structural, Clone, Copy)]
pub enum ShadingMethod {
    Flat,
    Gouraud,
}

impl ShadingMethod {
    /// The value that a one-bit field selects.
    pub open spec fn spec_from_bit(bit: bool) -> ShadingMethod {
        if bit {
            ShadingMethod::Gouraud
        } else {
            ShadingMethod::Flat
        }
    }

    pub fn from_bit(bit: bool) -> (r: ShadingMethod)
        ensures
            r == ShadingMethod::spec_from_bit(bit),
    {
        if bit {
            ShadingMethod::Gouraud
        } else {
            ShadingMethod::Flat
        }
    }
}

/// How texture coordinates are given.
#[derive(Debug, PartialEq, Eq, Structural, Clone, Copy)]
pub enum TextureCoordinateMethod {
    Stq,
    Uv,
}

impl TextureCoordinateMethod {
    /// The value that a one-bit field selects.
    pub open spec fn spec_from_bit(bit: bool) -> TextureCoordinateMethod {
        if bit {
            TextureCoordinateMethod::Uv
        } else {
            TextureCoordinateMethod::Stq
        }
    }

    pub fn from_bit(bit: bool) -> (r: TextureCoordinateMethod)
        ensures
            r == TextureCoordinateMethod::spec_from_bit(bit),
    {
        if bit {
            TextureCoordinateMethod::Uv
        } else {
            TextureCoordinateMethod::Stq
        }
    }
}

/// Which of the two register contexts a primitive uses.
#[derive(Debug, PartialEq, Eq, Structural, Clone, Copy)]
pub enum Context {
    Context1,
    Context2,
}

impl Context {
    /// The value that a one-bit field selects.
    pub open spec fn spec_from_bit(bit: bool) -> Context {
        if bit {
            Context::Context2
        } else {
            Context::Context1
        }
    }

    pub fn from_bit(bit: bool) -> (r: Context)
        ensures
            r == Context::spec_from_bit(bit),
    {
        if bit {
            Context::Context2
        } else {
            Context::Context1
        }
    }
}

/// Whether fragment values are fixed.
#[derive(Debug, PartialEq, Eq, Structural, Clone, Copy)]
pub enum FragmentValueControl {
    Unfixed,
    Fixed,
}

impl FragmentValueControl {
    /// The value that a one-bit field selects.
    pub open spec fn spec_from_bit(bit: bool) -> FragmentValueControl {
        if bit {
            FragmentValueControl::Fixed
        } else {
            FragmentValueControl::Unfixed
        }
    }

    pub fn from_bit(bit: bool) -> (r: FragmentValueControl)
        ensures
            r == FragmentValueControl::spec_from_bit(bit),
    {
        if bit {
            FragmentValueControl::Fixed
        } else {
            FragmentValueControl::Unfixed
        }
    }
}

/// Which register gives the attributes of a primitive.
#[derive(Debug, PartialEq, Eq, Structural, Clone, Copy)]
pub enum PrimitiveModeControl {
    PrimitiveMode,
    Primitive,
}

impl PrimitiveModeControl {
    /// The value that a one-bit field selects.
    pub open spec fn spec_from_bit(bit: bool) -> PrimitiveModeControl {
        if bit {
            PrimitiveModeControl::Primitive
        } else {
            PrimitiveModeControl::PrimitiveMode
        }
    }

    pub fn from_bit(bit: bool) -> (r: PrimitiveModeControl)
        ensures
            r == PrimitiveModeControl::spec_from_bit(bit),
    {
        if bit {
            PrimitiveModeControl::Primitive
        } else {
            PrimitiveModeControl::PrimitiveMode
        }
    }
}

impl Context {
    /// The index of the context's registers: 0 for the first, 1 for the second.
    pub fn index(self) -> (r: usize)
        ensures
            r == (if self == Context::Context1 {
                0usize
            } else {
                1usize
            }),
    {
        match self {
            Context::Context1 => 0,
            Context::Context2 => 1,
        }
    }
}

/// Bounds of the register fields, by their widths.
proof fn lemma_field_bounds(x: u64)
    by (bit_vector)
    ensures
        bits_u64(x, 0, 1) < 2,
        bits_u64(x, 0, 2) < 4,
        bits_u64(x, 2, 4) < 4,
        bits_u64(x, 4, 6) < 4,
        bits_u64(x, 6, 8) < 4,
        bits_u64(x, 0, 3) < 8,
        bits_u64(x, 1, 4) < 8,
        bits_u64(x, 0, 9) < 0x200,
        bits_u64(x, 0, 11) < 0x800,
        bits_u64(x, 0, 12) < 0x1000,
        bits_u64(x, 0, 14) < 0x4000,
        bits_u64(x, 0, 16) < 0x1_0000,
        bits_u64(x, 4, 12) < 0x100,
        bits_u64(x, 12, 14) < 4,
        bits_u64(x, 14, 20) < 0x40,
        bits_u64(x, 16, 22) < 0x40,
        bits_u64(x, 16, 27) < 0x800,
        bits_u64(x, 16, 30) < 0x4000,
        bits_u64(x, 16, 32) < 0x1_0000,
        bits_u64(x, 17, 19) < 4,
        bits_u64(x, 20, 26) < 0x40,
        bits_u64(x, 24, 28) < 0x10,
        bits_u64(x, 24, 30) < 0x40,
        bits_u64(x, 26, 30) < 0x10,
        bits_u64(x, 30, 34) < 0x10,
        bits_u64(x, 32, 40) < 0x100,
        bits_u64(x, 32, 43) < 0x800,
        bits_u64(x, 32, 44) < 0x1000,
        bits_u64(x, 32, 46) < 0x4000,
        bits_u64(x, 32, 48) < 0x1_0000,
        bits_u64(x, 32, 64) < 0x1_0000_0000,
        bits_u64(x, 35, 37) < 4,
        bits_u64(x, 37, 51) < 0x4000,
        bits_u64(x, 48, 54) < 0x40,
        bits_u64(x, 48, 59) < 0x800,
        bits_u64(x, 51, 55) < 0x10,
        bits_u64(x, 55, 56) < 2,
        bits_u64(x, 56, 61) < 0x20,
        bits_u64(x, 56, 62) < 0x40,
        bits_u64(x, 59, 61) < 4,
        bits_u64(x, 61, 64) < 8,
{
}

/// The frame buffer of a context (FRAME_1, FRAME_2).
#[derive(Debug, PartialEq, Eq, Structural, Clone, Copy)]
pub struct FrameBufferSettings {
    pub base_pointer: u32,
    pub width: u16,
    pub pixel_storage_format: PixelStorageFormat,
    pub drawing_mask: u32,
}

impl FrameBufferSettings {
    /// The register value selects a pixel storage format.
    pub open spec fn valid_raw(raw: u64) -> bool {
        PixelStorageFormat::spec_from_code(bits_u64(raw, 24, 30)) is Some
    }

    /// FBP (bits 0..9) in units of 8 KiB, FBW (bits 16..22) in units of 64 pixels, PSM
    /// (bits 24..30), FBMSK (bits 32..64).
    pub open spec fn spec_from_raw(raw: u64) -> FrameBufferSettings {
        FrameBufferSettings {
            base_pointer: (bits_u64(raw, 0, 9) * 8192) as u32,
            width: (bits_u64(raw, 16, 22) * 64) as u16,
            pixel_storage_format: PixelStorageFormat::spec_from_code(
                bits_u64(raw, 24, 30),
            ).unwrap(),
            drawing_mask: bits_u64(raw, 32, 64) as u32,
        }
    }

    pub fn from_raw(raw: u64) -> (r: FrameBufferSettings)
        requires
            FrameBufferSettings::valid_raw(raw),
        ensures
            r == FrameBufferSettings::spec_from_raw(raw),
    {
        proof {
            lemma_field_bounds(raw);
        }
        FrameBufferSettings {
            base_pointer: raw.bits(0, 9) as u32 * 2048 * 4,
            width: raw.bits(16, 22) as u16 * 64,
            pixel_storage_format: PixelStorageFormat::from_code(raw.bits(24, 30)).unwrap(),
            drawing_mask: raw.bits(32, 64) as u32,
        }
    }
}

/// The depth buffer of a context (ZBUF_1, ZBUF_2).
#[derive(Debug, PartialEq, Eq, Structural, Clone, Copy)]
pub struct ZBufferSettings {
    pub base_pointer: u32,
    pub storage_format: ZStorageFormat,
    pub no_update: bool,
}

impl ZBufferSettings {
    /// The register value selects a depth storage format.
    pub open spec fn valid_raw(raw: u64) -> bool {
        ZStorageFormat::spec_from_code(bits_u64(raw, 24, 28)) is Some
    }

    /// ZBP (bits 0..9) in units of 8 KiB, PSM (bits 24..28), ZMSK (bit 32).
    pub open spec fn spec_from_raw(raw: u64) -> ZBufferSettings {
        ZBufferSettings {
            base_pointer: (bits_u64(raw, 0, 9) * 8192) as u32,
            storage_format: ZStorageFormat::spec_from_code(bits_u64(raw, 24, 28)).unwrap(),
            no_update: bit_u64(raw, 32),
        }
    }

    pub fn from_raw(raw: u64) -> (r: ZBufferSettings)
        requires
            ZBufferSettings::valid_raw(raw),
        ensures
            r == ZBufferSettings::spec_from_raw(raw),
    {
        proof {
            lemma_field_bounds(raw);
        }
        ZBufferSettings {
            base_pointer: raw.bits(0, 9) as u32 * 2048 * 4,
            storage_format: ZStorageFormat::from_code(raw.bits(24, 28)).unwrap(),
            no_update: raw.bit(32),
        }
    }
}

/// The alpha blending formula of a context (ALPHA_1, ALPHA_2): (A - B) * C + D.
#[derive(Debug, PartialEq, Eq, Structural, Clone, Copy)]
pub struct Alpha {
    pub input_color_a: InputColor,
    pub input_color_b: InputColor,
    pub input_alpha_c: InputAlpha,
    pub input_color_d: InputColor,
    pub fixed: u8,
}

impl Alpha {
    /// A (bits 0..2), B (bits 2..4), C (bits 4..6), D (bits 6..8), FIX (bits 32..40).
    pub open spec fn spec_from_raw(raw: u64) -> Alpha {
        Alpha {
            input_color_a: InputColor::spec_from_code(bits_u64(raw, 0, 2)).unwrap(),
            input_color_b: InputColor::spec_from_code(bits_u64(raw, 2, 4)).unwrap(),
            input_alpha_c: InputAlpha::spec_from_code(bits_u64(raw, 4, 6)).unwrap(),
            input_color_d: InputColor::spec_from_code(bits_u64(raw, 6, 8)).unwrap(),
            fixed: bits_u64(raw, 32, 40) as u8,
        }
    }

    pub fn from_raw(raw: u64) -> (r: Alpha)
        ensures
            r == Alpha::spec_from_raw(raw),
    {
        proof {
            lemma_field_bounds(raw);
        }
        Alpha {
            input_color_a: InputColor::from_code(raw.bits(0, 2)).unwrap(),
            input_color_b: InputColor::from_code(raw.bits(2, 4)).unwrap(),
            input_alpha_c: InputAlpha::from_code(raw.bits(4, 6)).unwrap(),
            input_color_d: InputColor::from_code(raw.bits(6, 8)).unwrap(),
            fixed: raw.bits(32, 40) as u8,
        }
    }
}

/// The offset of a context's coordinates in the drawing space (XYOFFSET_1, XYOFFSET_2).
#[derive(Clone, Copy)]
pub struct XyOffset {
    pub x: Fix124,
    pub y: Fix124,
}

impl XyOffset {
    /// OFX (bits 0..16), OFY (bits 32..48).
    pub fn from_raw(raw: u64) -> (r: XyOffset)
        ensures
            r.x.0 == bits_u64(raw, 0, 16),
            r.y.0 == bits_u64(raw, 32, 48),
    {
        proof {
            lemma_field_bounds(raw);
        }
        XyOffset {
            x: Fix124::from_raw(raw.bits(0, 16) as u16),
            y: Fix124::from_raw(raw.bits(32, 48) as u16),
        }
    }
}

/// The rectangle outside of which a context draws nothing (SCISSOR_1, SCISSOR_2); both bounds
/// are inclusive.
#[derive(Debug, PartialEq, Eq, Structural, Clone, Copy)]
pub struct Scissor {
    pub x0: u16,
    pub x1: u16,
    pub y0: u16,
    pub y1: u16,
}

impl Scissor {
    /// Whether the pixel (`x`, `y`) lies in the rectangle.
    pub fn contains(&self, x: u16, y: u16) -> (r: bool)
        ensures
            r == (self.x0 <= x <= self.x1 && self.y0 <= y <= self.y1),
    {
        self.x0 <= x && x <= self.x1 && self.y0 <= y && y <= self.y1
    }

    /// SCAX0 (bits 0..11), SCAX1 (bits 16..27), SCAY0 (bits 32..43), SCAY1 (bits 48..59).
    pub open spec fn spec_from_raw(raw: u64) -> Scissor {
        Scissor {
            x0: bits_u64(raw, 0, 11) as u16,
            x1: bits_u64(raw, 16, 27) as u16,
            y0: bits_u64(raw, 32, 43) as u16,
            y1: bits_u64(raw, 48, 59) as u16,
        }
    }

    pub fn from_raw(raw: u64) -> (r: Scissor)
        ensures
            r == Scissor::spec_from_raw(raw),
    {
        proof {
            lemma_field_bounds(raw);
        }
        Scissor {
            x0: raw.bits(0, 11) as u16,
            x1: raw.bits(16, 27) as u16,
            y0: raw.bits(32, 43) as u16,
            y1: raw.bits(48, 59) as u16,
        }
    }
}

/// The drawing primitive and its attributes (PRIM).
#[derive(Debug, PartialEq, Eq, Structural, Clone, Copy)]
pub struct Primitive {
    pub type_: PrimitiveType,
    pub shading_method: ShadingMethod,
    pub texture_mapping: bool,
    pub fogging: bool,
    pub alpha_blending: bool,
    pub anti_aliasing: bool,
    pub texture_coordinate_method: TextureCoordinateMethod,
    pub context: Context,
    pub fragment_value_control: FragmentValueControl,
}

impl Primitive {
    /// PRIM (bits 0..3), IIP (bit 3), TME (bit 4), FGE (bit 5), ABE (bit 6), AA1 (bit 7),
    /// FST (bit 8), CTXT (bit 9), FIX (bit 10).
    pub open spec fn spec_from_raw(raw: u64) -> Primitive {
        Primitive {
            type_: PrimitiveType::spec_from_code(bits_u64(raw, 0, 3)).unwrap(),
            shading_method: ShadingMethod::spec_from_bit(bit_u64(raw, 3)),
            texture_mapping: bit_u64(raw, 4),
            fogging: bit_u64(raw, 5),
            alpha_blending: bit_u64(raw, 6),
            anti_aliasing: bit_u64(raw, 7),
            texture_coordinate_method: TextureCoordinateMethod::spec_from_bit(bit_u64(raw, 8)),
            context: Context::spec_from_bit(bit_u64(raw, 9)),
            fragment_value_control: FragmentValueControl::spec_from_bit(bit_u64(raw, 10)),
        }
    }

    pub fn from_raw(raw: u64) -> (r: Primitive)
        ensures
            r == Primitive::spec_from_raw(raw),
    {
        proof {
            lemma_field_bounds(raw);
        }
        Primitive {
            type_: PrimitiveType::from_code(raw.bits(0, 3)).unwrap(),
            shading_method: ShadingMethod::from_bit(raw.bit(3)),
            texture_mapping: raw.bit(4),
            fogging: raw.bit(5),
            alpha_blending: raw.bit(6),
            anti_aliasing: raw.bit(7),
            texture_coordinate_method: TextureCoordinateMethod::from_bit(raw.bit(8)),
            context: Context::from_bit(raw.bit(9)),
            fragment_value_control: FragmentValueControl::from_bit(raw.bit(10)),
        }
    }
}

/// A vertex position (XYZ2, XYZ3): coordinates with 4 fraction bits and a depth.
#[derive(Clone, Copy)]
pub struct Xyz {
    pub x: Fix124,
    pub y: Fix124,
    pub z: u32,
}

impl Xyz {
    /// X (bits 0..16), Y (bits 16..32), Z (bits 32..64).
    pub fn from_raw(raw: u64) -> (r: Xyz)
        ensures
            r.x.0 == bits_u64(raw, 0, 16),
            r.y.0 == bits_u64(raw, 16, 32),
            r.z == bits_u64(raw, 32, 64),
    {
        proof {
            lemma_field_bounds(raw);
        }
        Xyz {
            x: Fix124::from_raw(raw.bits(0, 16) as u16),
            y: Fix124::from_raw(raw.bits(16, 32) as u16),
            z: raw.bits(32, 64) as u32,
        }
    }
}

/// Texel coordinates of a vertex (UV), with 4 fraction bits.
#[derive(Clone, Copy)]
pub struct Uv {
    pub u: Fix124,
    pub v: Fix124,
}

impl Uv {
    /// U (bits 0..14), V (bits 16..30).
    pub fn from_raw(raw: u64) -> (r: Uv)
        ensures
            r.u.0 == bits_u64(raw, 0, 14),
            r.v.0 == bits_u64(raw, 16, 30),
    {
        proof {
            lemma_field_bounds(raw);
        }
        Uv {
            u: Fix124::from_raw(raw.bits(0, 14) as u16),
            v: Fix124::from_raw(raw.bits(16, 30) as u16),
        }
    }
}

/// The source and destination buffers of a transmission (BITBLTBUF).
#[derive(Debug, PartialEq, Eq, Structural, Clone, Copy)]
pub struct BitBlitBuffer {
    pub source_base_pointer: u32,
    pub source_width: u16,
    pub source_pixel_storage_format: PixelStorageFormat,
    pub destination_base_pointer: u32,
    pub destination_width: u16,
    pub destination_pixel_storage_format: PixelStorageFormat,
}

impl BitBlitBuffer {
    /// Both storage format fields select a pixel storage format.
    pub open spec fn valid_raw(raw: u64) -> bool {
        &&& PixelStorageFormat::spec_from_code(bits_u64(raw, 24, 30)) is Some
        &&& PixelStorageFormat::spec_from_code(bits_u64(raw, 56, 62)) is Some
    }

    /// SBP (bits 0..14) in units of 256 bytes, SBW (bits 16..22) in units of 64 pixels, SPSM
    /// (bits 24..30); DBP (bits 32..46), DBW (bits 48..54), DPSM (bits 56..62) likewise.
    pub open spec fn spec_from_raw(raw: u64) -> BitBlitBuffer {
        BitBlitBuffer {
            source_base_pointer: (bits_u64(raw, 0, 14) * 256) as u32,
            source_width: (bits_u64(raw, 16, 22) * 64) as u16,
            source_pixel_storage_format: PixelStorageFormat::spec_from_code(
                bits_u64(raw, 24, 30),
            ).unwrap(),
            destination_base_pointer: (bits_u64(raw, 32, 46) * 256) as u32,
            destination_width: (bits_u64(raw, 48, 54) * 64) as u16,
            destination_pixel_storage_format: PixelStorageFormat::spec_from_code(
                bits_u64(raw, 56, 62),
            ).unwrap(),
        }
    }

    pub fn from_raw(value: u64) -> (r: BitBlitBuffer)
        requires
            BitBlitBuffer::valid_raw(value),
        ensures
            r == BitBlitBuffer::spec_from_raw(value),
    {
        proof {
            lemma_field_bounds(value);
        }
        BitBlitBuffer {
            source_base_pointer: value.bits(0, 14) as u32 * 64 * 4,
            source_width: value.bits(16, 22) as u16 * 64,
            source_pixel_storage_format: PixelStorageFormat::from_code(value.bits(24, 30)).unwrap(),
            destination_base_pointer: value.bits(32, 46) as u32 * 64 * 4,
            destination_width: value.bits(48, 54) as u16 * 64,
            destination_pixel_storage_format: PixelStorageFormat::from_code(
                value.bits(56, 62),
            ).unwrap(),
        }
    }
}

/// The corners where a transmission starts in the source and destination buffers (TRXPOS).
#[derive(Debug, PartialEq, Eq, Structural, Clone, Copy)]
pub struct TransmissionPosition {
    pub source_x: u16,
    pub source_y: u16,
    pub destination_x: u16,
    pub destination_y: u16,
    pub order: PixelTransmissionOrder,
}

impl TransmissionPosition {
    /// SSAX (bits 0..11), SSAY (bits 16..27), DSAX (bits 32..43), DSAY (bits 48..59), DIR
    /// (bits 59..61).
    pub open spec fn spec_from_raw(raw: u64) -> TransmissionPosition {
        TransmissionPosition {
            source_x: bits_u64(raw, 0, 11) as u16,
            source_y: bits_u64(raw, 16, 27) as u16,
            destination_x: bits_u64(raw, 32, 43) as u16,
            destination_y: bits_u64(raw, 48, 59) as u16,
            order: PixelTransmissionOrder::spec_from_code(bits_u64(raw, 59, 61)).unwrap(),
        }
    }

    pub fn from_raw(raw: u64) -> (r: TransmissionPosition)
        ensures
            r == TransmissionPosition::spec_from_raw(raw),
    {
        proof {
            lemma_field_bounds(raw);
        }
        TransmissionPosition {
            source_x: raw.bits(0, 11) as u16,
            source_y: raw.bits(16, 27) as u16,
            destination_x: raw.bits(32, 43) as u16,
            destination_y: raw.bits(48, 59) as u16,
            order: PixelTransmissionOrder::from_code(raw.bits(59, 61)).unwrap(),
        }
    }
}

/// The size in pixels of a transmission (TRXREG).
#[derive(Debug, PartialEq, Eq, Structural, Clone, Copy)]
pub struct TransmissionSize {
    pub width: u16,
    pub height: u16,
}

impl TransmissionSize {
    /// RRW (bits 0..12), RRH (bits 32..44).
    pub open spec fn spec_from_raw(raw: u64) -> TransmissionSize {
        TransmissionSize { width: bits_u64(raw, 0, 12) as u16, height: bits_u64(raw, 32, 44) as u16 }
    }

    pub fn from_raw(raw: u64) -> (r: TransmissionSize)
        ensures
            r == TransmissionSize::spec_from_raw(raw),
    {
        proof {
            lemma_field_bounds(raw);
        }
        TransmissionSize { width: raw.bits(0, 12) as u16, height: raw.bits(32, 44) as u16 }
    }
}

/// Whether dithering is on (DTHE).
#[derive(Debug, PartialEq, Eq, Structural, Clone, Copy)]
pub struct DitherControl {
    pub enabled: bool,
}

impl DitherControl {
    /// DTHE (bit 0).
    pub fn from_raw(raw: u64) -> (r: DitherControl)
        ensures
            r.enabled == bit_u64(raw, 0),
    {
        DitherControl { enabled: raw.bit(0) }
    }
}

impl ColorClamp {
    /// CLAMP (bit 0).
    pub fn from_raw(raw: u64) -> (r: ColorClamp)
        ensures
            r == ColorClamp::spec_from_code(bits_u64(raw, 0, 1)).unwrap(),
    {
        proof {
            lemma_field_bounds(raw);
        }
        ColorClamp::from_code(raw.bits(0, 1)).unwrap()
    }
}

/// The pixel tests of a context (TEST_1, TEST_2).
#[derive(Debug, PartialEq, Eq, Structural, Clone, Copy)]
pub struct PixelTest {
    pub alpha_test: AlphaTest,
    pub alpha_reference: u8,
    pub alpha_fail: AlphaFail,
    pub destination_alpha_test: bool,
    pub destination_alpha_mode: bool,
    pub depth_test: DepthTest,
}

impl PixelTest {
    /// ATE (bit 0) and ATST (bits 1..4): the alpha test, which always passes when ATE is
    /// clear; AREF (bits 4..12), AFAIL (bits 12..14), DATE (bit 14), DATM (bit 15); ZTE (bit
    /// 16) and ZTST (bits 17..19): the depth test, which always passes when ZTE is clear.
    pub open spec fn spec_from_raw(raw: u64) -> PixelTest {
        PixelTest {
            alpha_test: if bit_u64(raw, 0) {
                AlphaTest::spec_from_code(bits_u64(raw, 1, 4)).unwrap()
            } else {
                AlphaTest::Always
            },
            alpha_reference: bits_u64(raw, 4, 12) as u8,
            alpha_fail: AlphaFail::spec_from_code(bits_u64(raw, 12, 14)).unwrap(),
            destination_alpha_test: bit_u64(raw, 14),
            destination_alpha_mode: bit_u64(raw, 15),
            depth_test: if bit_u64(raw, 16) {
                DepthTest::spec_from_code(bits_u64(raw, 17, 19)).unwrap()
            } else {
                DepthTest::Always
            },
        }
    }

    pub fn from_raw(raw: u64) -> (r: PixelTest)
        ensures
            r == PixelTest::spec_from_raw(raw),
    {
        proof {
            lemma_field_bounds(raw);
        }
        PixelTest {
            alpha_test: if raw.bit(0) {
                AlphaTest::from_code(raw.bits(1, 4)).unwrap()
            } else {
                AlphaTest::Always
            },
            alpha_reference: raw.bits(4, 12) as u8,
            alpha_fail: AlphaFail::from_code(raw.bits(12, 14)).unwrap(),
            destination_alpha_test: raw.bit(14),
            destination_alpha_mode: raw.bit(15),
            depth_test: if raw.bit(16) {
                DepthTest::from_code(raw.bits(17, 19)).unwrap()
            } else {
                DepthTest::Always
            },
        }
    }
}

/// The texture of a context and its colour lookup table (TEX0_1, TEX0_2).
#[derive(Debug, PartialEq, Eq, Structural, Clone, Copy)]
pub struct Texture {
    pub base_pointer: u32,
    pub buffer_width: u16,
    pub pixel_storage_format: PixelStorageFormat,
    pub width: u16,
    pub height: u16,
    pub has_alpha: bool,
    pub function: TextureFunction,
    pub clut_buffer_base_pointer: u32,
    pub clut_pixel_storage_format: PixelStorageFormat,
    pub clut_storage_mode: ClutStorageMode,
    pub clut_entry_offset: u16,
    pub clut_buffer_load_control: ClutBufferLoadControl,
}

impl Texture {
    /// The register value selects a texture format, a lookup table format and a load
    /// control.
    pub open spec fn valid_raw(raw: u64) -> bool {
        &&& PixelStorageFormat::spec_from_code(bits_u64(raw, 20, 26)) is Some
        &&& PixelStorageFormat::spec_from_code(bits_u64(raw, 51, 55)) is Some
        &&& ClutBufferLoadControl::spec_from_code(bits_u64(raw, 61, 64)) is Some
    }

    /// TBP0 (bits 0..14) in units of 256 bytes, TBW (bits 14..20) in units of 64 pixels, PSM
    /// (bits 20..26), TW and TH (bits 26..30, 30..34) as powers of two, TCC (bit 34), TFX
    /// (bits 35..37), CBP (bits 37..51) in units of 256 bytes, CPSM (bits 51..55), CSM (bit
    /// 55), CSA (bits 56..61) in units of 16 entries, CLD (bits 61..64).
    pub open spec fn spec_from_raw(raw: u64) -> Texture {
        Texture {
            base_pointer: (bits_u64(raw, 0, 14) * 256) as u32,
            buffer_width: (bits_u64(raw, 14, 20) * 64) as u16,
            pixel_storage_format: PixelStorageFormat::spec_from_code(
                bits_u64(raw, 20, 26),
            ).unwrap(),
            width: vstd::arithmetic::power2::pow2(bits_u64(raw, 26, 30) as nat) as u16,
            height: vstd::arithmetic::power2::pow2(bits_u64(raw, 30, 34) as nat) as u16,
            has_alpha: bit_u64(raw, 34),
            function: TextureFunction::spec_from_code(bits_u64(raw, 35, 37)).unwrap(),
            clut_buffer_base_pointer: (bits_u64(raw, 37, 51) * 256) as u32,
            clut_pixel_storage_format: PixelStorageFormat::spec_from_code(
                bits_u64(raw, 51, 55),
            ).unwrap(),
            clut_storage_mode: ClutStorageMode::spec_from_code(bits_u64(raw, 55, 56)).unwrap(),
            clut_entry_offset: (bits_u64(raw, 56, 61) * 16) as u16,
            clut_buffer_load_control: ClutBufferLoadControl::spec_from_code(
                bits_u64(raw, 61, 64),
            ).unwrap(),
        }
    }

    pub fn from_raw(raw: u64) -> (r: Texture)
        requires
            Texture::valid_raw(raw),
        ensures
            r == Texture::spec_from_raw(raw),
    {
        proof {
            lemma_field_bounds(raw);
        }
        let width_log2 = raw.bits(26, 30) as u16;
        let height_log2 = raw.bits(30, 34) as u16;
        Texture {
            base_pointer: raw.bits(0, 14) as u32 * 64 * 4,
            buffer_width: raw.bits(14, 20) as u16 * 64,
            pixel_storage_format: PixelStorageFormat::from_code(raw.bits(20, 26)).unwrap(),
            width: power_of_two(width_log2),
            height: power_of_two(height_log2),
            has_alpha: raw.bit(34),
            function: TextureFunction::from_code(raw.bits(35, 37)).unwrap(),
            clut_buffer_base_pointer: raw.bits(37, 51) as u32 * 64 * 4,
            clut_pixel_storage_format: PixelStorageFormat::from_code(raw.bits(51, 55)).unwrap(),
            clut_storage_mode: ClutStorageMode::from_code(raw.bits(55, 56)).unwrap(),
            clut_entry_offset: raw.bits(56, 61) as u16 * 16,
            clut_buffer_load_control: ClutBufferLoadControl::from_code(raw.bits(61, 64)).unwrap(),
        }
    }

    /// Takes the lookup table settings of `new`, and its pixel storage format (TEX2_1,
    /// TEX2_2).
    pub fn update_clut_info(&mut self, new: Texture)
        ensures
            *final(self) == (Texture {
                pixel_storage_format: new.pixel_storage_format,
                clut_buffer_base_pointer: new.clut_buffer_base_pointer,
                clut_pixel_storage_format: new.clut_pixel_storage_format,
                clut_storage_mode: new.clut_storage_mode,
                clut_entry_offset: new.clut_entry_offset,
                clut_buffer_load_control: new.clut_buffer_load_control,
                ..*old(self)
            }),
    {
        self.pixel_storage_format = new.pixel_storage_format;
        self.clut_buffer_base_pointer = new.clut_buffer_base_pointer;
        self.clut_pixel_storage_format = new.clut_pixel_storage_format;
        self.clut_storage_mode = new.clut_storage_mode;
        self.clut_entry_offset = new.clut_entry_offset;
        self.clut_buffer_load_control = new.clut_buffer_load_control;
    }
}

/// 2 to the power `exponent`, for exponents below 16.
fn power_of_two(exponent: u16) -> (r: u16)
    requires
        exponent < 16,
    ensures
        r == vstd::arithmetic::power2::pow2(exponent as nat),
{
    let mut result: u16 = 1;
    let mut i: u16 = 0;
    proof {
        vstd::arithmetic::power2::lemma2_to64();
    }
    while i < exponent
        invariant
            i <= exponent < 16,
            result == vstd::arithmetic::power2::pow2(i as nat),
        decreases exponent - i,
    {
        proof {
            vstd::arithmetic::power2::lemma_pow2_unfold((i + 1) as nat);
            vstd::arithmetic::power2::lemma_pow2_strictly_increases((i + 1) as nat, 16);
            vstd::arithmetic::power2::lemma2_to64();
        }
        result = result * 2;
        i += 1;
    }
    result
}

/// The registers that each of the two drawing contexts has.
#[derive(Clone, Copy)]
pub struct ContextualRegisters {
    pub xy_offset: XyOffset,
    pub scissor: Scissor,
    pub frame_buffer_settings: FrameBufferSettings,
    pub pixel_test: PixelTest,
    pub texture: Texture,
    pub z_buffer_settings: ZBufferSettings,
    pub alpha: Alpha,
}


/// A vertex colour and the Q texture coordinate (RGBAQ); Q is kept as the bits of the
/// single-precision number.
#[derive(Debug, PartialEq, Eq, Structural, Clone, Copy)]
pub struct Rgbaq {
    pub r: u8,
    pub g: u8,
    pub b: u8,
    pub a: u8,
    pub q: u32,
}

proof fn lemma_rgbaq_fields(x: u64)
    by (bit_vector)
    ensures
        bits_u64(x, 0, 8) < 0x100,
        bits_u64(x, 8, 16) < 0x100,
        bits_u64(x, 16, 24) < 0x100,
        bits_u64(x, 24, 32) < 0x100,
        bits_u64(x, 56, 64) < 0x100,
        bits_u64(x, 32, 56) < 0x100_0000,
{
}

impl Rgbaq {
    /// R (bits 0..8), G (bits 8..16), B (bits 16..24), A (bits 24..32), Q (bits 32..64).
    pub open spec fn spec_from_raw(raw: u64) -> Rgbaq {
        Rgbaq {
            r: bits_u64(raw, 0, 8) as u8,
            g: bits_u64(raw, 8, 16) as u8,
            b: bits_u64(raw, 16, 24) as u8,
            a: bits_u64(raw, 24, 32) as u8,
            q: bits_u64(raw, 32, 64) as u32,
        }
    }

    pub fn from_raw(raw: u64) -> (r: Rgbaq)
        ensures
            r == Rgbaq::spec_from_raw(raw),
    {
        proof {
            lemma_rgbaq_fields(raw);
            lemma_field_bounds(raw);
        }
        Rgbaq {
            r: raw.bits(0, 8) as u8,
            g: raw.bits(8, 16) as u8,
            b: raw.bits(16, 24) as u8,
            a: raw.bits(24, 32) as u8,
            q: raw.bits(32, 64) as u32,
        }
    }
}

/// The general registers of the graphics synthesizer, which drawing commands write.
#[derive(Clone, Copy)]
pub struct Registers {
    pub primitive: Primitive,
    pub rgbaq: Rgbaq,
    pub xyz: Xyz,
    pub uv: Uv,
    pub fog: u8,
    pub bit_blit_buffer: BitBlitBuffer,
    pub transmission_position: TransmissionPosition,
    pub transmission_size: TransmissionSize,
    pub transmission_direction: TransmissionDirection,
    pub dither_control: DitherControl,
    pub color_clamp: ColorClamp,
    pub primitive_mode_control: PrimitiveModeControl,
    pub transmission_pixel: u32,
    pub contextual: [ContextualRegisters; 2],
}

impl Texture {
    /// Every field zero, with the first value of each enumerated field.
    pub fn new() -> (r: Texture)
        ensures
            r == (Texture {
                base_pointer: 0,
                buffer_width: 0,
                pixel_storage_format: PixelStorageFormat::Ct32,
                width: 0,
                height: 0,
                has_alpha: false,
                function: TextureFunction::Modulate,
                clut_buffer_base_pointer: 0,
                clut_pixel_storage_format: PixelStorageFormat::Ct32,
                clut_storage_mode: ClutStorageMode::Csm1,
                clut_entry_offset: 0,
                clut_buffer_load_control: ClutBufferLoadControl::NotChanged,
            }),
    {
        Texture {
            base_pointer: 0,
            buffer_width: 0,
            pixel_storage_format: PixelStorageFormat::Ct32,
            width: 0,
            height: 0,
            has_alpha: false,
            function: TextureFunction::Modulate,
            clut_buffer_base_pointer: 0,
            clut_pixel_storage_format: PixelStorageFormat::Ct32,
            clut_storage_mode: ClutStorageMode::Csm1,
            clut_entry_offset: 0,
            clut_buffer_load_control: ClutBufferLoadControl::NotChanged,
        }
    }
}

impl ContextualRegisters {
    /// Every register zero, with the first value of each field.
    pub fn new() -> (r: ContextualRegisters)
        ensures
            r.pixel_test.depth_test == DepthTest::Always,
            r.frame_buffer_settings.pixel_storage_format == PixelStorageFormat::Ct32,
            r.z_buffer_settings.storage_format == ZStorageFormat::Z32,
    {
        ContextualRegisters {
            xy_offset: XyOffset { x: Fix124::from_raw(0), y: Fix124::from_raw(0) },
            scissor: Scissor { x0: 0, x1: 0, y0: 0, y1: 0 },
            frame_buffer_settings: FrameBufferSettings {
                base_pointer: 0,
                width: 0,
                pixel_storage_format: PixelStorageFormat::Ct32,
                drawing_mask: 0,
            },
            pixel_test: PixelTest {
                alpha_test: AlphaTest::Always,
                alpha_reference: 0,
                alpha_fail: AlphaFail::Keep,
                destination_alpha_test: false,
                destination_alpha_mode: false,
                depth_test: DepthTest::Always,
            },
            texture: Texture::new(),
            z_buffer_settings: ZBufferSettings {
                base_pointer: 0,
                storage_format: ZStorageFormat::Z32,
                no_update: false,
            },
            alpha: Alpha {
                input_color_a: InputColor::Source,
                input_color_b: InputColor::Source,
                input_alpha_c: InputAlpha::Source,
                input_color_d: InputColor::Source,
                fixed: 0,
            },
        }
    }
}

impl Registers {
    /// Every register zero, with the first value of each field.
    pub fn new() -> (r: Registers)
        ensures
            r.transmission_direction == TransmissionDirection::HostToLocal,
            r.transmission_pixel == 0,
    {
        Registers {
            primitive: Primitive::from_raw(0),
            rgbaq: Rgbaq { r: 0, g: 0, b: 0, a: 0, q: 0 },
            xyz: Xyz { x: Fix124::from_raw(0), y: Fix124::from_raw(0), z: 0 },
            uv: Uv { u: Fix124::from_raw(0), v: Fix124::from_raw(0) },
            fog: 0,
            bit_blit_buffer: BitBlitBuffer {
                source_base_pointer: 0,
                source_width: 0,
                source_pixel_storage_format: PixelStorageFormat::Ct32,
                destination_base_pointer: 0,
                destination_width: 0,
                destination_pixel_storage_format: PixelStorageFormat::Ct32,
            },
            transmission_position: TransmissionPosition {
                source_x: 0,
                source_y: 0,
                destination_x: 0,
                destination_y: 0,
                order: PixelTransmissionOrder::UpperLeftToLowerRight,
            },
            transmission_size: TransmissionSize { width: 0, height: 0 },
            transmission_direction: TransmissionDirection::HostToLocal,
            dither_control: DitherControl { enabled: false },
            color_clamp: ColorClamp::Mask,
            primitive_mode_control: PrimitiveModeControl::PrimitiveMode,
            transmission_pixel: 0,
            contextual: [ContextualRegisters::new(), ContextualRegisters::new()],
        }
    }
}

/// A register of the graphics synthesizer that drawing commands write, by its address.
#[derive(Debug, PartialEq, Eq, Structural, Clone, Copy)]
pub enum Register {
    Primitive,
    Rgbaq,
    St,
    Uv,
    Xyzf2,
    Xyz2,
    Texture1,
    Texture2,
    Clamp1,
    Clamp2,
    Fog,
    Xyzf3,
    Xyz3,
    TextureMipMap1,
    TextureMipMap2,
    TextureClut1,
    TextureClut2,
    XyOffset1,
    XyOffset2,
    PrimitiveModeControl,
    PrimitiveMode,
    TexClut,
    ScanMask,
    MipMap1_1,
    MipMap1_2,
    MipMap2_1,
    MipMap2_2,
    TextureAlpha,
    FogColor,
    TextureFlush,
    Scissor1,
    Scissor2,
    Alpha1,
    Alpha2,
    DitherMatrix,
    DitherControl,
    ColorClamp,
    PixelTest1,
    PixelTest2,
    PixelAlphaBlending,
    FrameBufferAlpha1,
    FrameBufferAlpha2,
    FrameBuffer1,
    FrameBuffer2,
    ZBuffer1,
    ZBuffer2,
    BitBlitBuffer,
    TransmissionPosition,
    TransmissionSize,
    TransmissionActivation,
    TransmissionData,
    SignalSignal,
    SignalFinish,
    SignalLabel,
}

impl Register {
    /// The register at address `code`, if there is one.
    pub open spec fn spec_from_code(code: u64) -> Option<Register> {
        if code == 0x00 {
            Some(Register::Primitive)
        } else if code == 0x01 {
            Some(Register::Rgbaq)
        } else if code == 0x02 {
            Some(Register::St)
        } else if code == 0x03 {
            Some(Register::Uv)
        } else if code == 0x04 {
            Some(Register::Xyzf2)
        } else if code == 0x05 {
            Some(Register::Xyz2)
        } else if code == 0x06 {
            Some(Register::Texture1)
        } else if code == 0x07 {
            Some(Register::Texture2)
        } else if code == 0x08 {
            Some(Register::Clamp1)
        } else if code == 0x09 {
            Some(Register::Clamp2)
        } else if code == 0x0a {
            Some(Register::Fog)
        } else if code == 0x0c {
            Some(Register::Xyzf3)
        } else if code == 0x0d {
            Some(Register::Xyz3)
        } else if code == 0x14 {
            Some(Register::TextureMipMap1)
        } else if code == 0x15 {
            Some(Register::TextureMipMap2)
        } else if code == 0x16 {
            Some(Register::TextureClut1)
        } else if code == 0x17 {
            Some(Register::TextureClut2)
        } else if code == 0x18 {
            Some(Register::XyOffset1)
        } else if code == 0x19 {
            Some(Register::XyOffset2)
        } else if code == 0x1a {
            Some(Register::PrimitiveModeControl)
        } else if code == 0x1b {
            Some(Register::PrimitiveMode)
        } else if code == 0x1c {
            Some(Register::TexClut)
        } else if code == 0x22 {
            Some(Register::ScanMask)
        } else if code == 0x34 {
            Some(Register::MipMap1_1)
        } else if code == 0x35 {
            Some(Register::MipMap1_2)
        } else if code == 0x36 {
            Some(Register::MipMap2_1)
        } else if code == 0x37 {
            Some(Register::MipMap2_2)
        } else if code == 0x3b {
            Some(Register::TextureAlpha)
        } else if code == 0x3d {
            Some(Register::FogColor)
        } else if code == 0x3f {
            Some(Register::TextureFlush)
        } else if code == 0x40 {
            Some(Register::Scissor1)
        } else if code == 0x41 {
            Some(Register::Scissor2)
        } else if code == 0x42 {
            Some(Register::Alpha1)
        } else if code == 0x43 {
            Some(Register::Alpha2)
        } else if code == 0x44 {
            Some(Register::DitherMatrix)
        } else if code == 0x45 {
            Some(Register::DitherControl)
        } else if code == 0x46 {
            Some(Register::ColorClamp)
        } else if code == 0x47 {
            Some(Register::PixelTest1)
        } else if code == 0x48 {
            Some(Register::PixelTest2)
        } else if code == 0x49 {
            Some(Register::PixelAlphaBlending)
        } else if code == 0x4a {
            Some(Register::FrameBufferAlpha1)
        } else if code == 0x4b {
            Some(Register::FrameBufferAlpha2)
        } else if code == 0x4c {
            Some(Register::FrameBuffer1)
        } else if code == 0x4d {
            Some(Register::FrameBuffer2)
        } else if code == 0x4e {
            Some(Register::ZBuffer1)
        } else if code == 0x4f {
            Some(Register::ZBuffer2)
        } else if code == 0x50 {
            Some(Register::BitBlitBuffer)
        } else if code == 0x51 {
            Some(Register::TransmissionPosition)
        } else if code == 0x52 {
            Some(Register::TransmissionSize)
        } else if code == 0x53 {
            Some(Register::TransmissionActivation)
        } else if code == 0x54 {
            Some(Register::TransmissionData)
        } else if code == 0x60 {
            Some(Register::SignalSignal)
        } else if code == 0x61 {
            Some(Register::SignalFinish)
        } else if code == 0x62 {
            Some(Register::SignalLabel)
        } else {
            None
        }
    }

    pub fn from_code(code: u64) -> (r: Option<Register>)
        ensures
            r == Register::spec_from_code(code),
    {
        match code {
            0x00 => Some(Register::Primitive),
            0x01 => Some(Register::Rgbaq),
            0x02 => Some(Register::St),
            0x03 => Some(Register::Uv),
            0x04 => Some(Register::Xyzf2),
            0x05 => Some(Register::Xyz2),
            0x06 => Some(Register::Texture1),
            0x07 => Some(Register::Texture2),
            0x08 => Some(Register::Clamp1),
            0x09 => Some(Register::Clamp2),
            0x0a => Some(Register::Fog),
            0x0c => Some(Register::Xyzf3),
            0x0d => Some(Register::Xyz3),
            0x14 => Some(Register::TextureMipMap1),
            0x15 => Some(Register::TextureMipMap2),
            0x16 => Some(Register::TextureClut1),
            0x17 => Some(Register::TextureClut2),
            0x18 => Some(Register::XyOffset1),
            0x19 => Some(Register::XyOffset2),
            0x1a => Some(Register::PrimitiveModeControl),
            0x1b => Some(Register::PrimitiveMode),
            0x1c => Some(Register::TexClut),
            0x22 => Some(Register::ScanMask),
            0x34 => Some(Register::MipMap1_1),
            0x35 => Some(Register::MipMap1_2),
            0x36 => Some(Register::MipMap2_1),
            0x37 => Some(Register::MipMap2_2),
            0x3b => Some(Register::TextureAlpha),
            0x3d => Some(Register::FogColor),
            0x3f => Some(Register::TextureFlush),
            0x40 => Some(Register::Scissor1),
            0x41 => Some(Register::Scissor2),
            0x42 => Some(Register::Alpha1),
            0x43 => Some(Register::Alpha2),
            0x44 => Some(Register::DitherMatrix),
            0x45 => Some(Register::DitherControl),
            0x46 => Some(Register::ColorClamp),
            0x47 => Some(Register::PixelTest1),
            0x48 => Some(Register::PixelTest2),
            0x49 => Some(Register::PixelAlphaBlending),
            0x4a => Some(Register::FrameBufferAlpha1),
            0x4b => Some(Register::FrameBufferAlpha2),
            0x4c => Some(Register::FrameBuffer1),
            0x4d => Some(Register::FrameBuffer2),
            0x4e => Some(Register::ZBuffer1),
            0x4f => Some(Register::ZBuffer2),
            0x50 => Some(Register::BitBlitBuffer),
            0x51 => Some(Register::TransmissionPosition),
            0x52 => Some(Register::TransmissionSize),
            0x53 => Some(Register::TransmissionActivation),
            0x54 => Some(Register::TransmissionData),
            0x60 => Some(Register::SignalSignal),
            0x61 => Some(Register::SignalFinish),
            0x62 => Some(Register::SignalLabel),
            _ => None,
        }
    }
}

} // verus!
