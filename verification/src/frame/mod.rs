//! Validated frame types: borrowed pixel planes together with the
//! geometry (width, height, per-plane strides) that a constructor has
//! checked against the planes' lengths.
//!
//! Every constructor validates in a fixed order and reports the first
//! problem it meets. The shared error payloads live here; each frame
//! family has its own error enum in its module.

use vstd::prelude::*;

pub mod gray;
pub mod legacy_rgb;
pub mod nv20;
pub mod packed_rgb_32bit;
pub mod packed_rgb_float;
pub mod planar_gbr_high_bit;
pub mod samples;
pub mod semi_planar_8bit;
pub mod subsampled_high_bit_planar;

pub use gray::{
    Gray8Frame, Gray8FrameError, GrayNFrame, Gray9Frame, Gray10Frame, Gray12Frame, Gray14Frame,
    Gray9LeFrame, Gray9BeFrame, Gray10LeFrame, Gray10BeFrame, Gray12LeFrame, Gray12BeFrame,
    Gray14LeFrame, Gray14BeFrame, GrayNFrameError, Gray16Frame, Gray16LeFrame, Gray16BeFrame,
    Gray16FrameError, grayf32_geometry, Grayf32FrameError, Ya8Frame, Ya8FrameError, Ya16Frame,
    Ya16LeFrame, Ya16BeFrame, Ya16FrameError, Gray32Frame, Gray32LeFrame, Gray32BeFrame,
    Gray32FrameError, grayf16_geometry, Grayf16FrameError, yaf16_geometry, Yaf16FrameError,
    yaf32_geometry, Yaf32FrameError
};
pub use legacy_rgb::{
    LegacyRgbFrameError, Rgb565Frame, Bgr565Frame, Rgb555Frame, Bgr555Frame, Rgb444Frame,
    Bgr444Frame, PackedRgbBitFrameError, Rgb8Frame, Bgr8Frame, Rgb4ByteFrame, Bgr4ByteFrame,
    Rgb4Frame, Bgr4Frame
};
pub use nv20::{
    NV20_HIGH_MASK, Nv20Frame, Nv20LeFrame, Nv20BeFrame, Nv20FramePlane, Nv20FrameError,
    Nv20UvStrideOdd, Nv20StrayHighBits
};
pub use packed_rgb_32bit::{
    Rgb96FrameError, Rgb96Frame, Rgb96LeFrame, Rgb96BeFrame, Rgba128FrameError, Rgba128Frame,
    Rgba128LeFrame, Rgba128BeFrame
};
pub use packed_rgb_float::{
    Rgbf32FrameError, rgbf32_geometry, Rgbaf32FrameError, rgbaf32_geometry
};
pub use planar_gbr_high_bit::{
    GbrpHighBitFrame, GbrpHighBitFrameError, Gbrp9Frame, Gbrp9LeFrame, Gbrp9BeFrame,
    Gbrp10Frame, Gbrp10LeFrame, Gbrp10BeFrame, Gbrp12Frame, Gbrp12LeFrame, Gbrp12BeFrame,
    Gbrp14Frame, Gbrp14LeFrame, Gbrp14BeFrame, Gbrp16Frame, Gbrp16LeFrame, Gbrp16BeFrame,
    GbrapHighBitFrame, GbrapHighBitFrameError, Gbrap10Frame, Gbrap10LeFrame, Gbrap10BeFrame,
    Gbrap12Frame, Gbrap12LeFrame, Gbrap12BeFrame, Gbrap14Frame, Gbrap14LeFrame, Gbrap14BeFrame,
    Gbrap16Frame, Gbrap16LeFrame, Gbrap16BeFrame, GbrpMsbFrame, GbrpMsbFramePlane,
    GbrpMsbStrayLowBits, GbrpMsbFrameError, Gbrp10MsbFrame, Gbrp10MsbLeFrame, Gbrp10MsbBeFrame,
    Gbrp12MsbFrame, Gbrp12MsbLeFrame, Gbrp12MsbBeFrame, Gbrap32Frame, Gbrap32LeFrame,
    Gbrap32BeFrame, Gbrap32FrameError
};
pub use samples::{
    load_sample, SampleRule, sample_breaks, ScanArea, low_bits_mask, max_sample_value,
    first_breaking_sample
};
pub use semi_planar_8bit::{
    Nv12Frame, Nv12FrameError, Nv16Frame, Nv16FrameError, Nv24Frame, Nv24FrameError, Nv42Frame,
    Nv42FrameError, Nv21Frame, Nv21FrameError
};
pub use subsampled_high_bit_planar::{
    Yuv420pFrame16, Yuv420p9Frame, Yuv420p10Frame, Yuv420p12Frame, Yuv420p14Frame,
    Yuv420p16Frame, Yuv420p9LeFrame, Yuv420p9BeFrame, Yuv420p10LeFrame, Yuv420p10BeFrame,
    Yuv420p12LeFrame, Yuv420p12BeFrame, Yuv420p14LeFrame, Yuv420p14BeFrame, Yuv420p16LeFrame,
    Yuv420p16BeFrame, Yuv422pFrame16, Yuv422p9Frame, Yuv422p10Frame, Yuv422p12Frame,
    Yuv422p14Frame, Yuv422p16Frame, Yuv422p9LeFrame, Yuv422p9BeFrame, Yuv422p10LeFrame,
    Yuv422p10BeFrame, Yuv422p12LeFrame, Yuv422p12BeFrame, Yuv422p14LeFrame, Yuv422p14BeFrame,
    Yuv422p16LeFrame, Yuv422p16BeFrame, Yuv444pFrame16, Yuv444p9Frame, Yuv444p10Frame,
    Yuv444p12Frame, Yuv444p14Frame, Yuv444p16Frame, Yuv444p9LeFrame, Yuv444p9BeFrame,
    Yuv444p10LeFrame, Yuv444p10BeFrame, Yuv444p12LeFrame, Yuv444p12BeFrame, Yuv444p14LeFrame,
    Yuv444p14BeFrame, Yuv444p16LeFrame, Yuv444p16BeFrame, Yuv420pFrame16Error,
    Yuv420pFrame16SampleOutOfRange, Yuv420pFrame16Plane, Yuv444pMsbFramePlane,
    Yuv444pMsbStrayLowBits, Yuv444pMsbFrameError, Yuv444pMsbFrame, Yuv444p10MsbFrame,
    Yuv444p10MsbLeFrame, Yuv444p10MsbBeFrame, Yuv444p12MsbFrame, Yuv444p12MsbLeFrame,
    Yuv444p12MsbBeFrame, Yuv440pFrame16Error, Yuv440pFrame16, Yuv440p10Frame, Yuv440p12Frame,
    Yuv440p10LeFrame, Yuv440p10BeFrame, Yuv440p12LeFrame, Yuv440p12BeFrame
};












verus! {

/// The abstract content of a validated frame: its size in pixels, and
/// for each plane (in the frame's own plane order) the plane's elements
/// and its stride in elements.
pub struct FrameView<T> {
    pub width: u32,
    pub height: u32,
    pub planes: Seq<Seq<T>>,
    pub strides: Seq<u32>,
}

/// The view of a one-plane frame.
pub open spec fn one_plane<T>(width: u32, height: u32, p0: Seq<T>, s0: u32) -> FrameView<T> {
    FrameView { width, height, planes: seq![p0], strides: seq![s0] }
}

/// The view of a two-plane frame.
pub open spec fn two_planes<T>(
    width: u32,
    height: u32,
    p0: Seq<T>,
    p1: Seq<T>,
    s0: u32,
    s1: u32,
) -> FrameView<T> {
    FrameView { width, height, planes: seq![p0, p1], strides: seq![s0, s1] }
}

/// The view of a three-plane frame.
pub open spec fn three_planes<T>(
    width: u32,
    height: u32,
    p0: Seq<T>,
    p1: Seq<T>,
    p2: Seq<T>,
    s0: u32,
    s1: u32,
    s2: u32,
) -> FrameView<T> {
    FrameView { width, height, planes: seq![p0, p1, p2], strides: seq![s0, s1, s2] }
}

/// The view of a four-plane frame.
pub open spec fn four_planes<T>(
    width: u32,
    height: u32,
    p0: Seq<T>,
    p1: Seq<T>,
    p2: Seq<T>,
    p3: Seq<T>,
    s0: u32,
    s1: u32,
    s2: u32,
    s3: u32,
) -> FrameView<T> {
    FrameView { width, height, planes: seq![p0, p1, p2, p3], strides: seq![s0, s1, s2, s3] }
}

/// `width` or `height` was zero.
#[derive(Debug, Clone, Copy, PartialEq, Eq, Hash)]
pub struct ZeroDimension {
    pub width: u32,
    pub height: u32,
}

impl ZeroDimension {
    pub fn new(width: u32, height: u32) -> (r: Self)
        ensures
            r == (ZeroDimension { width, height }),
    {
        ZeroDimension { width, height }
    }

    pub fn width(&self) -> (r: u32)
        ensures
            r == self.width,
    {
        self.width
    }

    pub fn height(&self) -> (r: u32)
        ensures
            r == self.height,
    {
        self.height
    }
}

/// A stride was shorter than the row it has to hold.
#[derive(Debug, Clone, Copy, PartialEq, Eq, Hash)]
pub struct InsufficientStride {
    /// The stride that was given.
    pub stride: u32,
    /// The least stride that holds one row.
    pub min_stride: u32,
}

impl InsufficientStride {
    pub fn new(stride: u32, min_stride: u32) -> (r: Self)
        ensures
            r == (InsufficientStride { stride, min_stride }),
    {
        InsufficientStride { stride, min_stride }
    }

    pub fn stride(&self) -> (r: u32)
        ensures
            r == self.stride,
    {
        self.stride
    }

    pub fn min_stride(&self) -> (r: u32)
        ensures
            r == self.min_stride,
    {
        self.min_stride
    }
}

/// A plane held fewer elements than `stride * rows`.
#[derive(Debug, Clone, Copy, PartialEq, Eq, Hash)]
pub struct InsufficientPlane {
    /// Elements the geometry needs (`stride * rows`).
    pub expected: usize,
    /// Elements the plane holds.
    pub actual: usize,
}

impl InsufficientPlane {
    pub fn new(expected: usize, actual: usize) -> (r: Self)
        ensures
            r == (InsufficientPlane { expected, actual }),
    {
        InsufficientPlane { expected, actual }
    }

    pub fn expected(&self) -> (r: usize)
        ensures
            r == self.expected,
    {
        self.expected
    }

    pub fn actual(&self) -> (r: usize)
        ensures
            r == self.actual,
    {
        self.actual
    }
}

/// `stride * rows` does not fit in `usize`.
#[derive(Debug, Clone, Copy, PartialEq, Eq, Hash)]
pub struct GeometryOverflow {
    pub stride: u32,
    pub rows: u32,
}

impl GeometryOverflow {
    pub fn new(stride: u32, rows: u32) -> (r: Self)
        ensures
            r == (GeometryOverflow { stride, rows }),
    {
        GeometryOverflow { stride, rows }
    }

    pub fn stride(&self) -> (r: u32)
        ensures
            r == self.stride,
    {
        self.stride
    }

    pub fn rows(&self) -> (r: u32)
        ensures
            r == self.rows,
    {
        self.rows
    }
}

/// The row length in elements (`width` times the elements per pixel)
/// does not fit in `u32`.
#[derive(Debug, Clone, Copy, PartialEq, Eq, Hash)]
pub struct WidthOverflow {
    pub width: u32,
}

impl WidthOverflow {
    pub fn new(width: u32) -> (r: Self)
        ensures
            r == (WidthOverflow { width }),
    {
        WidthOverflow { width }
    }

    pub fn width(&self) -> (r: u32)
        ensures
            r == self.width,
    {
        self.width
    }
}

/// The `BITS` parameter is not a bit depth the frame type supports.
#[derive(Debug, Clone, Copy, PartialEq, Eq, Hash)]
pub struct UnsupportedBits {
    pub bits: u32,
}

impl UnsupportedBits {
    pub fn new(bits: u32) -> (r: Self)
        ensures
            r == (UnsupportedBits { bits }),
    {
        UnsupportedBits { bits }
    }

    pub fn bits(&self) -> (r: u32)
        ensures
            r == self.bits,
    {
        self.bits
    }
}

/// The alignment that a frame type asks of its width.
#[derive(Debug, Clone, Copy, PartialEq, Eq, Hash)]
pub enum WidthAlignmentRequirement {
    /// The width must be even (horizontally subsampled chroma).
    Even,
}

/// The width does not meet the frame type's alignment requirement.
#[derive(Debug, Clone, Copy, PartialEq, Eq, Hash)]
pub struct WidthAlignment {
    pub width: usize,
    pub required: WidthAlignmentRequirement,
}

impl WidthAlignment {
    /// An odd width where an even one is required.
    pub fn odd(width: usize) -> (r: Self)
        ensures
            r == (WidthAlignment { width, required: WidthAlignmentRequirement::Even }),
    {
        WidthAlignment { width, required: WidthAlignmentRequirement::Even }
    }

    pub fn width(&self) -> (r: usize)
        ensures
            r == self.width,
    {
        self.width
    }

    pub fn required(&self) -> (r: WidthAlignmentRequirement)
        ensures
            r == self.required,
    {
        self.required
    }
}

/// `stride * rows` elements can be addressed with a `usize`.
pub open spec fn plane_fits(stride: u32, rows: u32) -> bool {
    stride * rows <= usize::MAX
}

/// The least number of elements a plane of `rows` rows at `stride`
/// elements per row must hold.
pub open spec fn plane_need(stride: u32, rows: u32) -> int {
    stride * rows
}

/// Rounds `x / 2` up: the chroma extent of a 2x subsampled axis.
pub open spec fn half_up(x: u32) -> u32 {
    ((x as int + 1) / 2) as u32
}

/// The error payload for a stride below `min_stride`.
pub open spec fn short_stride(stride: u32, min_stride: u32) -> InsufficientStride {
    InsufficientStride { stride, min_stride }
}

/// The error payload for a plane of `len` elements that is shorter than
/// `rows` rows at `stride`.
pub open spec fn short_plane(stride: u32, rows: u32, len: int) -> InsufficientPlane {
    InsufficientPlane { expected: plane_need(stride, rows) as usize, actual: len as usize }
}

/// The error payload for `stride * rows` overflowing.
pub open spec fn overflow(stride: u32, rows: u32) -> GeometryOverflow {
    GeometryOverflow { stride, rows }
}

/// The error payload for an odd `width` where an even one is required.
pub open spec fn odd_width(width: u32) -> WidthAlignment {
    WidthAlignment { width: width as usize, required: WidthAlignmentRequirement::Even }
}

/// Whether a constructor accepted its input, keeping its error.
pub open spec fn outcome<F, E>(r: Result<F, E>) -> Result<(), E> {
    match r {
        Ok(_) => Ok(()),
        Err(e) => Err(e),
    }
}

/// `x.div_ceil(2)`.
pub(crate) fn div_ceil2(x: u32) -> (r: u32)
    ensures
        r == half_up(x),
{
    x / 2 + x % 2
}

/// `x & 1 != 0` tests oddness.
pub proof fn lemma_low_bit_is_parity(x: u32)
    ensures
        (x & 1 != 0) == (x % 2 == 1),
{
    assert((x & 1 != 0) == (x % 2 == 1)) by (bit_vector);
}

} // verus!
