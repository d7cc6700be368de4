//! Validated gray-scale frames, all with a single plane: `Gray8Frame`,
//! `GrayNFrame` (9/10/12/14 bits), `Gray16Frame`, `Gray32Frame`, and
//! the gray + alpha packed frames `Ya8Frame` and `Ya16Frame`.
//!
//! The float frames (`Grayf16Frame`, `Grayf32Frame`, `Yaf16Frame`,
//! `Yaf32Frame`) hold floating-point planes and stand outside the verified
//! library; their geometry is validated here, by `grayf16_geometry`,
//! `grayf32_geometry`, `yaf16_geometry` and `yaf32_geometry`, in the
//! order and with the errors of their constructors.
//!
//! Frames with a `BE` parameter record the byte order of their stored
//! samples (`false`: little-endian, matching FFmpeg's `*le` formats).
//! Strides count elements of the plane's element type, not bytes.

use super::{
    one_plane, outcome, overflow, plane_fits, plane_need, short_plane, short_stride, FrameView,
    GeometryOverflow, InsufficientPlane, InsufficientStride, UnsupportedBits, WidthOverflow,
    ZeroDimension,
};
use vstd::prelude::*;

verus! {

/// What `Gray8Frame::try_new` decides.
pub open spec fn gray8_check(
    y_len: int,
    width: u32,
    height: u32,
    y_stride: u32,
) -> Result<(), Gray8FrameError> {
    if width == 0 || height == 0 {
        Err(Gray8FrameError::ZeroDimension(ZeroDimension { width, height }))
    } else if y_stride < width {
        Err(Gray8FrameError::InsufficientYStride(short_stride(y_stride, width)))
    } else if !plane_fits(y_stride, height) {
        Err(Gray8FrameError::GeometryOverflow(overflow(y_stride, height)))
    } else if y_len < plane_need(y_stride, height) {
        Err(Gray8FrameError::InsufficientYPlane(short_plane(y_stride, height, y_len)))
    } else {
        Ok(())
    }
}

/// The inputs that `Gray8Frame::try_new` accepts, stated directly: non-zero
/// dimensions, each stride covering a row of its plane, each plane
/// holding its rows; a rejection reports the offending values.
pub proof fn lemma_gray8_accepts(y_len: int, width: u32, height: u32, y_stride: u32)
    ensures
        ({
            let check = gray8_check(y_len, width, height, y_stride);
            &&& check is Ok <==> {
                &&& width > 0 && height > 0
                &&& y_stride >= width
                &&& y_stride * height <= usize::MAX
                &&& y_len >= y_stride * height
            }
            &&& check matches Err(Gray8FrameError::ZeroDimension(e)) ==> {
                &&& e.width == width
                &&& e.height == height
            }
            &&& check matches Err(Gray8FrameError::InsufficientYStride(e)) ==> {
                &&& e.stride == y_stride
                &&& e.min_stride == width
                &&& y_stride < width
            }
            &&& check matches Err(Gray8FrameError::InsufficientYPlane(e)) ==> {
                &&& e.expected == y_stride * height
                &&& y_len < y_stride * height
            }
        }),
{
}

/// A validated 8-bit gray-scale frame (FFmpeg `gray`): one `u8` plane with
/// `y_stride >= width` and at least `y_stride * height` bytes.
#[derive(Debug, Clone, Copy)]
pub struct Gray8Frame<'a> {
    y: &'a [u8],
    width: u32,
    height: u32,
    y_stride: u32,
}

impl<'a> View for Gray8Frame<'a> {
    type V = FrameView<u8>;

    closed spec fn view(&self) -> FrameView<u8> {
        one_plane(self.width, self.height, self.y@, self.y_stride)
    }
}

/// `v` is the view of a `Gray8Frame` that `try_new` accepts: every frame
/// of the type has such a view.
pub open spec fn gray8_valid(v: FrameView<u8>) -> bool {
    &&& v.planes.len() == 1
    &&& v.strides.len() == 1
    &&& gray8_check(v.planes[0].len() as int, v.width, v.height, v.strides[0]) is Ok
}

impl<'a> Gray8Frame<'a> {
    #[verifier::type_invariant]
    closed spec fn wf(&self) -> bool {
        gray8_check(self.y@.len() as int, self.width, self.height, self.y_stride) is Ok
    }

    /// Constructs a new frame, validating dimensions, strides and plane
    /// lengths; reports the first check that fails.
    pub fn try_new(
        y: &'a [u8],
        width: u32,
        height: u32,
        y_stride: u32,
    ) -> (res: Result<Self, Gray8FrameError>)
        ensures
            outcome(res) == gray8_check(y@.len() as int, width, height, y_stride),
            res is Ok <==> ({
                &&& width > 0 && height > 0
                &&& y_stride >= width
                &&& y_stride * height <= usize::MAX
                &&& y@.len() >= y_stride * height
            }),
            res matches Ok(f) ==> f@ == one_plane(width, height, y@, y_stride),
    {
        proof {
            lemma_gray8_accepts(y@.len() as int, width, height, y_stride);
        }
        if width == 0 || height == 0 {
            return Err(Gray8FrameError::ZeroDimension(ZeroDimension::new(width, height)));
        }
        if y_stride < width {
            return Err(
                Gray8FrameError::InsufficientYStride(InsufficientStride::new(y_stride, width)),
            );
        }
        let y_min = match (y_stride as usize).checked_mul(height as usize) {
            Some(v) => v,
            None => {
                return Err(
                    Gray8FrameError::GeometryOverflow(GeometryOverflow::new(y_stride, height)),
                );
            },
        };
        if y.len() < y_min {
            return Err(Gray8FrameError::InsufficientYPlane(InsufficientPlane::new(y_min, y.len())));
        }
        Ok(Gray8Frame { y, width, height, y_stride })
    }

    /// Constructs a new frame from inputs that `try_new` accepts.
    pub fn new(y: &'a [u8], width: u32, height: u32, y_stride: u32) -> (res: Self)
        requires
            gray8_check(y@.len() as int, width, height, y_stride) is Ok,
        ensures
            res@ == one_plane(width, height, y@, y_stride),
    {
        Self::try_new(y, width, height, y_stride).expect(
            "invalid Gray8Frame dimensions or plane length",
        )
    }

    /// Y (luma) plane. Row `r` starts at element `r * y_stride()`.
    pub fn y(&self) -> (r: &'a [u8])
        ensures
            r@ == self@.planes[0],
            gray8_valid(self@),
    {
        proof {
            use_type_invariant(self);
        }
        self.y
    }

    /// Frame width in pixels.
    pub fn width(&self) -> (r: u32)
        ensures
            r == self@.width,
            gray8_valid(self@),
    {
        proof {
            use_type_invariant(self);
        }
        self.width
    }

    /// Frame height in pixels.
    pub fn height(&self) -> (r: u32)
        ensures
            r == self@.height,
            gray8_valid(self@),
    {
        proof {
            use_type_invariant(self);
        }
        self.height
    }

    /// Stride of the Y plane in elements (`>= width`).
    pub fn y_stride(&self) -> (r: u32)
        ensures
            r == self@.strides[0],
            gray8_valid(self@),
    {
        proof {
            use_type_invariant(self);
        }
        self.y_stride
    }
}

/// Errors returned by `Gray8Frame::try_new`.
#[derive(Debug, Clone, Copy, PartialEq, Eq, Hash)]
#[non_exhaustive]
pub enum Gray8FrameError {
    /// `width` or `height` was zero.
    ZeroDimension(ZeroDimension),
    /// `y_stride < width`.
    InsufficientYStride(InsufficientStride),
    /// The Y plane is shorter than `y_stride * height` elements.
    InsufficientYPlane(InsufficientPlane),
    /// `y_stride * height` does not fit in `usize`.
    GeometryOverflow(GeometryOverflow),
}

/// What `GrayNFrame::try_new` decides.
pub open spec fn gray_n_check(
    y_len: int,
    width: u32,
    height: u32,
    y_stride: u32,
    bits: u32,
) -> Result<(), GrayNFrameError> {
    if !(bits == 9 || bits == 10 || bits == 12 || bits == 14) {
        Err(GrayNFrameError::UnsupportedBits(UnsupportedBits { bits }))
    } else if width == 0 || height == 0 {
        Err(GrayNFrameError::ZeroDimension(ZeroDimension { width, height }))
    } else if y_stride < width {
        Err(GrayNFrameError::InsufficientYStride(short_stride(y_stride, width)))
    } else if !plane_fits(y_stride, height) {
        Err(GrayNFrameError::GeometryOverflow(overflow(y_stride, height)))
    } else if y_len < plane_need(y_stride, height) {
        Err(GrayNFrameError::InsufficientYPlane(short_plane(y_stride, height, y_len)))
    } else {
        Ok(())
    }
}

/// The inputs that `GrayNFrame::try_new` accepts, stated directly: non-zero
/// dimensions, each stride covering a row of its plane, each plane
/// holding its rows; a rejection reports the offending values.
pub proof fn lemma_gray_n_accepts(y_len: int, width: u32, height: u32, y_stride: u32, bits: u32)
    ensures
        ({
            let check = gray_n_check(y_len, width, height, y_stride, bits);
            &&& check is Ok <==> {
                &&& (bits == 9 || bits == 10 || bits == 12 || bits == 14)
                &&& width > 0 && height > 0
                &&& y_stride >= width
                &&& y_stride * height <= usize::MAX
                &&& y_len >= y_stride * height
            }
            &&& check matches Err(GrayNFrameError::ZeroDimension(e)) ==> {
                &&& e.width == width
                &&& e.height == height
            }
            &&& check matches Err(GrayNFrameError::InsufficientYStride(e)) ==> {
                &&& e.stride == y_stride
                &&& e.min_stride == width
                &&& y_stride < width
            }
            &&& check matches Err(GrayNFrameError::InsufficientYPlane(e)) ==> {
                &&& e.expected == y_stride * height
                &&& y_len < y_stride * height
            }
        }),
{
}

/// A validated gray-scale frame with `BITS` (9, 10, 12 or 14) active low
/// bits in each `u16` sample (FFmpeg `gray9`..`gray14`, `le`/`be`).
#[derive(Debug, Clone, Copy)]
pub struct GrayNFrame<'a, const BITS: u32, const BE: bool> {
    y: &'a [u16],
    width: u32,
    height: u32,
    y_stride: u32,
}

/// 9-bit gray frame.
pub type Gray9Frame<'a, const BE: bool> = GrayNFrame<'a, 9, BE>;
/// 10-bit gray frame.
pub type Gray10Frame<'a, const BE: bool> = GrayNFrame<'a, 10, BE>;
/// 12-bit gray frame.
pub type Gray12Frame<'a, const BE: bool> = GrayNFrame<'a, 12, BE>;
/// 14-bit gray frame.
pub type Gray14Frame<'a, const BE: bool> = GrayNFrame<'a, 14, BE>;
/// `AV_PIX_FMT_GRAY9LE`.
pub type Gray9LeFrame<'a> = GrayNFrame<'a, 9, false>;
/// `AV_PIX_FMT_GRAY9BE`.
pub type Gray9BeFrame<'a> = GrayNFrame<'a, 9, true>;
/// `AV_PIX_FMT_GRAY10LE`.
pub type Gray10LeFrame<'a> = GrayNFrame<'a, 10, false>;
/// `AV_PIX_FMT_GRAY10BE`.
pub type Gray10BeFrame<'a> = GrayNFrame<'a, 10, true>;
/// `AV_PIX_FMT_GRAY12LE`.
pub type Gray12LeFrame<'a> = GrayNFrame<'a, 12, false>;
/// `AV_PIX_FMT_GRAY12BE`.
pub type Gray12BeFrame<'a> = GrayNFrame<'a, 12, true>;
/// `AV_PIX_FMT_GRAY14LE`.
pub type Gray14LeFrame<'a> = GrayNFrame<'a, 14, false>;
/// `AV_PIX_FMT_GRAY14BE`.
pub type Gray14BeFrame<'a> = GrayNFrame<'a, 14, true>;

impl<'a, const BITS: u32, const BE: bool> View for GrayNFrame<'a, BITS, BE> {
    type V = FrameView<u16>;

    closed spec fn view(&self) -> FrameView<u16> {
        one_plane(self.width, self.height, self.y@, self.y_stride)
    }
}

/// `v` is the view of a `GrayNFrame` that `try_new` accepts: every frame
/// of the type has such a view.
pub open spec fn gray_n_valid(v: FrameView<u16>, bits: u32) -> bool {
    &&& v.planes.len() == 1
    &&& v.strides.len() == 1
    &&& gray_n_check(v.planes[0].len() as int, v.width, v.height, v.strides[0], bits) is Ok
}

impl<'a, const BITS: u32, const BE: bool> GrayNFrame<'a, BITS, BE> {
    #[verifier::type_invariant]
    closed spec fn wf(&self) -> bool {
        gray_n_check(self.y@.len() as int, self.width, self.height, self.y_stride, BITS) is Ok
    }

    /// Constructs a new frame, validating dimensions, strides and plane
    /// lengths; reports the first check that fails.
    pub fn try_new(
        y: &'a [u16],
        width: u32,
        height: u32,
        y_stride: u32,
    ) -> (res: Result<Self, GrayNFrameError>)
        ensures
            outcome(res) == gray_n_check(y@.len() as int, width, height, y_stride, BITS),
            res is Ok <==> ({
                &&& (BITS == 9 || BITS == 10 || BITS == 12 || BITS == 14)
                &&& width > 0 && height > 0
                &&& y_stride >= width
                &&& y_stride * height <= usize::MAX
                &&& y@.len() >= y_stride * height
            }),
            res matches Ok(f) ==> f@ == one_plane(width, height, y@, y_stride),
    {
        proof {
            lemma_gray_n_accepts(y@.len() as int, width, height, y_stride, BITS);
        }
        if BITS != 9 && BITS != 10 && BITS != 12 && BITS != 14 {
            return Err(GrayNFrameError::UnsupportedBits(UnsupportedBits::new(BITS)));
        }
        if width == 0 || height == 0 {
            return Err(GrayNFrameError::ZeroDimension(ZeroDimension::new(width, height)));
        }
        if y_stride < width {
            return Err(
                GrayNFrameError::InsufficientYStride(InsufficientStride::new(y_stride, width)),
            );
        }
        let y_min = match (y_stride as usize).checked_mul(height as usize) {
            Some(v) => v,
            None => {
                return Err(
                    GrayNFrameError::GeometryOverflow(GeometryOverflow::new(y_stride, height)),
                );
            },
        };
        if y.len() < y_min {
            return Err(GrayNFrameError::InsufficientYPlane(InsufficientPlane::new(y_min, y.len())));
        }
        Ok(GrayNFrame { y, width, height, y_stride })
    }

    /// Constructs a new frame from inputs that `try_new` accepts.
    pub fn new(y: &'a [u16], width: u32, height: u32, y_stride: u32) -> (res: Self)
        requires
            gray_n_check(y@.len() as int, width, height, y_stride, BITS) is Ok,
        ensures
            res@ == one_plane(width, height, y@, y_stride),
    {
        Self::try_new(y, width, height, y_stride).expect(
            "invalid GrayNFrame dimensions or plane length",
        )
    }

    /// Y (luma) plane. Row `r` starts at element `r * y_stride()`.
    pub fn y(&self) -> (r: &'a [u16])
        ensures
            r@ == self@.planes[0],
            gray_n_valid(self@, BITS),
    {
        proof {
            use_type_invariant(self);
        }
        self.y
    }

    /// Frame width in pixels.
    pub fn width(&self) -> (r: u32)
        ensures
            r == self@.width,
            gray_n_valid(self@, BITS),
    {
        proof {
            use_type_invariant(self);
        }
        self.width
    }

    /// Frame height in pixels.
    pub fn height(&self) -> (r: u32)
        ensures
            r == self@.height,
            gray_n_valid(self@, BITS),
    {
        proof {
            use_type_invariant(self);
        }
        self.height
    }

    /// Stride of the Y plane in elements (`>= width`).
    pub fn y_stride(&self) -> (r: u32)
        ensures
            r == self@.strides[0],
            gray_n_valid(self@, BITS),
    {
        proof {
            use_type_invariant(self);
        }
        self.y_stride
    }

    /// Whether the stored samples are big-endian (`BE`).
    pub fn is_be(&self) -> (r: bool)
        ensures
            r == BE,
    {
        BE
    }
}

/// Errors returned by `GrayNFrame::try_new`.
#[derive(Debug, Clone, Copy, PartialEq, Eq, Hash)]
#[non_exhaustive]
pub enum GrayNFrameError {
    /// `BITS` is not 9, 10, 12 or 14.
    UnsupportedBits(UnsupportedBits),
    /// `width` or `height` was zero.
    ZeroDimension(ZeroDimension),
    /// `y_stride < width`.
    InsufficientYStride(InsufficientStride),
    /// The Y plane is shorter than `y_stride * height` samples.
    InsufficientYPlane(InsufficientPlane),
    /// `y_stride * height` does not fit in `usize`.
    GeometryOverflow(GeometryOverflow),
}

/// What `Gray16Frame::try_new` decides.
pub open spec fn gray16_check(
    y_len: int,
    width: u32,
    height: u32,
    y_stride: u32,
) -> Result<(), Gray16FrameError> {
    if width == 0 || height == 0 {
        Err(Gray16FrameError::ZeroDimension(ZeroDimension { width, height }))
    } else if y_stride < width {
        Err(Gray16FrameError::InsufficientYStride(short_stride(y_stride, width)))
    } else if !plane_fits(y_stride, height) {
        Err(Gray16FrameError::GeometryOverflow(overflow(y_stride, height)))
    } else if y_len < plane_need(y_stride, height) {
        Err(Gray16FrameError::InsufficientYPlane(short_plane(y_stride, height, y_len)))
    } else {
        Ok(())
    }
}

/// The inputs that `Gray16Frame::try_new` accepts, stated directly: non-zero
/// dimensions, each stride covering a row of its plane, each plane
/// holding its rows; a rejection reports the offending values.
pub proof fn lemma_gray16_accepts(y_len: int, width: u32, height: u32, y_stride: u32)
    ensures
        ({
            let check = gray16_check(y_len, width, height, y_stride);
            &&& check is Ok <==> {
                &&& width > 0 && height > 0
                &&& y_stride >= width
                &&& y_stride * height <= usize::MAX
                &&& y_len >= y_stride * height
            }
            &&& check matches Err(Gray16FrameError::ZeroDimension(e)) ==> {
                &&& e.width == width
                &&& e.height == height
            }
            &&& check matches Err(Gray16FrameError::InsufficientYStride(e)) ==> {
                &&& e.stride == y_stride
                &&& e.min_stride == width
                &&& y_stride < width
            }
            &&& check matches Err(Gray16FrameError::InsufficientYPlane(e)) ==> {
                &&& e.expected == y_stride * height
                &&& y_len < y_stride * height
            }
        }),
{
}

/// A validated 16-bit gray-scale frame (FFmpeg `gray16{le,be}`): one `u16`
/// plane, all 16 bits active.
#[derive(Debug, Clone, Copy)]
pub struct Gray16Frame<'a, const BE: bool> {
    y: &'a [u16],
    width: u32,
    height: u32,
    y_stride: u32,
}

/// `AV_PIX_FMT_GRAY16LE`.
pub type Gray16LeFrame<'a> = Gray16Frame<'a, false>;
/// `AV_PIX_FMT_GRAY16BE`.
pub type Gray16BeFrame<'a> = Gray16Frame<'a, true>;

impl<'a, const BE: bool> View for Gray16Frame<'a, BE> {
    type V = FrameView<u16>;

    closed spec fn view(&self) -> FrameView<u16> {
        one_plane(self.width, self.height, self.y@, self.y_stride)
    }
}

/// `v` is the view of a `Gray16Frame` that `try_new` accepts: every frame
/// of the type has such a view.
pub open spec fn gray16_valid(v: FrameView<u16>) -> bool {
    &&& v.planes.len() == 1
    &&& v.strides.len() == 1
    &&& gray16_check(v.planes[0].len() as int, v.width, v.height, v.strides[0]) is Ok
}

impl<'a, const BE: bool> Gray16Frame<'a, BE> {
    #[verifier::type_invariant]
    closed spec fn wf(&self) -> bool {
        gray16_check(self.y@.len() as int, self.width, self.height, self.y_stride) is Ok
    }

    /// Constructs a new frame, validating dimensions, strides and plane
    /// lengths; reports the first check that fails.
    pub fn try_new(
        y: &'a [u16],
        width: u32,
        height: u32,
        y_stride: u32,
    ) -> (res: Result<Self, Gray16FrameError>)
        ensures
            outcome(res) == gray16_check(y@.len() as int, width, height, y_stride),
            res is Ok <==> ({
                &&& width > 0 && height > 0
                &&& y_stride >= width
                &&& y_stride * height <= usize::MAX
                &&& y@.len() >= y_stride * height
            }),
            res matches Ok(f) ==> f@ == one_plane(width, height, y@, y_stride),
    {
        proof {
            lemma_gray16_accepts(y@.len() as int, width, height, y_stride);
        }
        if width == 0 || height == 0 {
            return Err(Gray16FrameError::ZeroDimension(ZeroDimension::new(width, height)));
        }
        if y_stride < width {
            return Err(
                Gray16FrameError::InsufficientYStride(InsufficientStride::new(y_stride, width)),
            );
        }
        let y_min = match (y_stride as usize).checked_mul(height as usize) {
            Some(v) => v,
            None => {
                return Err(
                    Gray16FrameError::GeometryOverflow(GeometryOverflow::new(y_stride, height)),
                );
            },
        };
        if y.len() < y_min {
            return Err(
                Gray16FrameError::InsufficientYPlane(InsufficientPlane::new(y_min, y.len())),
            );
        }
        Ok(Gray16Frame { y, width, height, y_stride })
    }

    /// Constructs a new frame from inputs that `try_new` accepts.
    pub fn new(y: &'a [u16], width: u32, height: u32, y_stride: u32) -> (res: Self)
        requires
            gray16_check(y@.len() as int, width, height, y_stride) is Ok,
        ensures
            res@ == one_plane(width, height, y@, y_stride),
    {
        Self::try_new(y, width, height, y_stride).expect(
            "invalid Gray16Frame dimensions or plane length",
        )
    }

    /// Y (luma) plane. Row `r` starts at element `r * y_stride()`.
    pub fn y(&self) -> (r: &'a [u16])
        ensures
            r@ == self@.planes[0],
            gray16_valid(self@),
    {
        proof {
            use_type_invariant(self);
        }
        self.y
    }

    /// Frame width in pixels.
    pub fn width(&self) -> (r: u32)
        ensures
            r == self@.width,
            gray16_valid(self@),
    {
        proof {
            use_type_invariant(self);
        }
        self.width
    }

    /// Frame height in pixels.
    pub fn height(&self) -> (r: u32)
        ensures
            r == self@.height,
            gray16_valid(self@),
    {
        proof {
            use_type_invariant(self);
        }
        self.height
    }

    /// Stride of the Y plane in elements (`>= width`).
    pub fn y_stride(&self) -> (r: u32)
        ensures
            r == self@.strides[0],
            gray16_valid(self@),
    {
        proof {
            use_type_invariant(self);
        }
        self.y_stride
    }

    /// Whether the stored samples are big-endian (`BE`).
    pub fn is_be(&self) -> (r: bool)
        ensures
            r == BE,
    {
        BE
    }
}

/// Errors returned by `Gray16Frame::try_new`.
#[derive(Debug, Clone, Copy, PartialEq, Eq, Hash)]
#[non_exhaustive]
pub enum Gray16FrameError {
    /// `width` or `height` was zero.
    ZeroDimension(ZeroDimension),
    /// `y_stride < width`.
    InsufficientYStride(InsufficientStride),
    /// The Y plane is shorter than `y_stride * height` elements.
    InsufficientYPlane(InsufficientPlane),
    /// `y_stride * height` does not fit in `usize`.
    GeometryOverflow(GeometryOverflow),
}

/// What `Grayf32Frame::try_new` decides.
pub open spec fn grayf32_check(
    y_len: int,
    width: u32,
    height: u32,
    y_stride: u32,
) -> Result<(), Grayf32FrameError> {
    if width == 0 || height == 0 {
        Err(Grayf32FrameError::ZeroDimension(ZeroDimension { width, height }))
    } else if y_stride < width {
        Err(Grayf32FrameError::InsufficientYStride(short_stride(y_stride, width)))
    } else if !plane_fits(y_stride, height) {
        Err(Grayf32FrameError::GeometryOverflow(overflow(y_stride, height)))
    } else if y_len < plane_need(y_stride, height) {
        Err(Grayf32FrameError::InsufficientYPlane(short_plane(y_stride, height, y_len)))
    } else {
        Ok(())
    }
}

/// The inputs that `Grayf32Frame::try_new` accepts, stated directly: non-zero
/// dimensions, each stride covering a row of its plane, each plane
/// holding its rows; a rejection reports the offending values.
pub proof fn lemma_grayf32_accepts(y_len: int, width: u32, height: u32, y_stride: u32)
    ensures
        ({
            let check = grayf32_check(y_len, width, height, y_stride);
            &&& check is Ok <==> {
                &&& width > 0 && height > 0
                &&& y_stride >= width
                &&& y_stride * height <= usize::MAX
                &&& y_len >= y_stride * height
            }
            &&& check matches Err(Grayf32FrameError::ZeroDimension(e)) ==> {
                &&& e.width == width
                &&& e.height == height
            }
            &&& check matches Err(Grayf32FrameError::InsufficientYStride(e)) ==> {
                &&& e.stride == y_stride
                &&& e.min_stride == width
                &&& y_stride < width
            }
            &&& check matches Err(Grayf32FrameError::InsufficientYPlane(e)) ==> {
                &&& e.expected == y_stride * height
                &&& y_len < y_stride * height
            }
        }),
{
}

/// Validates the geometry of a `Grayf32Frame` whose plane holds the given
/// number of elements, in the order and with the errors of its constructor.
pub fn grayf32_geometry(
    y_len: usize,
    width: u32,
    height: u32,
    y_stride: u32,
) -> (r: Result<(), Grayf32FrameError>)
    ensures
        r == grayf32_check(y_len as int, width, height, y_stride),
        r is Ok <==> ({
            &&& width > 0 && height > 0
            &&& y_stride >= width
            &&& y_stride * height <= usize::MAX
            &&& y_len >= y_stride * height
        }),
{
    proof {
        lemma_grayf32_accepts(y_len as int, width, height, y_stride);
    }
    if width == 0 || height == 0 {
        return Err(Grayf32FrameError::ZeroDimension(ZeroDimension::new(width, height)));
    }
    if y_stride < width {
        return Err(
            Grayf32FrameError::InsufficientYStride(InsufficientStride::new(y_stride, width)),
        );
    }
    let y_min = match (y_stride as usize).checked_mul(height as usize) {
        Some(v) => v,
        None => {
            return Err(
                Grayf32FrameError::GeometryOverflow(GeometryOverflow::new(y_stride, height)),
            );
        },
    };
    if y_len < y_min {
        return Err(Grayf32FrameError::InsufficientYPlane(InsufficientPlane::new(y_min, y_len)));
    }
    Ok(())
}

/// Errors returned by `Grayf32Frame::try_new`.
#[derive(Debug, Clone, Copy, PartialEq, Eq, Hash)]
#[non_exhaustive]
pub enum Grayf32FrameError {
    /// `width` or `height` was zero.
    ZeroDimension(ZeroDimension),
    /// `y_stride < width`.
    InsufficientYStride(InsufficientStride),
    /// The Y plane is shorter than `y_stride * height` elements.
    InsufficientYPlane(InsufficientPlane),
    /// `y_stride * height` does not fit in `usize`.
    GeometryOverflow(GeometryOverflow),
}

/// What `Ya8Frame::try_new` decides.
pub open spec fn ya8_check(
    packed_len: int,
    width: u32,
    height: u32,
    stride: u32,
) -> Result<(), Ya8FrameError> {
    if width == 0 || height == 0 {
        Err(Ya8FrameError::ZeroDimension(ZeroDimension { width, height }))
    } else if width * 2 > u32::MAX {
        Err(Ya8FrameError::WidthOverflow(WidthOverflow { width }))
    } else if stride < width * 2 {
        Err(Ya8FrameError::InsufficientStride(short_stride(stride, (width * 2) as u32)))
    } else if !plane_fits(stride, height) {
        Err(Ya8FrameError::GeometryOverflow(overflow(stride, height)))
    } else if packed_len < plane_need(stride, height) {
        Err(Ya8FrameError::InsufficientPlane(short_plane(stride, height, packed_len)))
    } else {
        Ok(())
    }
}

/// The inputs that `Ya8Frame::try_new` accepts, stated directly: non-zero
/// dimensions, each stride covering a row of its plane, each plane
/// holding its rows; a rejection reports the offending values.
pub proof fn lemma_ya8_accepts(packed_len: int, width: u32, height: u32, stride: u32)
    ensures
        ({
            let check = ya8_check(packed_len, width, height, stride);
            &&& check is Ok <==> {
                &&& width > 0 && height > 0
                &&& width * 2 <= u32::MAX
                &&& stride >= width * 2
                &&& stride * height <= usize::MAX
                &&& packed_len >= stride * height
            }
            &&& check matches Err(Ya8FrameError::ZeroDimension(e)) ==> {
                &&& e.width == width
                &&& e.height == height
            }
            &&& check matches Err(Ya8FrameError::InsufficientStride(e)) ==> {
                &&& e.stride == stride
                &&& e.min_stride == width * 2
                &&& stride < width * 2
            }
            &&& check matches Err(Ya8FrameError::InsufficientPlane(e)) ==> {
                &&& e.expected == stride * height
                &&& packed_len < stride * height
            }
        }),
{
}

/// A validated 8-bit gray + alpha frame (FFmpeg `ya8`): one `u8` plane of
/// `[Y, A]` byte pairs, `stride >= width * 2`.
#[derive(Debug, Clone, Copy)]
pub struct Ya8Frame<'a> {
    packed: &'a [u8],
    width: u32,
    height: u32,
    stride: u32,
}

impl<'a> View for Ya8Frame<'a> {
    type V = FrameView<u8>;

    closed spec fn view(&self) -> FrameView<u8> {
        one_plane(self.width, self.height, self.packed@, self.stride)
    }
}

/// `v` is the view of a `Ya8Frame` that `try_new` accepts: every frame
/// of the type has such a view.
pub open spec fn ya8_valid(v: FrameView<u8>) -> bool {
    &&& v.planes.len() == 1
    &&& v.strides.len() == 1
    &&& ya8_check(v.planes[0].len() as int, v.width, v.height, v.strides[0]) is Ok
}

impl<'a> Ya8Frame<'a> {
    #[verifier::type_invariant]
    closed spec fn wf(&self) -> bool {
        ya8_check(self.packed@.len() as int, self.width, self.height, self.stride) is Ok
    }

    /// Constructs a new frame, validating dimensions, strides and plane
    /// lengths; reports the first check that fails.
    pub fn try_new(
        packed: &'a [u8],
        width: u32,
        height: u32,
        stride: u32,
    ) -> (res: Result<Self, Ya8FrameError>)
        ensures
            outcome(res) == ya8_check(packed@.len() as int, width, height, stride),
            res is Ok <==> ({
                &&& width > 0 && height > 0
                &&& width * 2 <= u32::MAX
                &&& stride >= width * 2
                &&& stride * height <= usize::MAX
                &&& packed@.len() >= stride * height
            }),
            res matches Ok(f) ==> f@ == one_plane(width, height, packed@, stride),
    {
        proof {
            lemma_ya8_accepts(packed@.len() as int, width, height, stride);
        }
        if width == 0 || height == 0 {
            return Err(Ya8FrameError::ZeroDimension(ZeroDimension::new(width, height)));
        }
        let min_stride = match width.checked_mul(2) {
            Some(v) => v,
            None => {
                return Err(Ya8FrameError::WidthOverflow(WidthOverflow::new(width)));
            },
        };
        if stride < min_stride {
            return Err(
                Ya8FrameError::InsufficientStride(InsufficientStride::new(stride, min_stride)),
            );
        }
        let packed_min = match (stride as usize).checked_mul(height as usize) {
            Some(v) => v,
            None => {
                return Err(Ya8FrameError::GeometryOverflow(GeometryOverflow::new(stride, height)));
            },
        };
        if packed.len() < packed_min {
            return Err(
                Ya8FrameError::InsufficientPlane(InsufficientPlane::new(packed_min, packed.len())),
            );
        }
        Ok(Ya8Frame { packed, width, height, stride })
    }

    /// Constructs a new frame from inputs that `try_new` accepts.
    pub fn new(packed: &'a [u8], width: u32, height: u32, stride: u32) -> (res: Self)
        requires
            ya8_check(packed@.len() as int, width, height, stride) is Ok,
        ensures
            res@ == one_plane(width, height, packed@, stride),
    {
        Self::try_new(packed, width, height, stride).expect(
            "invalid Ya8Frame dimensions or plane length",
        )
    }

    /// Packed `[Y, A, Y, A, ...]` plane. Row `r` starts at element `r * stride()` and holds `width
    /// * 2` active elements.
    pub fn packed(&self) -> (r: &'a [u8])
        ensures
            r@ == self@.planes[0],
            ya8_valid(self@),
    {
        proof {
            use_type_invariant(self);
        }
        self.packed
    }

    /// Frame width in pixels.
    pub fn width(&self) -> (r: u32)
        ensures
            r == self@.width,
            ya8_valid(self@),
    {
        proof {
            use_type_invariant(self);
        }
        self.width
    }

    /// Frame height in pixels.
    pub fn height(&self) -> (r: u32)
        ensures
            r == self@.height,
            ya8_valid(self@),
    {
        proof {
            use_type_invariant(self);
        }
        self.height
    }

    /// Row stride in elements (`>= width * 2`).
    pub fn stride(&self) -> (r: u32)
        ensures
            r == self@.strides[0],
            ya8_valid(self@),
    {
        proof {
            use_type_invariant(self);
        }
        self.stride
    }
}

/// Errors returned by `Ya8Frame::try_new`.
#[derive(Debug, Clone, Copy, PartialEq, Eq, Hash)]
#[non_exhaustive]
pub enum Ya8FrameError {
    /// `width` or `height` was zero.
    ZeroDimension(ZeroDimension),
    /// `stride < width * 2`.
    InsufficientStride(InsufficientStride),
    /// The packed plane is shorter than `stride * height` elements.
    InsufficientPlane(InsufficientPlane),
    /// `stride * height` does not fit in `usize`.
    GeometryOverflow(GeometryOverflow),
    /// `width * 2` does not fit in `u32`.
    WidthOverflow(WidthOverflow),
}

/// What `Ya16Frame::try_new` decides.
pub open spec fn ya16_check(
    packed_len: int,
    width: u32,
    height: u32,
    stride: u32,
) -> Result<(), Ya16FrameError> {
    if width == 0 || height == 0 {
        Err(Ya16FrameError::ZeroDimension(ZeroDimension { width, height }))
    } else if width * 2 > u32::MAX {
        Err(Ya16FrameError::WidthOverflow(WidthOverflow { width }))
    } else if stride < width * 2 {
        Err(Ya16FrameError::InsufficientStride(short_stride(stride, (width * 2) as u32)))
    } else if !plane_fits(stride, height) {
        Err(Ya16FrameError::GeometryOverflow(overflow(stride, height)))
    } else if packed_len < plane_need(stride, height) {
        Err(Ya16FrameError::InsufficientPlane(short_plane(stride, height, packed_len)))
    } else {
        Ok(())
    }
}

/// The inputs that `Ya16Frame::try_new` accepts, stated directly: non-zero
/// dimensions, each stride covering a row of its plane, each plane
/// holding its rows; a rejection reports the offending values.
pub proof fn lemma_ya16_accepts(packed_len: int, width: u32, height: u32, stride: u32)
    ensures
        ({
            let check = ya16_check(packed_len, width, height, stride);
            &&& check is Ok <==> {
                &&& width > 0 && height > 0
                &&& width * 2 <= u32::MAX
                &&& stride >= width * 2
                &&& stride * height <= usize::MAX
                &&& packed_len >= stride * height
            }
            &&& check matches Err(Ya16FrameError::ZeroDimension(e)) ==> {
                &&& e.width == width
                &&& e.height == height
            }
            &&& check matches Err(Ya16FrameError::InsufficientStride(e)) ==> {
                &&& e.stride == stride
                &&& e.min_stride == width * 2
                &&& stride < width * 2
            }
            &&& check matches Err(Ya16FrameError::InsufficientPlane(e)) ==> {
                &&& e.expected == stride * height
                &&& packed_len < stride * height
            }
        }),
{
}

/// A validated 16-bit gray + alpha frame (FFmpeg `ya16{le,be}`): one `u16`
/// plane of `[Y, A]` sample pairs, `stride >= width * 2`.
#[derive(Debug, Clone, Copy)]
pub struct Ya16Frame<'a, const BE: bool> {
    packed: &'a [u16],
    width: u32,
    height: u32,
    stride: u32,
}

/// `AV_PIX_FMT_YA16LE`.
pub type Ya16LeFrame<'a> = Ya16Frame<'a, false>;
/// `AV_PIX_FMT_YA16BE`.
pub type Ya16BeFrame<'a> = Ya16Frame<'a, true>;

impl<'a, const BE: bool> View for Ya16Frame<'a, BE> {
    type V = FrameView<u16>;

    closed spec fn view(&self) -> FrameView<u16> {
        one_plane(self.width, self.height, self.packed@, self.stride)
    }
}

/// `v` is the view of a `Ya16Frame` that `try_new` accepts: every frame
/// of the type has such a view.
pub open spec fn ya16_valid(v: FrameView<u16>) -> bool {
    &&& v.planes.len() == 1
    &&& v.strides.len() == 1
    &&& ya16_check(v.planes[0].len() as int, v.width, v.height, v.strides[0]) is Ok
}

impl<'a, const BE: bool> Ya16Frame<'a, BE> {
    #[verifier::type_invariant]
    closed spec fn wf(&self) -> bool {
        ya16_check(self.packed@.len() as int, self.width, self.height, self.stride) is Ok
    }

    /// Constructs a new frame, validating dimensions, strides and plane
    /// lengths; reports the first check that fails.
    pub fn try_new(
        packed: &'a [u16],
        width: u32,
        height: u32,
        stride: u32,
    ) -> (res: Result<Self, Ya16FrameError>)
        ensures
            outcome(res) == ya16_check(packed@.len() as int, width, height, stride),
            res is Ok <==> ({
                &&& width > 0 && height > 0
                &&& width * 2 <= u32::MAX
                &&& stride >= width * 2
                &&& stride * height <= usize::MAX
                &&& packed@.len() >= stride * height
            }),
            res matches Ok(f) ==> f@ == one_plane(width, height, packed@, stride),
    {
        proof {
            lemma_ya16_accepts(packed@.len() as int, width, height, stride);
        }
        if width == 0 || height == 0 {
            return Err(Ya16FrameError::ZeroDimension(ZeroDimension::new(width, height)));
        }
        let min_stride = match width.checked_mul(2) {
            Some(v) => v,
            None => {
                return Err(Ya16FrameError::WidthOverflow(WidthOverflow::new(width)));
            },
        };
        if stride < min_stride {
            return Err(
                Ya16FrameError::InsufficientStride(InsufficientStride::new(stride, min_stride)),
            );
        }
        let packed_min = match (stride as usize).checked_mul(height as usize) {
            Some(v) => v,
            None => {
                return Err(Ya16FrameError::GeometryOverflow(GeometryOverflow::new(stride, height)));
            },
        };
        if packed.len() < packed_min {
            return Err(
                Ya16FrameError::InsufficientPlane(InsufficientPlane::new(packed_min, packed.len())),
            );
        }
        Ok(Ya16Frame { packed, width, height, stride })
    }

    /// Constructs a new frame from inputs that `try_new` accepts.
    pub fn new(packed: &'a [u16], width: u32, height: u32, stride: u32) -> (res: Self)
        requires
            ya16_check(packed@.len() as int, width, height, stride) is Ok,
        ensures
            res@ == one_plane(width, height, packed@, stride),
    {
        Self::try_new(packed, width, height, stride).expect(
            "invalid Ya16Frame dimensions or plane length",
        )
    }

    /// Packed `[Y, A, Y, A, ...]` plane. Row `r` starts at element `r * stride()` and holds `width
    /// * 2` active elements.
    pub fn packed(&self) -> (r: &'a [u16])
        ensures
            r@ == self@.planes[0],
            ya16_valid(self@),
    {
        proof {
            use_type_invariant(self);
        }
        self.packed
    }

    /// Frame width in pixels.
    pub fn width(&self) -> (r: u32)
        ensures
            r == self@.width,
            ya16_valid(self@),
    {
        proof {
            use_type_invariant(self);
        }
        self.width
    }

    /// Frame height in pixels.
    pub fn height(&self) -> (r: u32)
        ensures
            r == self@.height,
            ya16_valid(self@),
    {
        proof {
            use_type_invariant(self);
        }
        self.height
    }

    /// Row stride in elements (`>= width * 2`).
    pub fn stride(&self) -> (r: u32)
        ensures
            r == self@.strides[0],
            ya16_valid(self@),
    {
        proof {
            use_type_invariant(self);
        }
        self.stride
    }

    /// Whether the stored samples are big-endian (`BE`).
    pub fn is_be(&self) -> (r: bool)
        ensures
            r == BE,
    {
        BE
    }
}

/// Errors returned by `Ya16Frame::try_new`.
#[derive(Debug, Clone, Copy, PartialEq, Eq, Hash)]
#[non_exhaustive]
pub enum Ya16FrameError {
    /// `width` or `height` was zero.
    ZeroDimension(ZeroDimension),
    /// `stride < width * 2`.
    InsufficientStride(InsufficientStride),
    /// The packed plane is shorter than `stride * height` elements.
    InsufficientPlane(InsufficientPlane),
    /// `stride * height` does not fit in `usize`.
    GeometryOverflow(GeometryOverflow),
    /// `width * 2` does not fit in `u32`.
    WidthOverflow(WidthOverflow),
}

/// What `Gray32Frame::try_new` decides.
pub open spec fn gray32_check(
    y_len: int,
    width: u32,
    height: u32,
    y_stride: u32,
) -> Result<(), Gray32FrameError> {
    if width == 0 || height == 0 {
        Err(Gray32FrameError::ZeroDimension(ZeroDimension { width, height }))
    } else if y_stride < width {
        Err(Gray32FrameError::InsufficientYStride(short_stride(y_stride, width)))
    } else if !plane_fits(y_stride, height) {
        Err(Gray32FrameError::GeometryOverflow(overflow(y_stride, height)))
    } else if y_len < plane_need(y_stride, height) {
        Err(Gray32FrameError::InsufficientYPlane(short_plane(y_stride, height, y_len)))
    } else {
        Ok(())
    }
}

/// The inputs that `Gray32Frame::try_new` accepts, stated directly: non-zero
/// dimensions, each stride covering a row of its plane, each plane
/// holding its rows; a rejection reports the offending values.
pub proof fn lemma_gray32_accepts(y_len: int, width: u32, height: u32, y_stride: u32)
    ensures
        ({
            let check = gray32_check(y_len, width, height, y_stride);
            &&& check is Ok <==> {
                &&& width > 0 && height > 0
                &&& y_stride >= width
                &&& y_stride * height <= usize::MAX
                &&& y_len >= y_stride * height
            }
            &&& check matches Err(Gray32FrameError::ZeroDimension(e)) ==> {
                &&& e.width == width
                &&& e.height == height
            }
            &&& check matches Err(Gray32FrameError::InsufficientYStride(e)) ==> {
                &&& e.stride == y_stride
                &&& e.min_stride == width
                &&& y_stride < width
            }
            &&& check matches Err(Gray32FrameError::InsufficientYPlane(e)) ==> {
                &&& e.expected == y_stride * height
                &&& y_len < y_stride * height
            }
        }),
{
}

/// A validated 32-bit gray-scale frame (FFmpeg `gray32{le,be}`): one `u32`
/// plane, all 32 bits active.
#[derive(Debug, Clone, Copy)]
pub struct Gray32Frame<'a, const BE: bool> {
    y: &'a [u32],
    width: u32,
    height: u32,
    y_stride: u32,
}

/// Little-endian `Gray32Frame`.
pub type Gray32LeFrame<'a> = Gray32Frame<'a, false>;
/// Big-endian `Gray32Frame`.
pub type Gray32BeFrame<'a> = Gray32Frame<'a, true>;

impl<'a, const BE: bool> View for Gray32Frame<'a, BE> {
    type V = FrameView<u32>;

    closed spec fn view(&self) -> FrameView<u32> {
        one_plane(self.width, self.height, self.y@, self.y_stride)
    }
}

/// `v` is the view of a `Gray32Frame` that `try_new` accepts: every frame
/// of the type has such a view.
pub open spec fn gray32_valid(v: FrameView<u32>) -> bool {
    &&& v.planes.len() == 1
    &&& v.strides.len() == 1
    &&& gray32_check(v.planes[0].len() as int, v.width, v.height, v.strides[0]) is Ok
}

impl<'a, const BE: bool> Gray32Frame<'a, BE> {
    #[verifier::type_invariant]
    closed spec fn wf(&self) -> bool {
        gray32_check(self.y@.len() as int, self.width, self.height, self.y_stride) is Ok
    }

    /// Constructs a new frame, validating dimensions, strides and plane
    /// lengths; reports the first check that fails.
    pub fn try_new(
        y: &'a [u32],
        width: u32,
        height: u32,
        y_stride: u32,
    ) -> (res: Result<Self, Gray32FrameError>)
        ensures
            outcome(res) == gray32_check(y@.len() as int, width, height, y_stride),
            res is Ok <==> ({
                &&& width > 0 && height > 0
                &&& y_stride >= width
                &&& y_stride * height <= usize::MAX
                &&& y@.len() >= y_stride * height
            }),
            res matches Ok(f) ==> f@ == one_plane(width, height, y@, y_stride),
    {
        proof {
            lemma_gray32_accepts(y@.len() as int, width, height, y_stride);
        }
        if width == 0 || height == 0 {
            return Err(Gray32FrameError::ZeroDimension(ZeroDimension::new(width, height)));
        }
        if y_stride < width {
            return Err(
                Gray32FrameError::InsufficientYStride(InsufficientStride::new(y_stride, width)),
            );
        }
        let y_min = match (y_stride as usize).checked_mul(height as usize) {
            Some(v) => v,
            None => {
                return Err(
                    Gray32FrameError::GeometryOverflow(GeometryOverflow::new(y_stride, height)),
                );
            },
        };
        if y.len() < y_min {
            return Err(
                Gray32FrameError::InsufficientYPlane(InsufficientPlane::new(y_min, y.len())),
            );
        }
        Ok(Gray32Frame { y, width, height, y_stride })
    }

    /// Constructs a new frame from inputs that `try_new` accepts.
    pub fn new(y: &'a [u32], width: u32, height: u32, y_stride: u32) -> (res: Self)
        requires
            gray32_check(y@.len() as int, width, height, y_stride) is Ok,
        ensures
            res@ == one_plane(width, height, y@, y_stride),
    {
        Self::try_new(y, width, height, y_stride).expect(
            "invalid Gray32Frame dimensions or plane length",
        )
    }

    /// Y (luma) plane. Row `r` starts at element `r * y_stride()`.
    pub fn y(&self) -> (r: &'a [u32])
        ensures
            r@ == self@.planes[0],
            gray32_valid(self@),
    {
        proof {
            use_type_invariant(self);
        }
        self.y
    }

    /// Frame width in pixels.
    pub fn width(&self) -> (r: u32)
        ensures
            r == self@.width,
            gray32_valid(self@),
    {
        proof {
            use_type_invariant(self);
        }
        self.width
    }

    /// Frame height in pixels.
    pub fn height(&self) -> (r: u32)
        ensures
            r == self@.height,
            gray32_valid(self@),
    {
        proof {
            use_type_invariant(self);
        }
        self.height
    }

    /// Stride of the Y plane in elements (`>= width`).
    pub fn y_stride(&self) -> (r: u32)
        ensures
            r == self@.strides[0],
            gray32_valid(self@),
    {
        proof {
            use_type_invariant(self);
        }
        self.y_stride
    }

    /// Whether the stored samples are big-endian (`BE`).
    pub fn is_be(&self) -> (r: bool)
        ensures
            r == BE,
    {
        BE
    }
}

/// Errors returned by `Gray32Frame::try_new`.
#[derive(Debug, Clone, Copy, PartialEq, Eq, Hash)]
#[non_exhaustive]
pub enum Gray32FrameError {
    /// `width` or `height` was zero.
    ZeroDimension(ZeroDimension),
    /// `y_stride < width`.
    InsufficientYStride(InsufficientStride),
    /// The Y plane is shorter than `y_stride * height` elements.
    InsufficientYPlane(InsufficientPlane),
    /// `y_stride * height` does not fit in `usize`.
    GeometryOverflow(GeometryOverflow),
}

/// What `Grayf16Frame::try_new` decides.
pub open spec fn grayf16_check(
    y_len: int,
    width: u32,
    height: u32,
    y_stride: u32,
) -> Result<(), Grayf16FrameError> {
    if width == 0 || height == 0 {
        Err(Grayf16FrameError::ZeroDimension(ZeroDimension { width, height }))
    } else if y_stride < width {
        Err(Grayf16FrameError::InsufficientYStride(short_stride(y_stride, width)))
    } else if !plane_fits(y_stride, height) {
        Err(Grayf16FrameError::GeometryOverflow(overflow(y_stride, height)))
    } else if y_len < plane_need(y_stride, height) {
        Err(Grayf16FrameError::InsufficientYPlane(short_plane(y_stride, height, y_len)))
    } else {
        Ok(())
    }
}

/// The inputs that `Grayf16Frame::try_new` accepts, stated directly: non-zero
/// dimensions, each stride covering a row of its plane, each plane
/// holding its rows; a rejection reports the offending values.
pub proof fn lemma_grayf16_accepts(y_len: int, width: u32, height: u32, y_stride: u32)
    ensures
        ({
            let check = grayf16_check(y_len, width, height, y_stride);
            &&& check is Ok <==> {
                &&& width > 0 && height > 0
                &&& y_stride >= width
                &&& y_stride * height <= usize::MAX
                &&& y_len >= y_stride * height
            }
            &&& check matches Err(Grayf16FrameError::ZeroDimension(e)) ==> {
                &&& e.width == width
                &&& e.height == height
            }
            &&& check matches Err(Grayf16FrameError::InsufficientYStride(e)) ==> {
                &&& e.stride == y_stride
                &&& e.min_stride == width
                &&& y_stride < width
            }
            &&& check matches Err(Grayf16FrameError::InsufficientYPlane(e)) ==> {
                &&& e.expected == y_stride * height
                &&& y_len < y_stride * height
            }
        }),
{
}

/// Validates the geometry of a `Grayf16Frame` whose plane holds the given
/// number of elements, in the order and with the errors of its constructor.
pub fn grayf16_geometry(
    y_len: usize,
    width: u32,
    height: u32,
    y_stride: u32,
) -> (r: Result<(), Grayf16FrameError>)
    ensures
        r == grayf16_check(y_len as int, width, height, y_stride),
        r is Ok <==> ({
            &&& width > 0 && height > 0
            &&& y_stride >= width
            &&& y_stride * height <= usize::MAX
            &&& y_len >= y_stride * height
        }),
{
    proof {
        lemma_grayf16_accepts(y_len as int, width, height, y_stride);
    }
    if width == 0 || height == 0 {
        return Err(Grayf16FrameError::ZeroDimension(ZeroDimension::new(width, height)));
    }
    if y_stride < width {
        return Err(
            Grayf16FrameError::InsufficientYStride(InsufficientStride::new(y_stride, width)),
        );
    }
    let y_min = match (y_stride as usize).checked_mul(height as usize) {
        Some(v) => v,
        None => {
            return Err(
                Grayf16FrameError::GeometryOverflow(GeometryOverflow::new(y_stride, height)),
            );
        },
    };
    if y_len < y_min {
        return Err(Grayf16FrameError::InsufficientYPlane(InsufficientPlane::new(y_min, y_len)));
    }
    Ok(())
}

/// Errors returned by `Grayf16Frame::try_new`.
#[derive(Debug, Clone, Copy, PartialEq, Eq, Hash)]
#[non_exhaustive]
pub enum Grayf16FrameError {
    /// `width` or `height` was zero.
    ZeroDimension(ZeroDimension),
    /// `y_stride < width`.
    InsufficientYStride(InsufficientStride),
    /// The Y plane is shorter than `y_stride * height` elements.
    InsufficientYPlane(InsufficientPlane),
    /// `y_stride * height` does not fit in `usize`.
    GeometryOverflow(GeometryOverflow),
}

/// What `Yaf16Frame::try_new` decides.
pub open spec fn yaf16_check(
    packed_len: int,
    width: u32,
    height: u32,
    stride: u32,
) -> Result<(), Yaf16FrameError> {
    if width == 0 || height == 0 {
        Err(Yaf16FrameError::ZeroDimension(ZeroDimension { width, height }))
    } else if width * 2 > u32::MAX {
        Err(Yaf16FrameError::WidthOverflow(WidthOverflow { width }))
    } else if stride < width * 2 {
        Err(Yaf16FrameError::InsufficientStride(short_stride(stride, (width * 2) as u32)))
    } else if !plane_fits(stride, height) {
        Err(Yaf16FrameError::GeometryOverflow(overflow(stride, height)))
    } else if packed_len < plane_need(stride, height) {
        Err(Yaf16FrameError::InsufficientPlane(short_plane(stride, height, packed_len)))
    } else {
        Ok(())
    }
}

/// The inputs that `Yaf16Frame::try_new` accepts, stated directly: non-zero
/// dimensions, each stride covering a row of its plane, each plane
/// holding its rows; a rejection reports the offending values.
pub proof fn lemma_yaf16_accepts(packed_len: int, width: u32, height: u32, stride: u32)
    ensures
        ({
            let check = yaf16_check(packed_len, width, height, stride);
            &&& check is Ok <==> {
                &&& width > 0 && height > 0
                &&& width * 2 <= u32::MAX
                &&& stride >= width * 2
                &&& stride * height <= usize::MAX
                &&& packed_len >= stride * height
            }
            &&& check matches Err(Yaf16FrameError::ZeroDimension(e)) ==> {
                &&& e.width == width
                &&& e.height == height
            }
            &&& check matches Err(Yaf16FrameError::InsufficientStride(e)) ==> {
                &&& e.stride == stride
                &&& e.min_stride == width * 2
                &&& stride < width * 2
            }
            &&& check matches Err(Yaf16FrameError::InsufficientPlane(e)) ==> {
                &&& e.expected == stride * height
                &&& packed_len < stride * height
            }
        }),
{
}

/// Validates the geometry of a `Yaf16Frame` whose plane holds the given
/// number of elements, in the order and with the errors of its constructor.
pub fn yaf16_geometry(
    packed_len: usize,
    width: u32,
    height: u32,
    stride: u32,
) -> (r: Result<(), Yaf16FrameError>)
    ensures
        r == yaf16_check(packed_len as int, width, height, stride),
        r is Ok <==> ({
            &&& width > 0 && height > 0
            &&& width * 2 <= u32::MAX
            &&& stride >= width * 2
            &&& stride * height <= usize::MAX
            &&& packed_len >= stride * height
        }),
{
    proof {
        lemma_yaf16_accepts(packed_len as int, width, height, stride);
    }
    if width == 0 || height == 0 {
        return Err(Yaf16FrameError::ZeroDimension(ZeroDimension::new(width, height)));
    }
    let min_stride = match width.checked_mul(2) {
        Some(v) => v,
        None => {
            return Err(Yaf16FrameError::WidthOverflow(WidthOverflow::new(width)));
        },
    };
    if stride < min_stride {
        return Err(
            Yaf16FrameError::InsufficientStride(InsufficientStride::new(stride, min_stride)),
        );
    }
    let packed_min = match (stride as usize).checked_mul(height as usize) {
        Some(v) => v,
        None => {
            return Err(
                Yaf16FrameError::GeometryOverflow(GeometryOverflow::new(stride, height)),
            );
        },
    };
    if packed_len < packed_min {
        return Err(
            Yaf16FrameError::InsufficientPlane(InsufficientPlane::new(packed_min, packed_len)),
        );
    }
    Ok(())
}

/// Errors returned by `Yaf16Frame::try_new`.
#[derive(Debug, Clone, Copy, PartialEq, Eq, Hash)]
#[non_exhaustive]
pub enum Yaf16FrameError {
    /// `width` or `height` was zero.
    ZeroDimension(ZeroDimension),
    /// `stride < width * 2`.
    InsufficientStride(InsufficientStride),
    /// The packed plane is shorter than `stride * height` elements.
    InsufficientPlane(InsufficientPlane),
    /// `stride * height` does not fit in `usize`.
    GeometryOverflow(GeometryOverflow),
    /// `width * 2` does not fit in `u32`.
    WidthOverflow(WidthOverflow),
}

/// What `Yaf32Frame::try_new` decides.
pub open spec fn yaf32_check(
    packed_len: int,
    width: u32,
    height: u32,
    stride: u32,
) -> Result<(), Yaf32FrameError> {
    if width == 0 || height == 0 {
        Err(Yaf32FrameError::ZeroDimension(ZeroDimension { width, height }))
    } else if width * 2 > u32::MAX {
        Err(Yaf32FrameError::WidthOverflow(WidthOverflow { width }))
    } else if stride < width * 2 {
        Err(Yaf32FrameError::InsufficientStride(short_stride(stride, (width * 2) as u32)))
    } else if !plane_fits(stride, height) {
        Err(Yaf32FrameError::GeometryOverflow(overflow(stride, height)))
    } else if packed_len < plane_need(stride, height) {
        Err(Yaf32FrameError::InsufficientPlane(short_plane(stride, height, packed_len)))
    } else {
        Ok(())
    }
}

/// The inputs that `Yaf32Frame::try_new` accepts, stated directly: non-zero
/// dimensions, each stride covering a row of its plane, each plane
/// holding its rows; a rejection reports the offending values.
pub proof fn lemma_yaf32_accepts(packed_len: int, width: u32, height: u32, stride: u32)
    ensures
        ({
            let check = yaf32_check(packed_len, width, height, stride);
            &&& check is Ok <==> {
                &&& width > 0 && height > 0
                &&& width * 2 <= u32::MAX
                &&& stride >= width * 2
                &&& stride * height <= usize::MAX
                &&& packed_len >= stride * height
            }
            &&& check matches Err(Yaf32FrameError::ZeroDimension(e)) ==> {
                &&& e.width == width
                &&& e.height == height
            }
            &&& check matches Err(Yaf32FrameError::InsufficientStride(e)) ==> {
                &&& e.stride == stride
                &&& e.min_stride == width * 2
                &&& stride < width * 2
            }
            &&& check matches Err(Yaf32FrameError::InsufficientPlane(e)) ==> {
                &&& e.expected == stride * height
                &&& packed_len < stride * height
            }
        }),
{
}

/// Validates the geometry of a `Yaf32Frame` whose plane holds the given
/// number of elements, in the order and with the errors of its constructor.
pub fn yaf32_geometry(
    packed_len: usize,
    width: u32,
    height: u32,
    stride: u32,
) -> (r: Result<(), Yaf32FrameError>)
    ensures
        r == yaf32_check(packed_len as int, width, height, stride),
        r is Ok <==> ({
            &&& width > 0 && height > 0
            &&& width * 2 <= u32::MAX
            &&& stride >= width * 2
            &&& stride * height <= usize::MAX
            &&& packed_len >= stride * height
        }),
{
    proof {
        lemma_yaf32_accepts(packed_len as int, width, height, stride);
    }
    if width == 0 || height == 0 {
        return Err(Yaf32FrameError::ZeroDimension(ZeroDimension::new(width, height)));
    }
    let min_stride = match width.checked_mul(2) {
        Some(v) => v,
        None => {
            return Err(Yaf32FrameError::WidthOverflow(WidthOverflow::new(width)));
        },
    };
    if stride < min_stride {
        return Err(
            Yaf32FrameError::InsufficientStride(InsufficientStride::new(stride, min_stride)),
        );
    }
    let packed_min = match (stride as usize).checked_mul(height as usize) {
        Some(v) => v,
        None => {
            return Err(
                Yaf32FrameError::GeometryOverflow(GeometryOverflow::new(stride, height)),
            );
        },
    };
    if packed_len < packed_min {
        return Err(
            Yaf32FrameError::InsufficientPlane(InsufficientPlane::new(packed_min, packed_len)),
        );
    }
    Ok(())
}

/// Errors returned by `Yaf32Frame::try_new`.
#[derive(Debug, Clone, Copy, PartialEq, Eq, Hash)]
#[non_exhaustive]
pub enum Yaf32FrameError {
    /// `width` or `height` was zero.
    ZeroDimension(ZeroDimension),
    /// `stride < width * 2`.
    InsufficientStride(InsufficientStride),
    /// The packed plane is shorter than `stride * height` elements.
    InsufficientPlane(InsufficientPlane),
    /// `stride * height` does not fit in `usize`.
    GeometryOverflow(GeometryOverflow),
    /// `width * 2` does not fit in `u32`.
    WidthOverflow(WidthOverflow),
}

} // verus!
