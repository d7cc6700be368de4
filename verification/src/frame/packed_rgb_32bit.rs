//! Validated packed RGB frames with 32-bit integer channels:
//! `Rgb96Frame` (3 `u32` per pixel) and `Rgba128Frame` (4 `u32` per
//! pixel). Strides are in `u32` elements; `BE` records the byte order of
//! the stored channels.

use super::{
    one_plane, outcome, overflow, plane_fits, plane_need, short_plane, short_stride, FrameView,
    GeometryOverflow, InsufficientPlane, InsufficientStride, WidthOverflow, ZeroDimension,
};
use vstd::prelude::*;

verus! {

/// Errors returned by `Rgb96Frame::try_new`.
#[derive(Debug, Clone, Copy, PartialEq, Eq, Hash)]
#[non_exhaustive]
pub enum Rgb96FrameError {
    /// `width` or `height` was zero.
    ZeroDimension(ZeroDimension),
    /// `stride < 3 * width`.
    InsufficientStride(InsufficientStride),
    /// The plane is shorter than `stride * height` elements.
    InsufficientPlane(InsufficientPlane),
    /// `stride * height` overflows `usize`.
    GeometryOverflow(GeometryOverflow),
    /// `3 * width` overflows `u32`.
    WidthOverflow(WidthOverflow),
}

/// What `Rgb96Frame::try_new` decides.
pub open spec fn rgb96_check(
    rgb96_len: int,
    width: u32,
    height: u32,
    stride: u32,
) -> Result<(), Rgb96FrameError> {
    if width == 0 || height == 0 {
        Err(Rgb96FrameError::ZeroDimension(ZeroDimension { width, height }))
    } else if width * 3 > u32::MAX {
        Err(Rgb96FrameError::WidthOverflow(WidthOverflow { width }))
    } else if stride < width * 3 {
        Err(Rgb96FrameError::InsufficientStride(short_stride(stride, (width * 3) as u32)))
    } else if !plane_fits(stride, height) {
        Err(Rgb96FrameError::GeometryOverflow(overflow(stride, height)))
    } else if rgb96_len < plane_need(stride, height) {
        Err(Rgb96FrameError::InsufficientPlane(short_plane(stride, height, rgb96_len)))
    } else {
        Ok(())
    }
}

/// The inputs that `Rgb96Frame::try_new` accepts, stated directly: non-zero
/// dimensions, each stride covering a row of its plane, each plane
/// holding its rows; a rejection reports the offending values.
pub proof fn lemma_rgb96_accepts(rgb96_len: int, width: u32, height: u32, stride: u32)
    ensures
        ({
            let check = rgb96_check(rgb96_len, width, height, stride);
            &&& check is Ok <==> {
                &&& width > 0 && height > 0
                &&& width * 3 <= u32::MAX
                &&& stride >= width * 3
                &&& stride * height <= usize::MAX
                &&& rgb96_len >= stride * height
            }
            &&& check matches Err(Rgb96FrameError::ZeroDimension(e)) ==> {
                &&& e.width == width
                &&& e.height == height
            }
            &&& check matches Err(Rgb96FrameError::InsufficientStride(e)) ==> {
                &&& e.stride == stride
                &&& e.min_stride == width * 3
                &&& stride < width * 3
            }
            &&& check matches Err(Rgb96FrameError::InsufficientPlane(e)) ==> {
                &&& e.expected == stride * height
                &&& rgb96_len < stride * height
            }
        }),
{
}

/// A validated packed RGB frame with three 32-bit unsigned channels per
/// pixel, `[R, G, B]`.
#[derive(Debug, Clone, Copy)]
pub struct Rgb96Frame<'a, const BE: bool> {
    rgb96: &'a [u32],
    width: u32,
    height: u32,
    stride: u32,
}

/// Little-endian `Rgb96Frame`.
pub type Rgb96LeFrame<'a> = Rgb96Frame<'a, false>;
/// Big-endian `Rgb96Frame`.
pub type Rgb96BeFrame<'a> = Rgb96Frame<'a, true>;

impl<'a, const BE: bool> View for Rgb96Frame<'a, BE> {
    type V = FrameView<u32>;

    closed spec fn view(&self) -> FrameView<u32> {
        one_plane(self.width, self.height, self.rgb96@, self.stride)
    }
}

/// `v` is the view of a `Rgb96Frame` that `try_new` accepts: every frame
/// of the type has such a view.
pub open spec fn rgb96_valid(v: FrameView<u32>) -> bool {
    &&& v.planes.len() == 1
    &&& v.strides.len() == 1
    &&& rgb96_check(v.planes[0].len() as int, v.width, v.height, v.strides[0]) is Ok
}

impl<'a, const BE: bool> Rgb96Frame<'a, BE> {
    #[verifier::type_invariant]
    closed spec fn wf(&self) -> bool {
        rgb96_check(self.rgb96@.len() as int, self.width, self.height, self.stride) is Ok
    }

    /// Constructs a new frame, validating dimensions, strides and plane
    /// lengths; reports the first check that fails.
    pub fn try_new(
        rgb96: &'a [u32],
        width: u32,
        height: u32,
        stride: u32,
    ) -> (res: Result<Self, Rgb96FrameError>)
        ensures
            outcome(res) == rgb96_check(rgb96@.len() as int, width, height, stride),
            res is Ok <==> ({
                &&& width > 0 && height > 0
                &&& width * 3 <= u32::MAX
                &&& stride >= width * 3
                &&& stride * height <= usize::MAX
                &&& rgb96@.len() >= stride * height
            }),
            res matches Ok(f) ==> f@ == one_plane(width, height, rgb96@, stride),
    {
        proof {
            lemma_rgb96_accepts(rgb96@.len() as int, width, height, stride);
        }
        if width == 0 || height == 0 {
            return Err(Rgb96FrameError::ZeroDimension(ZeroDimension::new(width, height)));
        }
        let min_stride = match width.checked_mul(3) {
            Some(v) => v,
            None => {
                return Err(Rgb96FrameError::WidthOverflow(WidthOverflow::new(width)));
            },
        };
        if stride < min_stride {
            return Err(
                Rgb96FrameError::InsufficientStride(InsufficientStride::new(stride, min_stride)),
            );
        }
        let rgb96_min = match (stride as usize).checked_mul(height as usize) {
            Some(v) => v,
            None => {
                return Err(
                    Rgb96FrameError::GeometryOverflow(GeometryOverflow::new(stride, height)),
                );
            },
        };
        if rgb96.len() < rgb96_min {
            return Err(
                Rgb96FrameError::InsufficientPlane(InsufficientPlane::new(rgb96_min, rgb96.len())),
            );
        }
        Ok(Rgb96Frame { rgb96, width, height, stride })
    }

    /// Constructs a new frame from inputs that `try_new` accepts.
    pub fn new(rgb96: &'a [u32], width: u32, height: u32, stride: u32) -> (res: Self)
        requires
            rgb96_check(rgb96@.len() as int, width, height, stride) is Ok,
        ensures
            res@ == one_plane(width, height, rgb96@, stride),
    {
        Self::try_new(rgb96, width, height, stride).expect(
            "invalid Rgb96Frame dimensions or plane length",
        )
    }

    /// The packed plane; each pixel is 3 consecutive elements.
    pub fn rgb96(&self) -> (r: &'a [u32])
        ensures
            r@ == self@.planes[0],
            rgb96_valid(self@),
    {
        proof {
            use_type_invariant(self);
        }
        self.rgb96
    }

    /// Frame width in pixels.
    pub fn width(&self) -> (r: u32)
        ensures
            r == self@.width,
            rgb96_valid(self@),
    {
        proof {
            use_type_invariant(self);
        }
        self.width
    }

    /// Frame height in pixels.
    pub fn height(&self) -> (r: u32)
        ensures
            r == self@.height,
            rgb96_valid(self@),
    {
        proof {
            use_type_invariant(self);
        }
        self.height
    }

    /// Row stride in elements (`>= 3 * width`).
    pub fn stride(&self) -> (r: u32)
        ensures
            r == self@.strides[0],
            rgb96_valid(self@),
    {
        proof {
            use_type_invariant(self);
        }
        self.stride
    }

    /// Whether the stored samples are big-endian (`BE`).
    pub fn is_be(&self) -> (r: bool)
        ensures
            r == BE,
    {
        BE
    }
}

/// Errors returned by `Rgba128Frame::try_new`.
#[derive(Debug, Clone, Copy, PartialEq, Eq, Hash)]
#[non_exhaustive]
pub enum Rgba128FrameError {
    /// `width` or `height` was zero.
    ZeroDimension(ZeroDimension),
    /// `stride < 4 * width`.
    InsufficientStride(InsufficientStride),
    /// The plane is shorter than `stride * height` elements.
    InsufficientPlane(InsufficientPlane),
    /// `stride * height` overflows `usize`.
    GeometryOverflow(GeometryOverflow),
    /// `4 * width` overflows `u32`.
    WidthOverflow(WidthOverflow),
}

/// What `Rgba128Frame::try_new` decides.
pub open spec fn rgba128_check(
    rgba128_len: int,
    width: u32,
    height: u32,
    stride: u32,
) -> Result<(), Rgba128FrameError> {
    if width == 0 || height == 0 {
        Err(Rgba128FrameError::ZeroDimension(ZeroDimension { width, height }))
    } else if width * 4 > u32::MAX {
        Err(Rgba128FrameError::WidthOverflow(WidthOverflow { width }))
    } else if stride < width * 4 {
        Err(Rgba128FrameError::InsufficientStride(short_stride(stride, (width * 4) as u32)))
    } else if !plane_fits(stride, height) {
        Err(Rgba128FrameError::GeometryOverflow(overflow(stride, height)))
    } else if rgba128_len < plane_need(stride, height) {
        Err(Rgba128FrameError::InsufficientPlane(short_plane(stride, height, rgba128_len)))
    } else {
        Ok(())
    }
}

/// The inputs that `Rgba128Frame::try_new` accepts, stated directly: non-zero
/// dimensions, each stride covering a row of its plane, each plane
/// holding its rows; a rejection reports the offending values.
pub proof fn lemma_rgba128_accepts(rgba128_len: int, width: u32, height: u32, stride: u32)
    ensures
        ({
            let check = rgba128_check(rgba128_len, width, height, stride);
            &&& check is Ok <==> {
                &&& width > 0 && height > 0
                &&& width * 4 <= u32::MAX
                &&& stride >= width * 4
                &&& stride * height <= usize::MAX
                &&& rgba128_len >= stride * height
            }
            &&& check matches Err(Rgba128FrameError::ZeroDimension(e)) ==> {
                &&& e.width == width
                &&& e.height == height
            }
            &&& check matches Err(Rgba128FrameError::InsufficientStride(e)) ==> {
                &&& e.stride == stride
                &&& e.min_stride == width * 4
                &&& stride < width * 4
            }
            &&& check matches Err(Rgba128FrameError::InsufficientPlane(e)) ==> {
                &&& e.expected == stride * height
                &&& rgba128_len < stride * height
            }
        }),
{
}

/// A validated packed RGBA frame with four 32-bit unsigned channels per
/// pixel, `[R, G, B, A]`.
#[derive(Debug, Clone, Copy)]
pub struct Rgba128Frame<'a, const BE: bool> {
    rgba128: &'a [u32],
    width: u32,
    height: u32,
    stride: u32,
}

/// Little-endian `Rgba128Frame`.
pub type Rgba128LeFrame<'a> = Rgba128Frame<'a, false>;
/// Big-endian `Rgba128Frame`.
pub type Rgba128BeFrame<'a> = Rgba128Frame<'a, true>;

impl<'a, const BE: bool> View for Rgba128Frame<'a, BE> {
    type V = FrameView<u32>;

    closed spec fn view(&self) -> FrameView<u32> {
        one_plane(self.width, self.height, self.rgba128@, self.stride)
    }
}

/// `v` is the view of a `Rgba128Frame` that `try_new` accepts: every frame
/// of the type has such a view.
pub open spec fn rgba128_valid(v: FrameView<u32>) -> bool {
    &&& v.planes.len() == 1
    &&& v.strides.len() == 1
    &&& rgba128_check(v.planes[0].len() as int, v.width, v.height, v.strides[0]) is Ok
}

impl<'a, const BE: bool> Rgba128Frame<'a, BE> {
    #[verifier::type_invariant]
    closed spec fn wf(&self) -> bool {
        rgba128_check(self.rgba128@.len() as int, self.width, self.height, self.stride) is Ok
    }

    /// Constructs a new frame, validating dimensions, strides and plane
    /// lengths; reports the first check that fails.
    pub fn try_new(
        rgba128: &'a [u32],
        width: u32,
        height: u32,
        stride: u32,
    ) -> (res: Result<Self, Rgba128FrameError>)
        ensures
            outcome(res) == rgba128_check(rgba128@.len() as int, width, height, stride),
            res is Ok <==> ({
                &&& width > 0 && height > 0
                &&& width * 4 <= u32::MAX
                &&& stride >= width * 4
                &&& stride * height <= usize::MAX
                &&& rgba128@.len() >= stride * height
            }),
            res matches Ok(f) ==> f@ == one_plane(width, height, rgba128@, stride),
    {
        proof {
            lemma_rgba128_accepts(rgba128@.len() as int, width, height, stride);
        }
        if width == 0 || height == 0 {
            return Err(Rgba128FrameError::ZeroDimension(ZeroDimension::new(width, height)));
        }
        let min_stride = match width.checked_mul(4) {
            Some(v) => v,
            None => {
                return Err(Rgba128FrameError::WidthOverflow(WidthOverflow::new(width)));
            },
        };
        if stride < min_stride {
            return Err(
                Rgba128FrameError::InsufficientStride(InsufficientStride::new(stride, min_stride)),
            );
        }
        let rgba128_min = match (stride as usize).checked_mul(height as usize) {
            Some(v) => v,
            None => {
                return Err(
                    Rgba128FrameError::GeometryOverflow(GeometryOverflow::new(stride, height)),
                );
            },
        };
        if rgba128.len() < rgba128_min {
            return Err(
                Rgba128FrameError::InsufficientPlane(
                    InsufficientPlane::new(rgba128_min, rgba128.len()),
                ),
            );
        }
        Ok(Rgba128Frame { rgba128, width, height, stride })
    }

    /// Constructs a new frame from inputs that `try_new` accepts.
    pub fn new(rgba128: &'a [u32], width: u32, height: u32, stride: u32) -> (res: Self)
        requires
            rgba128_check(rgba128@.len() as int, width, height, stride) is Ok,
        ensures
            res@ == one_plane(width, height, rgba128@, stride),
    {
        Self::try_new(rgba128, width, height, stride).expect(
            "invalid Rgba128Frame dimensions or plane length",
        )
    }

    /// The packed plane; each pixel is 4 consecutive elements.
    pub fn rgba128(&self) -> (r: &'a [u32])
        ensures
            r@ == self@.planes[0],
            rgba128_valid(self@),
    {
        proof {
            use_type_invariant(self);
        }
        self.rgba128
    }

    /// Frame width in pixels.
    pub fn width(&self) -> (r: u32)
        ensures
            r == self@.width,
            rgba128_valid(self@),
    {
        proof {
            use_type_invariant(self);
        }
        self.width
    }

    /// Frame height in pixels.
    pub fn height(&self) -> (r: u32)
        ensures
            r == self@.height,
            rgba128_valid(self@),
    {
        proof {
            use_type_invariant(self);
        }
        self.height
    }

    /// Row stride in elements (`>= 4 * width`).
    pub fn stride(&self) -> (r: u32)
        ensures
            r == self@.strides[0],
            rgba128_valid(self@),
    {
        proof {
            use_type_invariant(self);
        }
        self.stride
    }

    /// Whether the stored samples are big-endian (`BE`).
    pub fn is_be(&self) -> (r: bool)
        ensures
            r == BE,
    {
        BE
    }
}

} // verus!
