//! Validated 8-bit semi-planar YUV frames: a full-size Y plane and one
//! interleaved chroma plane. `Nv12Frame` / `Nv21Frame` (4:2:0, UV / VU
//! order), `Nv16Frame` (4:2:2), `Nv24Frame` / `Nv42Frame` (4:4:4, UV /
//! VU order). Strides are in bytes.

use super::{
    div_ceil2, half_up, lemma_low_bit_is_parity, odd_width, outcome, overflow, plane_fits,
    plane_need, short_plane, short_stride, two_planes, FrameView, GeometryOverflow,
    InsufficientPlane, InsufficientStride, WidthAlignment, ZeroDimension,
};
use vstd::prelude::*;

verus! {

/// What `Nv12Frame::try_new` decides.
pub open spec fn nv12_check(
    y_len: int,
    uv_len: int,
    width: u32,
    height: u32,
    y_stride: u32,
    uv_stride: u32,
) -> Result<(), Nv12FrameError> {
    if width == 0 || height == 0 {
        Err(Nv12FrameError::ZeroDimension(ZeroDimension { width, height }))
    } else if width % 2 == 1 {
        Err(Nv12FrameError::WidthAlignment(odd_width(width)))
    } else if y_stride < width {
        Err(Nv12FrameError::InsufficientYStride(short_stride(y_stride, width)))
    } else if uv_stride < width {
        Err(Nv12FrameError::InsufficientUvStride(short_stride(uv_stride, width)))
    } else if !plane_fits(y_stride, height) {
        Err(Nv12FrameError::GeometryOverflow(overflow(y_stride, height)))
    } else if y_len < plane_need(y_stride, height) {
        Err(Nv12FrameError::InsufficientYPlane(short_plane(y_stride, height, y_len)))
    } else if !plane_fits(uv_stride, half_up(height)) {
        Err(Nv12FrameError::GeometryOverflow(overflow(uv_stride, half_up(height))))
    } else if uv_len < plane_need(uv_stride, half_up(height)) {
        Err(Nv12FrameError::InsufficientUvPlane(short_plane(uv_stride, half_up(height), uv_len)))
    } else {
        Ok(())
    }
}

/// The inputs that `Nv12Frame::try_new` accepts, stated directly: non-zero
/// dimensions, each stride covering a row of its plane, each plane
/// holding its rows; a rejection reports the offending values.
pub proof fn lemma_nv12_accepts(
    y_len: int,
    uv_len: int,
    width: u32,
    height: u32,
    y_stride: u32,
    uv_stride: u32,
)
    ensures
        ({
            let check = nv12_check(y_len, uv_len, width, height, y_stride, uv_stride);
            &&& check is Ok <==> {
                &&& width > 0 && height > 0
                &&& width % 2 == 0
                &&& y_stride >= width
                &&& uv_stride >= width
                &&& y_stride * height <= usize::MAX
                &&& y_len >= y_stride * height
                &&& uv_stride * ((height + 1) / 2) <= usize::MAX
                &&& uv_len >= uv_stride * ((height + 1) / 2)
            }
            &&& check matches Err(Nv12FrameError::ZeroDimension(e)) ==> {
                &&& e.width == width
                &&& e.height == height
            }
            &&& check matches Err(Nv12FrameError::InsufficientYStride(e)) ==> {
                &&& e.stride == y_stride
                &&& e.min_stride == width
                &&& y_stride < width
            }
            &&& check matches Err(Nv12FrameError::InsufficientUvStride(e)) ==> {
                &&& e.stride == uv_stride
                &&& e.min_stride == width
                &&& uv_stride < width
            }
            &&& check matches Err(Nv12FrameError::InsufficientYPlane(e)) ==> {
                &&& e.expected == y_stride * height
                &&& y_len < y_stride * height
            }
            &&& check matches Err(Nv12FrameError::InsufficientUvPlane(e)) ==> {
                &&& e.expected == uv_stride * ((height + 1) / 2)
                &&& uv_len < uv_stride * ((height + 1) / 2)
            }
        }),
{
    assert(half_up(height) == (height + 1) / 2);
}

/// A validated NV12 frame (4:2:0 semi-planar, `AV_PIX_FMT_NV12`): Y at full
/// size; interleaved U/V at half width and half height (rounded up), so a
/// UV row holds `width` bytes. `width` must be even.
#[derive(Debug, Clone, Copy)]
pub struct Nv12Frame<'a> {
    y: &'a [u8],
    uv: &'a [u8],
    width: u32,
    height: u32,
    y_stride: u32,
    uv_stride: u32,
}

impl<'a> View for Nv12Frame<'a> {
    type V = FrameView<u8>;

    closed spec fn view(&self) -> FrameView<u8> {
        two_planes(self.width, self.height, self.y@, self.uv@, self.y_stride, self.uv_stride)
    }
}

/// `v` is the view of a `Nv12Frame` that `try_new` accepts: every frame
/// of the type has such a view.
pub open spec fn nv12_valid(v: FrameView<u8>) -> bool {
    &&& v.planes.len() == 2
    &&& v.strides.len() == 2
    &&& nv12_check(
        v.planes[0].len() as int,
        v.planes[1].len() as int,
        v.width,
        v.height,
        v.strides[0],
        v.strides[1],
    ) is Ok
}

impl<'a> Nv12Frame<'a> {
    #[verifier::type_invariant]
    closed spec fn wf(&self) -> bool {
        nv12_check(
            self.y@.len() as int,
            self.uv@.len() as int,
            self.width,
            self.height,
            self.y_stride,
            self.uv_stride,
        ) is Ok
    }

    /// Constructs a new frame, validating dimensions, strides and plane
    /// lengths; reports the first check that fails.
    pub fn try_new(
        y: &'a [u8],
        uv: &'a [u8],
        width: u32,
        height: u32,
        y_stride: u32,
        uv_stride: u32,
    ) -> (res: Result<Self, Nv12FrameError>)
        ensures
            outcome(res) == nv12_check(
                y@.len() as int,
                uv@.len() as int,
                width,
                height,
                y_stride,
                uv_stride,
            ),
            res is Ok <==> ({
                &&& width > 0 && height > 0
                &&& width % 2 == 0
                &&& y_stride >= width
                &&& uv_stride >= width
                &&& y_stride * height <= usize::MAX
                &&& y@.len() >= y_stride * height
                &&& uv_stride * ((height + 1) / 2) <= usize::MAX
                &&& uv@.len() >= uv_stride * ((height + 1) / 2)
            }),
            res matches Ok(f) ==> f@ == two_planes(width, height, y@, uv@, y_stride, uv_stride),
    {
        proof {
            lemma_nv12_accepts(
                y@.len() as int,
                uv@.len() as int,
                width,
                height,
                y_stride,
                uv_stride,
            );
        }
        if width == 0 || height == 0 {
            return Err(Nv12FrameError::ZeroDimension(ZeroDimension::new(width, height)));
        }
        proof {
            lemma_low_bit_is_parity(width);
        }
        if width & 1 != 0 {
            return Err(Nv12FrameError::WidthAlignment(WidthAlignment::odd(width as usize)));
        }
        if y_stride < width {
            return Err(
                Nv12FrameError::InsufficientYStride(InsufficientStride::new(y_stride, width)),
            );
        }
        let uv_row_bytes = width;
        if uv_stride < uv_row_bytes {
            return Err(
                Nv12FrameError::InsufficientUvStride(
                    InsufficientStride::new(uv_stride, uv_row_bytes),
                ),
            );
        }
        let y_min = match (y_stride as usize).checked_mul(height as usize) {
            Some(v) => v,
            None => {
                return Err(
                    Nv12FrameError::GeometryOverflow(GeometryOverflow::new(y_stride, height)),
                );
            },
        };
        if y.len() < y_min {
            return Err(Nv12FrameError::InsufficientYPlane(InsufficientPlane::new(y_min, y.len())));
        }
        let chroma_height = div_ceil2(height);
        let uv_min = match (uv_stride as usize).checked_mul(chroma_height as usize) {
            Some(v) => v,
            None => {
                return Err(
                    Nv12FrameError::GeometryOverflow(
                        GeometryOverflow::new(uv_stride, chroma_height),
                    ),
                );
            },
        };
        if uv.len() < uv_min {
            return Err(
                Nv12FrameError::InsufficientUvPlane(InsufficientPlane::new(uv_min, uv.len())),
            );
        }
        Ok(Nv12Frame { y, uv, width, height, y_stride, uv_stride })
    }

    /// Constructs a new frame from inputs that `try_new` accepts.
    pub fn new(
        y: &'a [u8],
        uv: &'a [u8],
        width: u32,
        height: u32,
        y_stride: u32,
        uv_stride: u32,
    ) -> (res: Self)
        requires
            nv12_check(y@.len() as int, uv@.len() as int, width, height, y_stride, uv_stride) is Ok,
        ensures
            res@ == two_planes(width, height, y@, uv@, y_stride, uv_stride),
    {
        Self::try_new(y, uv, width, height, y_stride, uv_stride).expect(
            "invalid Nv12Frame dimensions or plane lengths",
        )
    }

    /// Y (luma) plane bytes. Row `r` starts at byte `r * y_stride()`.
    pub fn y(&self) -> (r: &'a [u8])
        ensures
            r@ == self@.planes[0],
            nv12_valid(self@),
    {
        proof {
            use_type_invariant(self);
        }
        self.y
    }

    /// Interleaved UV plane bytes. Row `r` starts at byte `r * uv_stride()`.
    pub fn uv(&self) -> (r: &'a [u8])
        ensures
            r@ == self@.planes[1],
            nv12_valid(self@),
    {
        proof {
            use_type_invariant(self);
        }
        self.uv
    }

    /// Frame width in pixels.
    pub fn width(&self) -> (r: u32)
        ensures
            r == self@.width,
            nv12_valid(self@),
    {
        proof {
            use_type_invariant(self);
        }
        self.width
    }

    /// Frame height in pixels.
    pub fn height(&self) -> (r: u32)
        ensures
            r == self@.height,
            nv12_valid(self@),
    {
        proof {
            use_type_invariant(self);
        }
        self.height
    }

    /// Byte stride of the Y plane (`>= width`).
    pub fn y_stride(&self) -> (r: u32)
        ensures
            r == self@.strides[0],
            nv12_valid(self@),
    {
        proof {
            use_type_invariant(self);
        }
        self.y_stride
    }

    /// Byte stride of the UV plane.
    pub fn uv_stride(&self) -> (r: u32)
        ensures
            r == self@.strides[1],
            nv12_valid(self@),
    {
        proof {
            use_type_invariant(self);
        }
        self.uv_stride
    }
}

/// Errors returned by `Nv12Frame::try_new`.
#[derive(Debug, Clone, Copy, PartialEq, Eq, Hash)]
#[non_exhaustive]
pub enum Nv12FrameError {
    /// `width` or `height` was zero.
    ZeroDimension(ZeroDimension),
    /// `width` is odd (the chroma plane is subsampled horizontally).
    WidthAlignment(WidthAlignment),
    /// `y_stride < width`.
    InsufficientYStride(InsufficientStride),
    /// `uv_stride` is shorter than one UV row (`width` bytes).
    InsufficientUvStride(InsufficientStride),
    /// The Y plane is shorter than `y_stride * height` bytes.
    InsufficientYPlane(InsufficientPlane),
    /// The UV plane is shorter than `uv_stride` times its row count.
    InsufficientUvPlane(InsufficientPlane),
    /// A row length or `stride * rows` overflows.
    GeometryOverflow(GeometryOverflow),
}

/// What `Nv16Frame::try_new` decides.
pub open spec fn nv16_check(
    y_len: int,
    uv_len: int,
    width: u32,
    height: u32,
    y_stride: u32,
    uv_stride: u32,
) -> Result<(), Nv16FrameError> {
    if width == 0 || height == 0 {
        Err(Nv16FrameError::ZeroDimension(ZeroDimension { width, height }))
    } else if width % 2 == 1 {
        Err(Nv16FrameError::WidthAlignment(odd_width(width)))
    } else if y_stride < width {
        Err(Nv16FrameError::InsufficientYStride(short_stride(y_stride, width)))
    } else if uv_stride < width {
        Err(Nv16FrameError::InsufficientUvStride(short_stride(uv_stride, width)))
    } else if !plane_fits(y_stride, height) {
        Err(Nv16FrameError::GeometryOverflow(overflow(y_stride, height)))
    } else if y_len < plane_need(y_stride, height) {
        Err(Nv16FrameError::InsufficientYPlane(short_plane(y_stride, height, y_len)))
    } else if !plane_fits(uv_stride, height) {
        Err(Nv16FrameError::GeometryOverflow(overflow(uv_stride, height)))
    } else if uv_len < plane_need(uv_stride, height) {
        Err(Nv16FrameError::InsufficientUvPlane(short_plane(uv_stride, height, uv_len)))
    } else {
        Ok(())
    }
}

/// The inputs that `Nv16Frame::try_new` accepts, stated directly: non-zero
/// dimensions, each stride covering a row of its plane, each plane
/// holding its rows; a rejection reports the offending values.
pub proof fn lemma_nv16_accepts(
    y_len: int,
    uv_len: int,
    width: u32,
    height: u32,
    y_stride: u32,
    uv_stride: u32,
)
    ensures
        ({
            let check = nv16_check(y_len, uv_len, width, height, y_stride, uv_stride);
            &&& check is Ok <==> {
                &&& width > 0 && height > 0
                &&& width % 2 == 0
                &&& y_stride >= width
                &&& uv_stride >= width
                &&& y_stride * height <= usize::MAX
                &&& y_len >= y_stride * height
                &&& uv_stride * height <= usize::MAX
                &&& uv_len >= uv_stride * height
            }
            &&& check matches Err(Nv16FrameError::ZeroDimension(e)) ==> {
                &&& e.width == width
                &&& e.height == height
            }
            &&& check matches Err(Nv16FrameError::InsufficientYStride(e)) ==> {
                &&& e.stride == y_stride
                &&& e.min_stride == width
                &&& y_stride < width
            }
            &&& check matches Err(Nv16FrameError::InsufficientUvStride(e)) ==> {
                &&& e.stride == uv_stride
                &&& e.min_stride == width
                &&& uv_stride < width
            }
            &&& check matches Err(Nv16FrameError::InsufficientYPlane(e)) ==> {
                &&& e.expected == y_stride * height
                &&& y_len < y_stride * height
            }
            &&& check matches Err(Nv16FrameError::InsufficientUvPlane(e)) ==> {
                &&& e.expected == uv_stride * height
                &&& uv_len < uv_stride * height
            }
        }),
{
}

/// A validated NV16 frame (4:2:2 semi-planar, `AV_PIX_FMT_NV16`): Y at full
/// size; interleaved U/V at half width and full height, so a UV row holds
/// `width` bytes. `width` must be even.
#[derive(Debug, Clone, Copy)]
pub struct Nv16Frame<'a> {
    y: &'a [u8],
    uv: &'a [u8],
    width: u32,
    height: u32,
    y_stride: u32,
    uv_stride: u32,
}

impl<'a> View for Nv16Frame<'a> {
    type V = FrameView<u8>;

    closed spec fn view(&self) -> FrameView<u8> {
        two_planes(self.width, self.height, self.y@, self.uv@, self.y_stride, self.uv_stride)
    }
}

/// `v` is the view of a `Nv16Frame` that `try_new` accepts: every frame
/// of the type has such a view.
pub open spec fn nv16_valid(v: FrameView<u8>) -> bool {
    &&& v.planes.len() == 2
    &&& v.strides.len() == 2
    &&& nv16_check(
        v.planes[0].len() as int,
        v.planes[1].len() as int,
        v.width,
        v.height,
        v.strides[0],
        v.strides[1],
    ) is Ok
}

impl<'a> Nv16Frame<'a> {
    #[verifier::type_invariant]
    closed spec fn wf(&self) -> bool {
        nv16_check(
            self.y@.len() as int,
            self.uv@.len() as int,
            self.width,
            self.height,
            self.y_stride,
            self.uv_stride,
        ) is Ok
    }

    /// Constructs a new frame, validating dimensions, strides and plane
    /// lengths; reports the first check that fails.
    pub fn try_new(
        y: &'a [u8],
        uv: &'a [u8],
        width: u32,
        height: u32,
        y_stride: u32,
        uv_stride: u32,
    ) -> (res: Result<Self, Nv16FrameError>)
        ensures
            outcome(res) == nv16_check(
                y@.len() as int,
                uv@.len() as int,
                width,
                height,
                y_stride,
                uv_stride,
            ),
            res is Ok <==> ({
                &&& width > 0 && height > 0
                &&& width % 2 == 0
                &&& y_stride >= width
                &&& uv_stride >= width
                &&& y_stride * height <= usize::MAX
                &&& y@.len() >= y_stride * height
                &&& uv_stride * height <= usize::MAX
                &&& uv@.len() >= uv_stride * height
            }),
            res matches Ok(f) ==> f@ == two_planes(width, height, y@, uv@, y_stride, uv_stride),
    {
        proof {
            lemma_nv16_accepts(
                y@.len() as int,
                uv@.len() as int,
                width,
                height,
                y_stride,
                uv_stride,
            );
        }
        if width == 0 || height == 0 {
            return Err(Nv16FrameError::ZeroDimension(ZeroDimension::new(width, height)));
        }
        proof {
            lemma_low_bit_is_parity(width);
        }
        if width & 1 != 0 {
            return Err(Nv16FrameError::WidthAlignment(WidthAlignment::odd(width as usize)));
        }
        if y_stride < width {
            return Err(
                Nv16FrameError::InsufficientYStride(InsufficientStride::new(y_stride, width)),
            );
        }
        let uv_row_bytes = width;
        if uv_stride < uv_row_bytes {
            return Err(
                Nv16FrameError::InsufficientUvStride(
                    InsufficientStride::new(uv_stride, uv_row_bytes),
                ),
            );
        }
        let y_min = match (y_stride as usize).checked_mul(height as usize) {
            Some(v) => v,
            None => {
                return Err(
                    Nv16FrameError::GeometryOverflow(GeometryOverflow::new(y_stride, height)),
                );
            },
        };
        if y.len() < y_min {
            return Err(Nv16FrameError::InsufficientYPlane(InsufficientPlane::new(y_min, y.len())));
        }
        let uv_min = match (uv_stride as usize).checked_mul(height as usize) {
            Some(v) => v,
            None => {
                return Err(
                    Nv16FrameError::GeometryOverflow(GeometryOverflow::new(uv_stride, height)),
                );
            },
        };
        if uv.len() < uv_min {
            return Err(
                Nv16FrameError::InsufficientUvPlane(InsufficientPlane::new(uv_min, uv.len())),
            );
        }
        Ok(Nv16Frame { y, uv, width, height, y_stride, uv_stride })
    }

    /// Constructs a new frame from inputs that `try_new` accepts.
    pub fn new(
        y: &'a [u8],
        uv: &'a [u8],
        width: u32,
        height: u32,
        y_stride: u32,
        uv_stride: u32,
    ) -> (res: Self)
        requires
            nv16_check(y@.len() as int, uv@.len() as int, width, height, y_stride, uv_stride) is Ok,
        ensures
            res@ == two_planes(width, height, y@, uv@, y_stride, uv_stride),
    {
        Self::try_new(y, uv, width, height, y_stride, uv_stride).expect(
            "invalid Nv16Frame dimensions or plane lengths",
        )
    }

    /// Y (luma) plane bytes. Row `r` starts at byte `r * y_stride()`.
    pub fn y(&self) -> (r: &'a [u8])
        ensures
            r@ == self@.planes[0],
            nv16_valid(self@),
    {
        proof {
            use_type_invariant(self);
        }
        self.y
    }

    /// Interleaved UV plane bytes. Row `r` starts at byte `r * uv_stride()`.
    pub fn uv(&self) -> (r: &'a [u8])
        ensures
            r@ == self@.planes[1],
            nv16_valid(self@),
    {
        proof {
            use_type_invariant(self);
        }
        self.uv
    }

    /// Frame width in pixels.
    pub fn width(&self) -> (r: u32)
        ensures
            r == self@.width,
            nv16_valid(self@),
    {
        proof {
            use_type_invariant(self);
        }
        self.width
    }

    /// Frame height in pixels.
    pub fn height(&self) -> (r: u32)
        ensures
            r == self@.height,
            nv16_valid(self@),
    {
        proof {
            use_type_invariant(self);
        }
        self.height
    }

    /// Byte stride of the Y plane (`>= width`).
    pub fn y_stride(&self) -> (r: u32)
        ensures
            r == self@.strides[0],
            nv16_valid(self@),
    {
        proof {
            use_type_invariant(self);
        }
        self.y_stride
    }

    /// Byte stride of the UV plane.
    pub fn uv_stride(&self) -> (r: u32)
        ensures
            r == self@.strides[1],
            nv16_valid(self@),
    {
        proof {
            use_type_invariant(self);
        }
        self.uv_stride
    }
}

/// Errors returned by `Nv16Frame::try_new`.
#[derive(Debug, Clone, Copy, PartialEq, Eq, Hash)]
#[non_exhaustive]
pub enum Nv16FrameError {
    /// `width` or `height` was zero.
    ZeroDimension(ZeroDimension),
    /// `width` is odd (the chroma plane is subsampled horizontally).
    WidthAlignment(WidthAlignment),
    /// `y_stride < width`.
    InsufficientYStride(InsufficientStride),
    /// `uv_stride` is shorter than one UV row (`width` bytes).
    InsufficientUvStride(InsufficientStride),
    /// The Y plane is shorter than `y_stride * height` bytes.
    InsufficientYPlane(InsufficientPlane),
    /// The UV plane is shorter than `uv_stride` times its row count.
    InsufficientUvPlane(InsufficientPlane),
    /// A row length or `stride * rows` overflows.
    GeometryOverflow(GeometryOverflow),
}

/// What `Nv24Frame::try_new` decides.
pub open spec fn nv24_check(
    y_len: int,
    uv_len: int,
    width: u32,
    height: u32,
    y_stride: u32,
    uv_stride: u32,
) -> Result<(), Nv24FrameError> {
    if width == 0 || height == 0 {
        Err(Nv24FrameError::ZeroDimension(ZeroDimension { width, height }))
    } else if y_stride < width {
        Err(Nv24FrameError::InsufficientYStride(short_stride(y_stride, width)))
    } else if width * 2 > u32::MAX {
        Err(Nv24FrameError::GeometryOverflow(overflow(width, 2)))
    } else if uv_stride < width * 2 {
        Err(Nv24FrameError::InsufficientUvStride(short_stride(uv_stride, (width * 2) as u32)))
    } else if !plane_fits(y_stride, height) {
        Err(Nv24FrameError::GeometryOverflow(overflow(y_stride, height)))
    } else if y_len < plane_need(y_stride, height) {
        Err(Nv24FrameError::InsufficientYPlane(short_plane(y_stride, height, y_len)))
    } else if !plane_fits(uv_stride, height) {
        Err(Nv24FrameError::GeometryOverflow(overflow(uv_stride, height)))
    } else if uv_len < plane_need(uv_stride, height) {
        Err(Nv24FrameError::InsufficientUvPlane(short_plane(uv_stride, height, uv_len)))
    } else {
        Ok(())
    }
}

/// The inputs that `Nv24Frame::try_new` accepts, stated directly: non-zero
/// dimensions, each stride covering a row of its plane, each plane
/// holding its rows; a rejection reports the offending values.
pub proof fn lemma_nv24_accepts(
    y_len: int,
    uv_len: int,
    width: u32,
    height: u32,
    y_stride: u32,
    uv_stride: u32,
)
    ensures
        ({
            let check = nv24_check(y_len, uv_len, width, height, y_stride, uv_stride);
            &&& check is Ok <==> {
                &&& width > 0 && height > 0
                &&& y_stride >= width
                &&& width * 2 <= u32::MAX
                &&& uv_stride >= width * 2
                &&& y_stride * height <= usize::MAX
                &&& y_len >= y_stride * height
                &&& uv_stride * height <= usize::MAX
                &&& uv_len >= uv_stride * height
            }
            &&& check matches Err(Nv24FrameError::ZeroDimension(e)) ==> {
                &&& e.width == width
                &&& e.height == height
            }
            &&& check matches Err(Nv24FrameError::InsufficientYStride(e)) ==> {
                &&& e.stride == y_stride
                &&& e.min_stride == width
                &&& y_stride < width
            }
            &&& check matches Err(Nv24FrameError::InsufficientUvStride(e)) ==> {
                &&& e.stride == uv_stride
                &&& e.min_stride == width * 2
                &&& uv_stride < width * 2
            }
            &&& check matches Err(Nv24FrameError::InsufficientYPlane(e)) ==> {
                &&& e.expected == y_stride * height
                &&& y_len < y_stride * height
            }
            &&& check matches Err(Nv24FrameError::InsufficientUvPlane(e)) ==> {
                &&& e.expected == uv_stride * height
                &&& uv_len < uv_stride * height
            }
        }),
{
}

/// A validated NV24 frame (4:4:4 semi-planar, `AV_PIX_FMT_NV24`): Y and
/// interleaved U/V both at full size, so a UV row holds `2 * width` bytes.
#[derive(Debug, Clone, Copy)]
pub struct Nv24Frame<'a> {
    y: &'a [u8],
    uv: &'a [u8],
    width: u32,
    height: u32,
    y_stride: u32,
    uv_stride: u32,
}

impl<'a> View for Nv24Frame<'a> {
    type V = FrameView<u8>;

    closed spec fn view(&self) -> FrameView<u8> {
        two_planes(self.width, self.height, self.y@, self.uv@, self.y_stride, self.uv_stride)
    }
}

/// `v` is the view of a `Nv24Frame` that `try_new` accepts: every frame
/// of the type has such a view.
pub open spec fn nv24_valid(v: FrameView<u8>) -> bool {
    &&& v.planes.len() == 2
    &&& v.strides.len() == 2
    &&& nv24_check(
        v.planes[0].len() as int,
        v.planes[1].len() as int,
        v.width,
        v.height,
        v.strides[0],
        v.strides[1],
    ) is Ok
}

impl<'a> Nv24Frame<'a> {
    #[verifier::type_invariant]
    closed spec fn wf(&self) -> bool {
        nv24_check(
            self.y@.len() as int,
            self.uv@.len() as int,
            self.width,
            self.height,
            self.y_stride,
            self.uv_stride,
        ) is Ok
    }

    /// Constructs a new frame, validating dimensions, strides and plane
    /// lengths; reports the first check that fails.
    pub fn try_new(
        y: &'a [u8],
        uv: &'a [u8],
        width: u32,
        height: u32,
        y_stride: u32,
        uv_stride: u32,
    ) -> (res: Result<Self, Nv24FrameError>)
        ensures
            outcome(res) == nv24_check(
                y@.len() as int,
                uv@.len() as int,
                width,
                height,
                y_stride,
                uv_stride,
            ),
            res is Ok <==> ({
                &&& width > 0 && height > 0
                &&& y_stride >= width
                &&& width * 2 <= u32::MAX
                &&& uv_stride >= width * 2
                &&& y_stride * height <= usize::MAX
                &&& y@.len() >= y_stride * height
                &&& uv_stride * height <= usize::MAX
                &&& uv@.len() >= uv_stride * height
            }),
            res matches Ok(f) ==> f@ == two_planes(width, height, y@, uv@, y_stride, uv_stride),
    {
        proof {
            lemma_nv24_accepts(
                y@.len() as int,
                uv@.len() as int,
                width,
                height,
                y_stride,
                uv_stride,
            );
        }
        if width == 0 || height == 0 {
            return Err(Nv24FrameError::ZeroDimension(ZeroDimension::new(width, height)));
        }
        if y_stride < width {
            return Err(
                Nv24FrameError::InsufficientYStride(InsufficientStride::new(y_stride, width)),
            );
        }
        let uv_row_bytes = match width.checked_mul(2) {
            Some(v) => v,
            None => {
                return Err(Nv24FrameError::GeometryOverflow(GeometryOverflow::new(width, 2)));
            },
        };
        if uv_stride < uv_row_bytes {
            return Err(
                Nv24FrameError::InsufficientUvStride(
                    InsufficientStride::new(uv_stride, uv_row_bytes),
                ),
            );
        }
        let y_min = match (y_stride as usize).checked_mul(height as usize) {
            Some(v) => v,
            None => {
                return Err(
                    Nv24FrameError::GeometryOverflow(GeometryOverflow::new(y_stride, height)),
                );
            },
        };
        if y.len() < y_min {
            return Err(Nv24FrameError::InsufficientYPlane(InsufficientPlane::new(y_min, y.len())));
        }
        let uv_min = match (uv_stride as usize).checked_mul(height as usize) {
            Some(v) => v,
            None => {
                return Err(
                    Nv24FrameError::GeometryOverflow(GeometryOverflow::new(uv_stride, height)),
                );
            },
        };
        if uv.len() < uv_min {
            return Err(
                Nv24FrameError::InsufficientUvPlane(InsufficientPlane::new(uv_min, uv.len())),
            );
        }
        Ok(Nv24Frame { y, uv, width, height, y_stride, uv_stride })
    }

    /// Constructs a new frame from inputs that `try_new` accepts.
    pub fn new(
        y: &'a [u8],
        uv: &'a [u8],
        width: u32,
        height: u32,
        y_stride: u32,
        uv_stride: u32,
    ) -> (res: Self)
        requires
            nv24_check(y@.len() as int, uv@.len() as int, width, height, y_stride, uv_stride) is Ok,
        ensures
            res@ == two_planes(width, height, y@, uv@, y_stride, uv_stride),
    {
        Self::try_new(y, uv, width, height, y_stride, uv_stride).expect(
            "invalid Nv24Frame dimensions or plane lengths",
        )
    }

    /// Y (luma) plane bytes. Row `r` starts at byte `r * y_stride()`.
    pub fn y(&self) -> (r: &'a [u8])
        ensures
            r@ == self@.planes[0],
            nv24_valid(self@),
    {
        proof {
            use_type_invariant(self);
        }
        self.y
    }

    /// Interleaved UV plane bytes. Row `r` starts at byte `r * uv_stride()`.
    pub fn uv(&self) -> (r: &'a [u8])
        ensures
            r@ == self@.planes[1],
            nv24_valid(self@),
    {
        proof {
            use_type_invariant(self);
        }
        self.uv
    }

    /// Frame width in pixels.
    pub fn width(&self) -> (r: u32)
        ensures
            r == self@.width,
            nv24_valid(self@),
    {
        proof {
            use_type_invariant(self);
        }
        self.width
    }

    /// Frame height in pixels.
    pub fn height(&self) -> (r: u32)
        ensures
            r == self@.height,
            nv24_valid(self@),
    {
        proof {
            use_type_invariant(self);
        }
        self.height
    }

    /// Byte stride of the Y plane (`>= width`).
    pub fn y_stride(&self) -> (r: u32)
        ensures
            r == self@.strides[0],
            nv24_valid(self@),
    {
        proof {
            use_type_invariant(self);
        }
        self.y_stride
    }

    /// Byte stride of the UV plane.
    pub fn uv_stride(&self) -> (r: u32)
        ensures
            r == self@.strides[1],
            nv24_valid(self@),
    {
        proof {
            use_type_invariant(self);
        }
        self.uv_stride
    }
}

/// Errors returned by `Nv24Frame::try_new`.
#[derive(Debug, Clone, Copy, PartialEq, Eq, Hash)]
#[non_exhaustive]
pub enum Nv24FrameError {
    /// `width` or `height` was zero.
    ZeroDimension(ZeroDimension),
    /// `y_stride < width`.
    InsufficientYStride(InsufficientStride),
    /// `uv_stride` is shorter than one UV row (`2 * width` bytes).
    InsufficientUvStride(InsufficientStride),
    /// The Y plane is shorter than `y_stride * height` bytes.
    InsufficientYPlane(InsufficientPlane),
    /// The UV plane is shorter than `uv_stride` times its row count.
    InsufficientUvPlane(InsufficientPlane),
    /// A row length or `stride * rows` overflows.
    GeometryOverflow(GeometryOverflow),
}

/// What `Nv42Frame::try_new` decides.
pub open spec fn nv42_check(
    y_len: int,
    vu_len: int,
    width: u32,
    height: u32,
    y_stride: u32,
    vu_stride: u32,
) -> Result<(), Nv42FrameError> {
    if width == 0 || height == 0 {
        Err(Nv42FrameError::ZeroDimension(ZeroDimension { width, height }))
    } else if y_stride < width {
        Err(Nv42FrameError::InsufficientYStride(short_stride(y_stride, width)))
    } else if width * 2 > u32::MAX {
        Err(Nv42FrameError::GeometryOverflow(overflow(width, 2)))
    } else if vu_stride < width * 2 {
        Err(Nv42FrameError::InsufficientVuStride(short_stride(vu_stride, (width * 2) as u32)))
    } else if !plane_fits(y_stride, height) {
        Err(Nv42FrameError::GeometryOverflow(overflow(y_stride, height)))
    } else if y_len < plane_need(y_stride, height) {
        Err(Nv42FrameError::InsufficientYPlane(short_plane(y_stride, height, y_len)))
    } else if !plane_fits(vu_stride, height) {
        Err(Nv42FrameError::GeometryOverflow(overflow(vu_stride, height)))
    } else if vu_len < plane_need(vu_stride, height) {
        Err(Nv42FrameError::InsufficientVuPlane(short_plane(vu_stride, height, vu_len)))
    } else {
        Ok(())
    }
}

/// The inputs that `Nv42Frame::try_new` accepts, stated directly: non-zero
/// dimensions, each stride covering a row of its plane, each plane
/// holding its rows; a rejection reports the offending values.
pub proof fn lemma_nv42_accepts(
    y_len: int,
    vu_len: int,
    width: u32,
    height: u32,
    y_stride: u32,
    vu_stride: u32,
)
    ensures
        ({
            let check = nv42_check(y_len, vu_len, width, height, y_stride, vu_stride);
            &&& check is Ok <==> {
                &&& width > 0 && height > 0
                &&& y_stride >= width
                &&& width * 2 <= u32::MAX
                &&& vu_stride >= width * 2
                &&& y_stride * height <= usize::MAX
                &&& y_len >= y_stride * height
                &&& vu_stride * height <= usize::MAX
                &&& vu_len >= vu_stride * height
            }
            &&& check matches Err(Nv42FrameError::ZeroDimension(e)) ==> {
                &&& e.width == width
                &&& e.height == height
            }
            &&& check matches Err(Nv42FrameError::InsufficientYStride(e)) ==> {
                &&& e.stride == y_stride
                &&& e.min_stride == width
                &&& y_stride < width
            }
            &&& check matches Err(Nv42FrameError::InsufficientVuStride(e)) ==> {
                &&& e.stride == vu_stride
                &&& e.min_stride == width * 2
                &&& vu_stride < width * 2
            }
            &&& check matches Err(Nv42FrameError::InsufficientYPlane(e)) ==> {
                &&& e.expected == y_stride * height
                &&& y_len < y_stride * height
            }
            &&& check matches Err(Nv42FrameError::InsufficientVuPlane(e)) ==> {
                &&& e.expected == vu_stride * height
                &&& vu_len < vu_stride * height
            }
        }),
{
}

/// A validated NV42 frame (4:4:4 semi-planar with V before U,
/// `AV_PIX_FMT_NV42`): a VU row holds `2 * width` bytes.
#[derive(Debug, Clone, Copy)]
pub struct Nv42Frame<'a> {
    y: &'a [u8],
    vu: &'a [u8],
    width: u32,
    height: u32,
    y_stride: u32,
    vu_stride: u32,
}

impl<'a> View for Nv42Frame<'a> {
    type V = FrameView<u8>;

    closed spec fn view(&self) -> FrameView<u8> {
        two_planes(self.width, self.height, self.y@, self.vu@, self.y_stride, self.vu_stride)
    }
}

/// `v` is the view of a `Nv42Frame` that `try_new` accepts: every frame
/// of the type has such a view.
pub open spec fn nv42_valid(v: FrameView<u8>) -> bool {
    &&& v.planes.len() == 2
    &&& v.strides.len() == 2
    &&& nv42_check(
        v.planes[0].len() as int,
        v.planes[1].len() as int,
        v.width,
        v.height,
        v.strides[0],
        v.strides[1],
    ) is Ok
}

impl<'a> Nv42Frame<'a> {
    #[verifier::type_invariant]
    closed spec fn wf(&self) -> bool {
        nv42_check(
            self.y@.len() as int,
            self.vu@.len() as int,
            self.width,
            self.height,
            self.y_stride,
            self.vu_stride,
        ) is Ok
    }

    /// Constructs a new frame, validating dimensions, strides and plane
    /// lengths; reports the first check that fails.
    pub fn try_new(
        y: &'a [u8],
        vu: &'a [u8],
        width: u32,
        height: u32,
        y_stride: u32,
        vu_stride: u32,
    ) -> (res: Result<Self, Nv42FrameError>)
        ensures
            outcome(res) == nv42_check(
                y@.len() as int,
                vu@.len() as int,
                width,
                height,
                y_stride,
                vu_stride,
            ),
            res is Ok <==> ({
                &&& width > 0 && height > 0
                &&& y_stride >= width
                &&& width * 2 <= u32::MAX
                &&& vu_stride >= width * 2
                &&& y_stride * height <= usize::MAX
                &&& y@.len() >= y_stride * height
                &&& vu_stride * height <= usize::MAX
                &&& vu@.len() >= vu_stride * height
            }),
            res matches Ok(f) ==> f@ == two_planes(width, height, y@, vu@, y_stride, vu_stride),
    {
        proof {
            lemma_nv42_accepts(
                y@.len() as int,
                vu@.len() as int,
                width,
                height,
                y_stride,
                vu_stride,
            );
        }
        if width == 0 || height == 0 {
            return Err(Nv42FrameError::ZeroDimension(ZeroDimension::new(width, height)));
        }
        if y_stride < width {
            return Err(
                Nv42FrameError::InsufficientYStride(InsufficientStride::new(y_stride, width)),
            );
        }
        let vu_row_bytes = match width.checked_mul(2) {
            Some(v) => v,
            None => {
                return Err(Nv42FrameError::GeometryOverflow(GeometryOverflow::new(width, 2)));
            },
        };
        if vu_stride < vu_row_bytes {
            return Err(
                Nv42FrameError::InsufficientVuStride(
                    InsufficientStride::new(vu_stride, vu_row_bytes),
                ),
            );
        }
        let y_min = match (y_stride as usize).checked_mul(height as usize) {
            Some(v) => v,
            None => {
                return Err(
                    Nv42FrameError::GeometryOverflow(GeometryOverflow::new(y_stride, height)),
                );
            },
        };
        if y.len() < y_min {
            return Err(Nv42FrameError::InsufficientYPlane(InsufficientPlane::new(y_min, y.len())));
        }
        let vu_min = match (vu_stride as usize).checked_mul(height as usize) {
            Some(v) => v,
            None => {
                return Err(
                    Nv42FrameError::GeometryOverflow(GeometryOverflow::new(vu_stride, height)),
                );
            },
        };
        if vu.len() < vu_min {
            return Err(
                Nv42FrameError::InsufficientVuPlane(InsufficientPlane::new(vu_min, vu.len())),
            );
        }
        Ok(Nv42Frame { y, vu, width, height, y_stride, vu_stride })
    }

    /// Constructs a new frame from inputs that `try_new` accepts.
    pub fn new(
        y: &'a [u8],
        vu: &'a [u8],
        width: u32,
        height: u32,
        y_stride: u32,
        vu_stride: u32,
    ) -> (res: Self)
        requires
            nv42_check(y@.len() as int, vu@.len() as int, width, height, y_stride, vu_stride) is Ok,
        ensures
            res@ == two_planes(width, height, y@, vu@, y_stride, vu_stride),
    {
        Self::try_new(y, vu, width, height, y_stride, vu_stride).expect(
            "invalid Nv42Frame dimensions or plane lengths",
        )
    }

    /// Y (luma) plane bytes. Row `r` starts at byte `r * y_stride()`.
    pub fn y(&self) -> (r: &'a [u8])
        ensures
            r@ == self@.planes[0],
            nv42_valid(self@),
    {
        proof {
            use_type_invariant(self);
        }
        self.y
    }

    /// Interleaved VU plane bytes. Row `r` starts at byte `r * vu_stride()`.
    pub fn vu(&self) -> (r: &'a [u8])
        ensures
            r@ == self@.planes[1],
            nv42_valid(self@),
    {
        proof {
            use_type_invariant(self);
        }
        self.vu
    }

    /// Frame width in pixels.
    pub fn width(&self) -> (r: u32)
        ensures
            r == self@.width,
            nv42_valid(self@),
    {
        proof {
            use_type_invariant(self);
        }
        self.width
    }

    /// Frame height in pixels.
    pub fn height(&self) -> (r: u32)
        ensures
            r == self@.height,
            nv42_valid(self@),
    {
        proof {
            use_type_invariant(self);
        }
        self.height
    }

    /// Byte stride of the Y plane (`>= width`).
    pub fn y_stride(&self) -> (r: u32)
        ensures
            r == self@.strides[0],
            nv42_valid(self@),
    {
        proof {
            use_type_invariant(self);
        }
        self.y_stride
    }

    /// Byte stride of the VU plane.
    pub fn vu_stride(&self) -> (r: u32)
        ensures
            r == self@.strides[1],
            nv42_valid(self@),
    {
        proof {
            use_type_invariant(self);
        }
        self.vu_stride
    }
}

/// Errors returned by `Nv42Frame::try_new`.
#[derive(Debug, Clone, Copy, PartialEq, Eq, Hash)]
#[non_exhaustive]
pub enum Nv42FrameError {
    /// `width` or `height` was zero.
    ZeroDimension(ZeroDimension),
    /// `y_stride < width`.
    InsufficientYStride(InsufficientStride),
    /// `vu_stride` is shorter than one VU row (`2 * width` bytes).
    InsufficientVuStride(InsufficientStride),
    /// The Y plane is shorter than `y_stride * height` bytes.
    InsufficientYPlane(InsufficientPlane),
    /// The VU plane is shorter than `vu_stride` times its row count.
    InsufficientVuPlane(InsufficientPlane),
    /// A row length or `stride * rows` overflows.
    GeometryOverflow(GeometryOverflow),
}

/// What `Nv21Frame::try_new` decides.
pub open spec fn nv21_check(
    y_len: int,
    vu_len: int,
    width: u32,
    height: u32,
    y_stride: u32,
    vu_stride: u32,
) -> Result<(), Nv21FrameError> {
    if width == 0 || height == 0 {
        Err(Nv21FrameError::ZeroDimension(ZeroDimension { width, height }))
    } else if width % 2 == 1 {
        Err(Nv21FrameError::WidthAlignment(odd_width(width)))
    } else if y_stride < width {
        Err(Nv21FrameError::InsufficientYStride(short_stride(y_stride, width)))
    } else if vu_stride < width {
        Err(Nv21FrameError::InsufficientVuStride(short_stride(vu_stride, width)))
    } else if !plane_fits(y_stride, height) {
        Err(Nv21FrameError::GeometryOverflow(overflow(y_stride, height)))
    } else if y_len < plane_need(y_stride, height) {
        Err(Nv21FrameError::InsufficientYPlane(short_plane(y_stride, height, y_len)))
    } else if !plane_fits(vu_stride, half_up(height)) {
        Err(Nv21FrameError::GeometryOverflow(overflow(vu_stride, half_up(height))))
    } else if vu_len < plane_need(vu_stride, half_up(height)) {
        Err(Nv21FrameError::InsufficientVuPlane(short_plane(vu_stride, half_up(height), vu_len)))
    } else {
        Ok(())
    }
}

/// The inputs that `Nv21Frame::try_new` accepts, stated directly: non-zero
/// dimensions, each stride covering a row of its plane, each plane
/// holding its rows; a rejection reports the offending values.
pub proof fn lemma_nv21_accepts(
    y_len: int,
    vu_len: int,
    width: u32,
    height: u32,
    y_stride: u32,
    vu_stride: u32,
)
    ensures
        ({
            let check = nv21_check(y_len, vu_len, width, height, y_stride, vu_stride);
            &&& check is Ok <==> {
                &&& width > 0 && height > 0
                &&& width % 2 == 0
                &&& y_stride >= width
                &&& vu_stride >= width
                &&& y_stride * height <= usize::MAX
                &&& y_len >= y_stride * height
                &&& vu_stride * ((height + 1) / 2) <= usize::MAX
                &&& vu_len >= vu_stride * ((height + 1) / 2)
            }
            &&& check matches Err(Nv21FrameError::ZeroDimension(e)) ==> {
                &&& e.width == width
                &&& e.height == height
            }
            &&& check matches Err(Nv21FrameError::InsufficientYStride(e)) ==> {
                &&& e.stride == y_stride
                &&& e.min_stride == width
                &&& y_stride < width
            }
            &&& check matches Err(Nv21FrameError::InsufficientVuStride(e)) ==> {
                &&& e.stride == vu_stride
                &&& e.min_stride == width
                &&& vu_stride < width
            }
            &&& check matches Err(Nv21FrameError::InsufficientYPlane(e)) ==> {
                &&& e.expected == y_stride * height
                &&& y_len < y_stride * height
            }
            &&& check matches Err(Nv21FrameError::InsufficientVuPlane(e)) ==> {
                &&& e.expected == vu_stride * ((height + 1) / 2)
                &&& vu_len < vu_stride * ((height + 1) / 2)
            }
        }),
{
    assert(half_up(height) == (height + 1) / 2);
}

/// A validated NV21 frame (4:2:0 semi-planar with V before U,
/// `AV_PIX_FMT_NV21`): VU at half width and half height (rounded up), so a
/// VU row holds `width` bytes. `width` must be even.
#[derive(Debug, Clone, Copy)]
pub struct Nv21Frame<'a> {
    y: &'a [u8],
    vu: &'a [u8],
    width: u32,
    height: u32,
    y_stride: u32,
    vu_stride: u32,
}

impl<'a> View for Nv21Frame<'a> {
    type V = FrameView<u8>;

    closed spec fn view(&self) -> FrameView<u8> {
        two_planes(self.width, self.height, self.y@, self.vu@, self.y_stride, self.vu_stride)
    }
}

/// `v` is the view of a `Nv21Frame` that `try_new` accepts: every frame
/// of the type has such a view.
pub open spec fn nv21_valid(v: FrameView<u8>) -> bool {
    &&& v.planes.len() == 2
    &&& v.strides.len() == 2
    &&& nv21_check(
        v.planes[0].len() as int,
        v.planes[1].len() as int,
        v.width,
        v.height,
        v.strides[0],
        v.strides[1],
    ) is Ok
}

impl<'a> Nv21Frame<'a> {
    #[verifier::type_invariant]
    closed spec fn wf(&self) -> bool {
        nv21_check(
            self.y@.len() as int,
            self.vu@.len() as int,
            self.width,
            self.height,
            self.y_stride,
            self.vu_stride,
        ) is Ok
    }

    /// Constructs a new frame, validating dimensions, strides and plane
    /// lengths; reports the first check that fails.
    pub fn try_new(
        y: &'a [u8],
        vu: &'a [u8],
        width: u32,
        height: u32,
        y_stride: u32,
        vu_stride: u32,
    ) -> (res: Result<Self, Nv21FrameError>)
        ensures
            outcome(res) == nv21_check(
                y@.len() as int,
                vu@.len() as int,
                width,
                height,
                y_stride,
                vu_stride,
            ),
            res is Ok <==> ({
                &&& width > 0 && height > 0
                &&& width % 2 == 0
                &&& y_stride >= width
                &&& vu_stride >= width
                &&& y_stride * height <= usize::MAX
                &&& y@.len() >= y_stride * height
                &&& vu_stride * ((height + 1) / 2) <= usize::MAX
                &&& vu@.len() >= vu_stride * ((height + 1) / 2)
            }),
            res matches Ok(f) ==> f@ == two_planes(width, height, y@, vu@, y_stride, vu_stride),
    {
        proof {
            lemma_nv21_accepts(
                y@.len() as int,
                vu@.len() as int,
                width,
                height,
                y_stride,
                vu_stride,
            );
        }
        if width == 0 || height == 0 {
            return Err(Nv21FrameError::ZeroDimension(ZeroDimension::new(width, height)));
        }
        proof {
            lemma_low_bit_is_parity(width);
        }
        if width & 1 != 0 {
            return Err(Nv21FrameError::WidthAlignment(WidthAlignment::odd(width as usize)));
        }
        if y_stride < width {
            return Err(
                Nv21FrameError::InsufficientYStride(InsufficientStride::new(y_stride, width)),
            );
        }
        let vu_row_bytes = width;
        if vu_stride < vu_row_bytes {
            return Err(
                Nv21FrameError::InsufficientVuStride(
                    InsufficientStride::new(vu_stride, vu_row_bytes),
                ),
            );
        }
        let y_min = match (y_stride as usize).checked_mul(height as usize) {
            Some(v) => v,
            None => {
                return Err(
                    Nv21FrameError::GeometryOverflow(GeometryOverflow::new(y_stride, height)),
                );
            },
        };
        if y.len() < y_min {
            return Err(Nv21FrameError::InsufficientYPlane(InsufficientPlane::new(y_min, y.len())));
        }
        let chroma_height = div_ceil2(height);
        let vu_min = match (vu_stride as usize).checked_mul(chroma_height as usize) {
            Some(v) => v,
            None => {
                return Err(
                    Nv21FrameError::GeometryOverflow(
                        GeometryOverflow::new(vu_stride, chroma_height),
                    ),
                );
            },
        };
        if vu.len() < vu_min {
            return Err(
                Nv21FrameError::InsufficientVuPlane(InsufficientPlane::new(vu_min, vu.len())),
            );
        }
        Ok(Nv21Frame { y, vu, width, height, y_stride, vu_stride })
    }

    /// Constructs a new frame from inputs that `try_new` accepts.
    pub fn new(
        y: &'a [u8],
        vu: &'a [u8],
        width: u32,
        height: u32,
        y_stride: u32,
        vu_stride: u32,
    ) -> (res: Self)
        requires
            nv21_check(y@.len() as int, vu@.len() as int, width, height, y_stride, vu_stride) is Ok,
        ensures
            res@ == two_planes(width, height, y@, vu@, y_stride, vu_stride),
    {
        Self::try_new(y, vu, width, height, y_stride, vu_stride).expect(
            "invalid Nv21Frame dimensions or plane lengths",
        )
    }

    /// Y (luma) plane bytes. Row `r` starts at byte `r * y_stride()`.
    pub fn y(&self) -> (r: &'a [u8])
        ensures
            r@ == self@.planes[0],
            nv21_valid(self@),
    {
        proof {
            use_type_invariant(self);
        }
        self.y
    }

    /// Interleaved VU plane bytes. Row `r` starts at byte `r * vu_stride()`.
    pub fn vu(&self) -> (r: &'a [u8])
        ensures
            r@ == self@.planes[1],
            nv21_valid(self@),
    {
        proof {
            use_type_invariant(self);
        }
        self.vu
    }

    /// Frame width in pixels.
    pub fn width(&self) -> (r: u32)
        ensures
            r == self@.width,
            nv21_valid(self@),
    {
        proof {
            use_type_invariant(self);
        }
        self.width
    }

    /// Frame height in pixels.
    pub fn height(&self) -> (r: u32)
        ensures
            r == self@.height,
            nv21_valid(self@),
    {
        proof {
            use_type_invariant(self);
        }
        self.height
    }

    /// Byte stride of the Y plane (`>= width`).
    pub fn y_stride(&self) -> (r: u32)
        ensures
            r == self@.strides[0],
            nv21_valid(self@),
    {
        proof {
            use_type_invariant(self);
        }
        self.y_stride
    }

    /// Byte stride of the VU plane.
    pub fn vu_stride(&self) -> (r: u32)
        ensures
            r == self@.strides[1],
            nv21_valid(self@),
    {
        proof {
            use_type_invariant(self);
        }
        self.vu_stride
    }
}

/// Errors returned by `Nv21Frame::try_new`.
#[derive(Debug, Clone, Copy, PartialEq, Eq, Hash)]
#[non_exhaustive]
pub enum Nv21FrameError {
    /// `width` or `height` was zero.
    ZeroDimension(ZeroDimension),
    /// `width` is odd (the chroma plane is subsampled horizontally).
    WidthAlignment(WidthAlignment),
    /// `y_stride < width`.
    InsufficientYStride(InsufficientStride),
    /// `vu_stride` is shorter than one VU row (`width` bytes).
    InsufficientVuStride(InsufficientStride),
    /// The Y plane is shorter than `y_stride * height` bytes.
    InsufficientYPlane(InsufficientPlane),
    /// The VU plane is shorter than `vu_stride` times its row count.
    InsufficientVuPlane(InsufficientPlane),
    /// A row length or `stride * rows` overflows.
    GeometryOverflow(GeometryOverflow),
}

} // verus!
