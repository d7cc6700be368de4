//! Validated legacy packed-RGB frames with one byte plane: the 16-bit
//! formats (`Rgb565Frame`, `Bgr565Frame`, `Rgb555Frame`, `Bgr555Frame`,
//! `Rgb444Frame`, `Bgr444Frame`: 2 bytes per pixel), the 8-bit formats
//! (`Rgb8Frame`, `Bgr8Frame`, `Rgb4ByteFrame`, `Bgr4ByteFrame`: 1 byte
//! per pixel) and the 4-bit formats (`Rgb4Frame`, `Bgr4Frame`: two
//! pixels per byte). Strides are in bytes.

use super::{
    div_ceil2, half_up, one_plane, outcome, overflow, plane_fits, plane_need, short_plane,
    short_stride, FrameView, GeometryOverflow, InsufficientPlane, InsufficientStride, WidthOverflow,
    ZeroDimension,
};
use vstd::prelude::*;

verus! {

/// Errors returned by the 16-bit packed-RGB frame constructors
/// (`Rgb565Frame`, `Bgr565Frame`, `Rgb555Frame`, `Bgr555Frame`,
/// `Rgb444Frame`, `Bgr444Frame`), which all validate in the same order.
#[derive(Debug, Clone, Copy, PartialEq, Eq, Hash)]
#[non_exhaustive]
pub enum LegacyRgbFrameError {
    /// `width` or `height` was zero.
    ZeroDimension(ZeroDimension),
    /// `stride < 2 * width`.
    InsufficientStride(InsufficientStride),
    /// The plane is shorter than `stride * height` bytes.
    InsufficientPlane(InsufficientPlane),
    /// `stride * height` overflows `usize`.
    GeometryOverflow(GeometryOverflow),
    /// `2 * width` overflows `u32`.
    WidthOverflow(WidthOverflow),
}

/// What `Rgb565Frame::try_new` decides.
pub open spec fn rgb565_check(
    rgb565_len: int,
    width: u32,
    height: u32,
    stride: u32,
) -> Result<(), LegacyRgbFrameError> {
    if width == 0 || height == 0 {
        Err(LegacyRgbFrameError::ZeroDimension(ZeroDimension { width, height }))
    } else if width * 2 > u32::MAX {
        Err(LegacyRgbFrameError::WidthOverflow(WidthOverflow { width }))
    } else if stride < width * 2 {
        Err(LegacyRgbFrameError::InsufficientStride(short_stride(stride, (width * 2) as u32)))
    } else if !plane_fits(stride, height) {
        Err(LegacyRgbFrameError::GeometryOverflow(overflow(stride, height)))
    } else if rgb565_len < plane_need(stride, height) {
        Err(LegacyRgbFrameError::InsufficientPlane(short_plane(stride, height, rgb565_len)))
    } else {
        Ok(())
    }
}

/// The inputs that `Rgb565Frame::try_new` accepts, stated directly: non-zero
/// dimensions, each stride covering a row of its plane, each plane
/// holding its rows; a rejection reports the offending values.
pub proof fn lemma_rgb565_accepts(rgb565_len: int, width: u32, height: u32, stride: u32)
    ensures
        ({
            let check = rgb565_check(rgb565_len, width, height, stride);
            &&& check is Ok <==> {
                &&& width > 0 && height > 0
                &&& width * 2 <= u32::MAX
                &&& stride >= width * 2
                &&& stride * height <= usize::MAX
                &&& rgb565_len >= stride * height
            }
            &&& check matches Err(LegacyRgbFrameError::ZeroDimension(e)) ==> {
                &&& e.width == width
                &&& e.height == height
            }
            &&& check matches Err(LegacyRgbFrameError::InsufficientStride(e)) ==> {
                &&& e.stride == stride
                &&& e.min_stride == width * 2
                &&& stride < width * 2
            }
            &&& check matches Err(LegacyRgbFrameError::InsufficientPlane(e)) ==> {
                &&& e.expected == stride * height
                &&& rgb565_len < stride * height
            }
        }),
{
}

/// A validated packed **RGB565** frame — 2 bytes per pixel, one 16-bit
/// little-endian word with bits [15:11] = R5, [10:5] = G6, [4:0] = B5. `stride` is in bytes
/// (`>= 2 * width`); no width parity constraint.
#[derive(Debug, Clone, Copy)]
pub struct Rgb565Frame<'a> {
    rgb565: &'a [u8],
    width: u32,
    height: u32,
    stride: u32,
}

impl<'a> View for Rgb565Frame<'a> {
    type V = FrameView<u8>;

    closed spec fn view(&self) -> FrameView<u8> {
        one_plane(self.width, self.height, self.rgb565@, self.stride)
    }
}

/// `v` is the view of a `Rgb565Frame` that `try_new` accepts: every frame
/// of the type has such a view.
pub open spec fn rgb565_valid(v: FrameView<u8>) -> bool {
    &&& v.planes.len() == 1
    &&& v.strides.len() == 1
    &&& rgb565_check(v.planes[0].len() as int, v.width, v.height, v.strides[0]) is Ok
}

impl<'a> Rgb565Frame<'a> {
    #[verifier::type_invariant]
    closed spec fn wf(&self) -> bool {
        rgb565_check(self.rgb565@.len() as int, self.width, self.height, self.stride) is Ok
    }

    /// Constructs a new frame, validating dimensions, strides and plane
    /// lengths; reports the first check that fails.
    pub fn try_new(
        rgb565: &'a [u8],
        width: u32,
        height: u32,
        stride: u32,
    ) -> (res: Result<Self, LegacyRgbFrameError>)
        ensures
            outcome(res) == rgb565_check(rgb565@.len() as int, width, height, stride),
            res is Ok <==> ({
                &&& width > 0 && height > 0
                &&& width * 2 <= u32::MAX
                &&& stride >= width * 2
                &&& stride * height <= usize::MAX
                &&& rgb565@.len() >= stride * height
            }),
            res matches Ok(f) ==> f@ == one_plane(width, height, rgb565@, stride),
    {
        proof {
            lemma_rgb565_accepts(rgb565@.len() as int, width, height, stride);
        }
        if width == 0 || height == 0 {
            return Err(LegacyRgbFrameError::ZeroDimension(ZeroDimension::new(width, height)));
        }
        let min_stride = match width.checked_mul(2) {
            Some(v) => v,
            None => {
                return Err(LegacyRgbFrameError::WidthOverflow(WidthOverflow::new(width)));
            },
        };
        if stride < min_stride {
            return Err(
                LegacyRgbFrameError::InsufficientStride(
                    InsufficientStride::new(stride, min_stride),
                ),
            );
        }
        let plane_min = match (stride as u64).checked_mul(height as u64) {
            Some(v) if v <= usize::MAX as u64 => v as usize,
            _ => {
                return Err(
                    LegacyRgbFrameError::GeometryOverflow(GeometryOverflow::new(stride, height)),
                );
            },
        };
        if rgb565.len() < plane_min {
            return Err(
                LegacyRgbFrameError::InsufficientPlane(
                    InsufficientPlane::new(plane_min, rgb565.len()),
                ),
            );
        }
        Ok(Rgb565Frame { rgb565, width, height, stride })
    }

    /// Constructs a new frame from inputs that `try_new` accepts.
    pub fn new(rgb565: &'a [u8], width: u32, height: u32, stride: u32) -> (res: Self)
        requires
            rgb565_check(rgb565@.len() as int, width, height, stride) is Ok,
        ensures
            res@ == one_plane(width, height, rgb565@, stride),
    {
        Self::try_new(rgb565, width, height, stride).expect(
            "invalid Rgb565Frame dimensions or plane length",
        )
    }

    /// Packed RGB565 plane bytes; each 2-byte group is one little-endian pixel.
    pub fn rgb565(&self) -> (r: &'a [u8])
        ensures
            r@ == self@.planes[0],
            rgb565_valid(self@),
    {
        proof {
            use_type_invariant(self);
        }
        self.rgb565
    }

    /// Frame width in pixels.
    pub fn width(&self) -> (r: u32)
        ensures
            r == self@.width,
            rgb565_valid(self@),
    {
        proof {
            use_type_invariant(self);
        }
        self.width
    }

    /// Frame height in pixels.
    pub fn height(&self) -> (r: u32)
        ensures
            r == self@.height,
            rgb565_valid(self@),
    {
        proof {
            use_type_invariant(self);
        }
        self.height
    }

    /// Byte stride (`>= 2 * width`).
    pub fn stride(&self) -> (r: u32)
        ensures
            r == self@.strides[0],
            rgb565_valid(self@),
    {
        proof {
            use_type_invariant(self);
        }
        self.stride
    }
}

/// What `Bgr565Frame::try_new` decides.
pub open spec fn bgr565_check(
    bgr565_len: int,
    width: u32,
    height: u32,
    stride: u32,
) -> Result<(), LegacyRgbFrameError> {
    if width == 0 || height == 0 {
        Err(LegacyRgbFrameError::ZeroDimension(ZeroDimension { width, height }))
    } else if width * 2 > u32::MAX {
        Err(LegacyRgbFrameError::WidthOverflow(WidthOverflow { width }))
    } else if stride < width * 2 {
        Err(LegacyRgbFrameError::InsufficientStride(short_stride(stride, (width * 2) as u32)))
    } else if !plane_fits(stride, height) {
        Err(LegacyRgbFrameError::GeometryOverflow(overflow(stride, height)))
    } else if bgr565_len < plane_need(stride, height) {
        Err(LegacyRgbFrameError::InsufficientPlane(short_plane(stride, height, bgr565_len)))
    } else {
        Ok(())
    }
}

/// The inputs that `Bgr565Frame::try_new` accepts, stated directly: non-zero
/// dimensions, each stride covering a row of its plane, each plane
/// holding its rows; a rejection reports the offending values.
pub proof fn lemma_bgr565_accepts(bgr565_len: int, width: u32, height: u32, stride: u32)
    ensures
        ({
            let check = bgr565_check(bgr565_len, width, height, stride);
            &&& check is Ok <==> {
                &&& width > 0 && height > 0
                &&& width * 2 <= u32::MAX
                &&& stride >= width * 2
                &&& stride * height <= usize::MAX
                &&& bgr565_len >= stride * height
            }
            &&& check matches Err(LegacyRgbFrameError::ZeroDimension(e)) ==> {
                &&& e.width == width
                &&& e.height == height
            }
            &&& check matches Err(LegacyRgbFrameError::InsufficientStride(e)) ==> {
                &&& e.stride == stride
                &&& e.min_stride == width * 2
                &&& stride < width * 2
            }
            &&& check matches Err(LegacyRgbFrameError::InsufficientPlane(e)) ==> {
                &&& e.expected == stride * height
                &&& bgr565_len < stride * height
            }
        }),
{
}

/// A validated packed **BGR565** frame — 2 bytes per pixel, one 16-bit
/// little-endian word with bits [15:11] = B5, [10:5] = G6, [4:0] = R5. `stride` is in bytes
/// (`>= 2 * width`); no width parity constraint.
#[derive(Debug, Clone, Copy)]
pub struct Bgr565Frame<'a> {
    bgr565: &'a [u8],
    width: u32,
    height: u32,
    stride: u32,
}

impl<'a> View for Bgr565Frame<'a> {
    type V = FrameView<u8>;

    closed spec fn view(&self) -> FrameView<u8> {
        one_plane(self.width, self.height, self.bgr565@, self.stride)
    }
}

/// `v` is the view of a `Bgr565Frame` that `try_new` accepts: every frame
/// of the type has such a view.
pub open spec fn bgr565_valid(v: FrameView<u8>) -> bool {
    &&& v.planes.len() == 1
    &&& v.strides.len() == 1
    &&& bgr565_check(v.planes[0].len() as int, v.width, v.height, v.strides[0]) is Ok
}

impl<'a> Bgr565Frame<'a> {
    #[verifier::type_invariant]
    closed spec fn wf(&self) -> bool {
        bgr565_check(self.bgr565@.len() as int, self.width, self.height, self.stride) is Ok
    }

    /// Constructs a new frame, validating dimensions, strides and plane
    /// lengths; reports the first check that fails.
    pub fn try_new(
        bgr565: &'a [u8],
        width: u32,
        height: u32,
        stride: u32,
    ) -> (res: Result<Self, LegacyRgbFrameError>)
        ensures
            outcome(res) == bgr565_check(bgr565@.len() as int, width, height, stride),
            res is Ok <==> ({
                &&& width > 0 && height > 0
                &&& width * 2 <= u32::MAX
                &&& stride >= width * 2
                &&& stride * height <= usize::MAX
                &&& bgr565@.len() >= stride * height
            }),
            res matches Ok(f) ==> f@ == one_plane(width, height, bgr565@, stride),
    {
        proof {
            lemma_bgr565_accepts(bgr565@.len() as int, width, height, stride);
        }
        if width == 0 || height == 0 {
            return Err(LegacyRgbFrameError::ZeroDimension(ZeroDimension::new(width, height)));
        }
        let min_stride = match width.checked_mul(2) {
            Some(v) => v,
            None => {
                return Err(LegacyRgbFrameError::WidthOverflow(WidthOverflow::new(width)));
            },
        };
        if stride < min_stride {
            return Err(
                LegacyRgbFrameError::InsufficientStride(
                    InsufficientStride::new(stride, min_stride),
                ),
            );
        }
        let plane_min = match (stride as u64).checked_mul(height as u64) {
            Some(v) if v <= usize::MAX as u64 => v as usize,
            _ => {
                return Err(
                    LegacyRgbFrameError::GeometryOverflow(GeometryOverflow::new(stride, height)),
                );
            },
        };
        if bgr565.len() < plane_min {
            return Err(
                LegacyRgbFrameError::InsufficientPlane(
                    InsufficientPlane::new(plane_min, bgr565.len()),
                ),
            );
        }
        Ok(Bgr565Frame { bgr565, width, height, stride })
    }

    /// Constructs a new frame from inputs that `try_new` accepts.
    pub fn new(bgr565: &'a [u8], width: u32, height: u32, stride: u32) -> (res: Self)
        requires
            bgr565_check(bgr565@.len() as int, width, height, stride) is Ok,
        ensures
            res@ == one_plane(width, height, bgr565@, stride),
    {
        Self::try_new(bgr565, width, height, stride).expect(
            "invalid Bgr565Frame dimensions or plane length",
        )
    }

    /// Packed BGR565 plane bytes; each 2-byte group is one little-endian pixel.
    pub fn bgr565(&self) -> (r: &'a [u8])
        ensures
            r@ == self@.planes[0],
            bgr565_valid(self@),
    {
        proof {
            use_type_invariant(self);
        }
        self.bgr565
    }

    /// Frame width in pixels.
    pub fn width(&self) -> (r: u32)
        ensures
            r == self@.width,
            bgr565_valid(self@),
    {
        proof {
            use_type_invariant(self);
        }
        self.width
    }

    /// Frame height in pixels.
    pub fn height(&self) -> (r: u32)
        ensures
            r == self@.height,
            bgr565_valid(self@),
    {
        proof {
            use_type_invariant(self);
        }
        self.height
    }

    /// Byte stride (`>= 2 * width`).
    pub fn stride(&self) -> (r: u32)
        ensures
            r == self@.strides[0],
            bgr565_valid(self@),
    {
        proof {
            use_type_invariant(self);
        }
        self.stride
    }
}

/// What `Rgb555Frame::try_new` decides.
pub open spec fn rgb555_check(
    rgb555_len: int,
    width: u32,
    height: u32,
    stride: u32,
) -> Result<(), LegacyRgbFrameError> {
    if width == 0 || height == 0 {
        Err(LegacyRgbFrameError::ZeroDimension(ZeroDimension { width, height }))
    } else if width * 2 > u32::MAX {
        Err(LegacyRgbFrameError::WidthOverflow(WidthOverflow { width }))
    } else if stride < width * 2 {
        Err(LegacyRgbFrameError::InsufficientStride(short_stride(stride, (width * 2) as u32)))
    } else if !plane_fits(stride, height) {
        Err(LegacyRgbFrameError::GeometryOverflow(overflow(stride, height)))
    } else if rgb555_len < plane_need(stride, height) {
        Err(LegacyRgbFrameError::InsufficientPlane(short_plane(stride, height, rgb555_len)))
    } else {
        Ok(())
    }
}

/// The inputs that `Rgb555Frame::try_new` accepts, stated directly: non-zero
/// dimensions, each stride covering a row of its plane, each plane
/// holding its rows; a rejection reports the offending values.
pub proof fn lemma_rgb555_accepts(rgb555_len: int, width: u32, height: u32, stride: u32)
    ensures
        ({
            let check = rgb555_check(rgb555_len, width, height, stride);
            &&& check is Ok <==> {
                &&& width > 0 && height > 0
                &&& width * 2 <= u32::MAX
                &&& stride >= width * 2
                &&& stride * height <= usize::MAX
                &&& rgb555_len >= stride * height
            }
            &&& check matches Err(LegacyRgbFrameError::ZeroDimension(e)) ==> {
                &&& e.width == width
                &&& e.height == height
            }
            &&& check matches Err(LegacyRgbFrameError::InsufficientStride(e)) ==> {
                &&& e.stride == stride
                &&& e.min_stride == width * 2
                &&& stride < width * 2
            }
            &&& check matches Err(LegacyRgbFrameError::InsufficientPlane(e)) ==> {
                &&& e.expected == stride * height
                &&& rgb555_len < stride * height
            }
        }),
{
}

/// A validated packed **RGB555** frame — 2 bytes per pixel, one 16-bit
/// little-endian word with bit 15 unused, [14:10] = R5, [9:5] = G5, [4:0] = B5. `stride` is in
/// bytes (`>= 2 * width`); no width parity constraint.
#[derive(Debug, Clone, Copy)]
pub struct Rgb555Frame<'a> {
    rgb555: &'a [u8],
    width: u32,
    height: u32,
    stride: u32,
}

impl<'a> View for Rgb555Frame<'a> {
    type V = FrameView<u8>;

    closed spec fn view(&self) -> FrameView<u8> {
        one_plane(self.width, self.height, self.rgb555@, self.stride)
    }
}

/// `v` is the view of a `Rgb555Frame` that `try_new` accepts: every frame
/// of the type has such a view.
pub open spec fn rgb555_valid(v: FrameView<u8>) -> bool {
    &&& v.planes.len() == 1
    &&& v.strides.len() == 1
    &&& rgb555_check(v.planes[0].len() as int, v.width, v.height, v.strides[0]) is Ok
}

impl<'a> Rgb555Frame<'a> {
    #[verifier::type_invariant]
    closed spec fn wf(&self) -> bool {
        rgb555_check(self.rgb555@.len() as int, self.width, self.height, self.stride) is Ok
    }

    /// Constructs a new frame, validating dimensions, strides and plane
    /// lengths; reports the first check that fails.
    pub fn try_new(
        rgb555: &'a [u8],
        width: u32,
        height: u32,
        stride: u32,
    ) -> (res: Result<Self, LegacyRgbFrameError>)
        ensures
            outcome(res) == rgb555_check(rgb555@.len() as int, width, height, stride),
            res is Ok <==> ({
                &&& width > 0 && height > 0
                &&& width * 2 <= u32::MAX
                &&& stride >= width * 2
                &&& stride * height <= usize::MAX
                &&& rgb555@.len() >= stride * height
            }),
            res matches Ok(f) ==> f@ == one_plane(width, height, rgb555@, stride),
    {
        proof {
            lemma_rgb555_accepts(rgb555@.len() as int, width, height, stride);
        }
        if width == 0 || height == 0 {
            return Err(LegacyRgbFrameError::ZeroDimension(ZeroDimension::new(width, height)));
        }
        let min_stride = match width.checked_mul(2) {
            Some(v) => v,
            None => {
                return Err(LegacyRgbFrameError::WidthOverflow(WidthOverflow::new(width)));
            },
        };
        if stride < min_stride {
            return Err(
                LegacyRgbFrameError::InsufficientStride(
                    InsufficientStride::new(stride, min_stride),
                ),
            );
        }
        let plane_min = match (stride as u64).checked_mul(height as u64) {
            Some(v) if v <= usize::MAX as u64 => v as usize,
            _ => {
                return Err(
                    LegacyRgbFrameError::GeometryOverflow(GeometryOverflow::new(stride, height)),
                );
            },
        };
        if rgb555.len() < plane_min {
            return Err(
                LegacyRgbFrameError::InsufficientPlane(
                    InsufficientPlane::new(plane_min, rgb555.len()),
                ),
            );
        }
        Ok(Rgb555Frame { rgb555, width, height, stride })
    }

    /// Constructs a new frame from inputs that `try_new` accepts.
    pub fn new(rgb555: &'a [u8], width: u32, height: u32, stride: u32) -> (res: Self)
        requires
            rgb555_check(rgb555@.len() as int, width, height, stride) is Ok,
        ensures
            res@ == one_plane(width, height, rgb555@, stride),
    {
        Self::try_new(rgb555, width, height, stride).expect(
            "invalid Rgb555Frame dimensions or plane length",
        )
    }

    /// Packed RGB555 plane bytes; each 2-byte group is one little-endian pixel.
    pub fn rgb555(&self) -> (r: &'a [u8])
        ensures
            r@ == self@.planes[0],
            rgb555_valid(self@),
    {
        proof {
            use_type_invariant(self);
        }
        self.rgb555
    }

    /// Frame width in pixels.
    pub fn width(&self) -> (r: u32)
        ensures
            r == self@.width,
            rgb555_valid(self@),
    {
        proof {
            use_type_invariant(self);
        }
        self.width
    }

    /// Frame height in pixels.
    pub fn height(&self) -> (r: u32)
        ensures
            r == self@.height,
            rgb555_valid(self@),
    {
        proof {
            use_type_invariant(self);
        }
        self.height
    }

    /// Byte stride (`>= 2 * width`).
    pub fn stride(&self) -> (r: u32)
        ensures
            r == self@.strides[0],
            rgb555_valid(self@),
    {
        proof {
            use_type_invariant(self);
        }
        self.stride
    }
}

/// What `Bgr555Frame::try_new` decides.
pub open spec fn bgr555_check(
    bgr555_len: int,
    width: u32,
    height: u32,
    stride: u32,
) -> Result<(), LegacyRgbFrameError> {
    if width == 0 || height == 0 {
        Err(LegacyRgbFrameError::ZeroDimension(ZeroDimension { width, height }))
    } else if width * 2 > u32::MAX {
        Err(LegacyRgbFrameError::WidthOverflow(WidthOverflow { width }))
    } else if stride < width * 2 {
        Err(LegacyRgbFrameError::InsufficientStride(short_stride(stride, (width * 2) as u32)))
    } else if !plane_fits(stride, height) {
        Err(LegacyRgbFrameError::GeometryOverflow(overflow(stride, height)))
    } else if bgr555_len < plane_need(stride, height) {
        Err(LegacyRgbFrameError::InsufficientPlane(short_plane(stride, height, bgr555_len)))
    } else {
        Ok(())
    }
}

/// The inputs that `Bgr555Frame::try_new` accepts, stated directly: non-zero
/// dimensions, each stride covering a row of its plane, each plane
/// holding its rows; a rejection reports the offending values.
pub proof fn lemma_bgr555_accepts(bgr555_len: int, width: u32, height: u32, stride: u32)
    ensures
        ({
            let check = bgr555_check(bgr555_len, width, height, stride);
            &&& check is Ok <==> {
                &&& width > 0 && height > 0
                &&& width * 2 <= u32::MAX
                &&& stride >= width * 2
                &&& stride * height <= usize::MAX
                &&& bgr555_len >= stride * height
            }
            &&& check matches Err(LegacyRgbFrameError::ZeroDimension(e)) ==> {
                &&& e.width == width
                &&& e.height == height
            }
            &&& check matches Err(LegacyRgbFrameError::InsufficientStride(e)) ==> {
                &&& e.stride == stride
                &&& e.min_stride == width * 2
                &&& stride < width * 2
            }
            &&& check matches Err(LegacyRgbFrameError::InsufficientPlane(e)) ==> {
                &&& e.expected == stride * height
                &&& bgr555_len < stride * height
            }
        }),
{
}

/// A validated packed **BGR555** frame — 2 bytes per pixel, one 16-bit
/// little-endian word with bit 15 unused, [14:10] = B5, [9:5] = G5, [4:0] = R5. `stride` is in
/// bytes (`>= 2 * width`); no width parity constraint.
#[derive(Debug, Clone, Copy)]
pub struct Bgr555Frame<'a> {
    bgr555: &'a [u8],
    width: u32,
    height: u32,
    stride: u32,
}

impl<'a> View for Bgr555Frame<'a> {
    type V = FrameView<u8>;

    closed spec fn view(&self) -> FrameView<u8> {
        one_plane(self.width, self.height, self.bgr555@, self.stride)
    }
}

/// `v` is the view of a `Bgr555Frame` that `try_new` accepts: every frame
/// of the type has such a view.
pub open spec fn bgr555_valid(v: FrameView<u8>) -> bool {
    &&& v.planes.len() == 1
    &&& v.strides.len() == 1
    &&& bgr555_check(v.planes[0].len() as int, v.width, v.height, v.strides[0]) is Ok
}

impl<'a> Bgr555Frame<'a> {
    #[verifier::type_invariant]
    closed spec fn wf(&self) -> bool {
        bgr555_check(self.bgr555@.len() as int, self.width, self.height, self.stride) is Ok
    }

    /// Constructs a new frame, validating dimensions, strides and plane
    /// lengths; reports the first check that fails.
    pub fn try_new(
        bgr555: &'a [u8],
        width: u32,
        height: u32,
        stride: u32,
    ) -> (res: Result<Self, LegacyRgbFrameError>)
        ensures
            outcome(res) == bgr555_check(bgr555@.len() as int, width, height, stride),
            res is Ok <==> ({
                &&& width > 0 && height > 0
                &&& width * 2 <= u32::MAX
                &&& stride >= width * 2
                &&& stride * height <= usize::MAX
                &&& bgr555@.len() >= stride * height
            }),
            res matches Ok(f) ==> f@ == one_plane(width, height, bgr555@, stride),
    {
        proof {
            lemma_bgr555_accepts(bgr555@.len() as int, width, height, stride);
        }
        if width == 0 || height == 0 {
            return Err(LegacyRgbFrameError::ZeroDimension(ZeroDimension::new(width, height)));
        }
        let min_stride = match width.checked_mul(2) {
            Some(v) => v,
            None => {
                return Err(LegacyRgbFrameError::WidthOverflow(WidthOverflow::new(width)));
            },
        };
        if stride < min_stride {
            return Err(
                LegacyRgbFrameError::InsufficientStride(
                    InsufficientStride::new(stride, min_stride),
                ),
            );
        }
        let plane_min = match (stride as u64).checked_mul(height as u64) {
            Some(v) if v <= usize::MAX as u64 => v as usize,
            _ => {
                return Err(
                    LegacyRgbFrameError::GeometryOverflow(GeometryOverflow::new(stride, height)),
                );
            },
        };
        if bgr555.len() < plane_min {
            return Err(
                LegacyRgbFrameError::InsufficientPlane(
                    InsufficientPlane::new(plane_min, bgr555.len()),
                ),
            );
        }
        Ok(Bgr555Frame { bgr555, width, height, stride })
    }

    /// Constructs a new frame from inputs that `try_new` accepts.
    pub fn new(bgr555: &'a [u8], width: u32, height: u32, stride: u32) -> (res: Self)
        requires
            bgr555_check(bgr555@.len() as int, width, height, stride) is Ok,
        ensures
            res@ == one_plane(width, height, bgr555@, stride),
    {
        Self::try_new(bgr555, width, height, stride).expect(
            "invalid Bgr555Frame dimensions or plane length",
        )
    }

    /// Packed BGR555 plane bytes; each 2-byte group is one little-endian pixel.
    pub fn bgr555(&self) -> (r: &'a [u8])
        ensures
            r@ == self@.planes[0],
            bgr555_valid(self@),
    {
        proof {
            use_type_invariant(self);
        }
        self.bgr555
    }

    /// Frame width in pixels.
    pub fn width(&self) -> (r: u32)
        ensures
            r == self@.width,
            bgr555_valid(self@),
    {
        proof {
            use_type_invariant(self);
        }
        self.width
    }

    /// Frame height in pixels.
    pub fn height(&self) -> (r: u32)
        ensures
            r == self@.height,
            bgr555_valid(self@),
    {
        proof {
            use_type_invariant(self);
        }
        self.height
    }

    /// Byte stride (`>= 2 * width`).
    pub fn stride(&self) -> (r: u32)
        ensures
            r == self@.strides[0],
            bgr555_valid(self@),
    {
        proof {
            use_type_invariant(self);
        }
        self.stride
    }
}

/// What `Rgb444Frame::try_new` decides.
pub open spec fn rgb444_check(
    rgb444_len: int,
    width: u32,
    height: u32,
    stride: u32,
) -> Result<(), LegacyRgbFrameError> {
    if width == 0 || height == 0 {
        Err(LegacyRgbFrameError::ZeroDimension(ZeroDimension { width, height }))
    } else if width * 2 > u32::MAX {
        Err(LegacyRgbFrameError::WidthOverflow(WidthOverflow { width }))
    } else if stride < width * 2 {
        Err(LegacyRgbFrameError::InsufficientStride(short_stride(stride, (width * 2) as u32)))
    } else if !plane_fits(stride, height) {
        Err(LegacyRgbFrameError::GeometryOverflow(overflow(stride, height)))
    } else if rgb444_len < plane_need(stride, height) {
        Err(LegacyRgbFrameError::InsufficientPlane(short_plane(stride, height, rgb444_len)))
    } else {
        Ok(())
    }
}

/// The inputs that `Rgb444Frame::try_new` accepts, stated directly: non-zero
/// dimensions, each stride covering a row of its plane, each plane
/// holding its rows; a rejection reports the offending values.
pub proof fn lemma_rgb444_accepts(rgb444_len: int, width: u32, height: u32, stride: u32)
    ensures
        ({
            let check = rgb444_check(rgb444_len, width, height, stride);
            &&& check is Ok <==> {
                &&& width > 0 && height > 0
                &&& width * 2 <= u32::MAX
                &&& stride >= width * 2
                &&& stride * height <= usize::MAX
                &&& rgb444_len >= stride * height
            }
            &&& check matches Err(LegacyRgbFrameError::ZeroDimension(e)) ==> {
                &&& e.width == width
                &&& e.height == height
            }
            &&& check matches Err(LegacyRgbFrameError::InsufficientStride(e)) ==> {
                &&& e.stride == stride
                &&& e.min_stride == width * 2
                &&& stride < width * 2
            }
            &&& check matches Err(LegacyRgbFrameError::InsufficientPlane(e)) ==> {
                &&& e.expected == stride * height
                &&& rgb444_len < stride * height
            }
        }),
{
}

/// A validated packed **RGB444** frame — 2 bytes per pixel, one 16-bit
/// little-endian word with bits [15:12] unused, [11:8] = R4, [7:4] = G4, [3:0] = B4. `stride` is in
/// bytes (`>= 2 * width`); no width parity constraint.
#[derive(Debug, Clone, Copy)]
pub struct Rgb444Frame<'a> {
    rgb444: &'a [u8],
    width: u32,
    height: u32,
    stride: u32,
}

impl<'a> View for Rgb444Frame<'a> {
    type V = FrameView<u8>;

    closed spec fn view(&self) -> FrameView<u8> {
        one_plane(self.width, self.height, self.rgb444@, self.stride)
    }
}

/// `v` is the view of a `Rgb444Frame` that `try_new` accepts: every frame
/// of the type has such a view.
pub open spec fn rgb444_valid(v: FrameView<u8>) -> bool {
    &&& v.planes.len() == 1
    &&& v.strides.len() == 1
    &&& rgb444_check(v.planes[0].len() as int, v.width, v.height, v.strides[0]) is Ok
}

impl<'a> Rgb444Frame<'a> {
    #[verifier::type_invariant]
    closed spec fn wf(&self) -> bool {
        rgb444_check(self.rgb444@.len() as int, self.width, self.height, self.stride) is Ok
    }

    /// Constructs a new frame, validating dimensions, strides and plane
    /// lengths; reports the first check that fails.
    pub fn try_new(
        rgb444: &'a [u8],
        width: u32,
        height: u32,
        stride: u32,
    ) -> (res: Result<Self, LegacyRgbFrameError>)
        ensures
            outcome(res) == rgb444_check(rgb444@.len() as int, width, height, stride),
            res is Ok <==> ({
                &&& width > 0 && height > 0
                &&& width * 2 <= u32::MAX
                &&& stride >= width * 2
                &&& stride * height <= usize::MAX
                &&& rgb444@.len() >= stride * height
            }),
            res matches Ok(f) ==> f@ == one_plane(width, height, rgb444@, stride),
    {
        proof {
            lemma_rgb444_accepts(rgb444@.len() as int, width, height, stride);
        }
        if width == 0 || height == 0 {
            return Err(LegacyRgbFrameError::ZeroDimension(ZeroDimension::new(width, height)));
        }
        let min_stride = match width.checked_mul(2) {
            Some(v) => v,
            None => {
                return Err(LegacyRgbFrameError::WidthOverflow(WidthOverflow::new(width)));
            },
        };
        if stride < min_stride {
            return Err(
                LegacyRgbFrameError::InsufficientStride(
                    InsufficientStride::new(stride, min_stride),
                ),
            );
        }
        let plane_min = match (stride as u64).checked_mul(height as u64) {
            Some(v) if v <= usize::MAX as u64 => v as usize,
            _ => {
                return Err(
                    LegacyRgbFrameError::GeometryOverflow(GeometryOverflow::new(stride, height)),
                );
            },
        };
        if rgb444.len() < plane_min {
            return Err(
                LegacyRgbFrameError::InsufficientPlane(
                    InsufficientPlane::new(plane_min, rgb444.len()),
                ),
            );
        }
        Ok(Rgb444Frame { rgb444, width, height, stride })
    }

    /// Constructs a new frame from inputs that `try_new` accepts.
    pub fn new(rgb444: &'a [u8], width: u32, height: u32, stride: u32) -> (res: Self)
        requires
            rgb444_check(rgb444@.len() as int, width, height, stride) is Ok,
        ensures
            res@ == one_plane(width, height, rgb444@, stride),
    {
        Self::try_new(rgb444, width, height, stride).expect(
            "invalid Rgb444Frame dimensions or plane length",
        )
    }

    /// Packed RGB444 plane bytes; each 2-byte group is one little-endian pixel.
    pub fn rgb444(&self) -> (r: &'a [u8])
        ensures
            r@ == self@.planes[0],
            rgb444_valid(self@),
    {
        proof {
            use_type_invariant(self);
        }
        self.rgb444
    }

    /// Frame width in pixels.
    pub fn width(&self) -> (r: u32)
        ensures
            r == self@.width,
            rgb444_valid(self@),
    {
        proof {
            use_type_invariant(self);
        }
        self.width
    }

    /// Frame height in pixels.
    pub fn height(&self) -> (r: u32)
        ensures
            r == self@.height,
            rgb444_valid(self@),
    {
        proof {
            use_type_invariant(self);
        }
        self.height
    }

    /// Byte stride (`>= 2 * width`).
    pub fn stride(&self) -> (r: u32)
        ensures
            r == self@.strides[0],
            rgb444_valid(self@),
    {
        proof {
            use_type_invariant(self);
        }
        self.stride
    }
}

/// What `Bgr444Frame::try_new` decides.
pub open spec fn bgr444_check(
    bgr444_len: int,
    width: u32,
    height: u32,
    stride: u32,
) -> Result<(), LegacyRgbFrameError> {
    if width == 0 || height == 0 {
        Err(LegacyRgbFrameError::ZeroDimension(ZeroDimension { width, height }))
    } else if width * 2 > u32::MAX {
        Err(LegacyRgbFrameError::WidthOverflow(WidthOverflow { width }))
    } else if stride < width * 2 {
        Err(LegacyRgbFrameError::InsufficientStride(short_stride(stride, (width * 2) as u32)))
    } else if !plane_fits(stride, height) {
        Err(LegacyRgbFrameError::GeometryOverflow(overflow(stride, height)))
    } else if bgr444_len < plane_need(stride, height) {
        Err(LegacyRgbFrameError::InsufficientPlane(short_plane(stride, height, bgr444_len)))
    } else {
        Ok(())
    }
}

/// The inputs that `Bgr444Frame::try_new` accepts, stated directly: non-zero
/// dimensions, each stride covering a row of its plane, each plane
/// holding its rows; a rejection reports the offending values.
pub proof fn lemma_bgr444_accepts(bgr444_len: int, width: u32, height: u32, stride: u32)
    ensures
        ({
            let check = bgr444_check(bgr444_len, width, height, stride);
            &&& check is Ok <==> {
                &&& width > 0 && height > 0
                &&& width * 2 <= u32::MAX
                &&& stride >= width * 2
                &&& stride * height <= usize::MAX
                &&& bgr444_len >= stride * height
            }
            &&& check matches Err(LegacyRgbFrameError::ZeroDimension(e)) ==> {
                &&& e.width == width
                &&& e.height == height
            }
            &&& check matches Err(LegacyRgbFrameError::InsufficientStride(e)) ==> {
                &&& e.stride == stride
                &&& e.min_stride == width * 2
                &&& stride < width * 2
            }
            &&& check matches Err(LegacyRgbFrameError::InsufficientPlane(e)) ==> {
                &&& e.expected == stride * height
                &&& bgr444_len < stride * height
            }
        }),
{
}

/// A validated packed **BGR444** frame — 2 bytes per pixel, one 16-bit
/// little-endian word with bits [15:12] unused, [11:8] = B4, [7:4] = G4, [3:0] = R4. `stride` is in
/// bytes (`>= 2 * width`); no width parity constraint.
#[derive(Debug, Clone, Copy)]
pub struct Bgr444Frame<'a> {
    bgr444: &'a [u8],
    width: u32,
    height: u32,
    stride: u32,
}

impl<'a> View for Bgr444Frame<'a> {
    type V = FrameView<u8>;

    closed spec fn view(&self) -> FrameView<u8> {
        one_plane(self.width, self.height, self.bgr444@, self.stride)
    }
}

/// `v` is the view of a `Bgr444Frame` that `try_new` accepts: every frame
/// of the type has such a view.
pub open spec fn bgr444_valid(v: FrameView<u8>) -> bool {
    &&& v.planes.len() == 1
    &&& v.strides.len() == 1
    &&& bgr444_check(v.planes[0].len() as int, v.width, v.height, v.strides[0]) is Ok
}

impl<'a> Bgr444Frame<'a> {
    #[verifier::type_invariant]
    closed spec fn wf(&self) -> bool {
        bgr444_check(self.bgr444@.len() as int, self.width, self.height, self.stride) is Ok
    }

    /// Constructs a new frame, validating dimensions, strides and plane
    /// lengths; reports the first check that fails.
    pub fn try_new(
        bgr444: &'a [u8],
        width: u32,
        height: u32,
        stride: u32,
    ) -> (res: Result<Self, LegacyRgbFrameError>)
        ensures
            outcome(res) == bgr444_check(bgr444@.len() as int, width, height, stride),
            res is Ok <==> ({
                &&& width > 0 && height > 0
                &&& width * 2 <= u32::MAX
                &&& stride >= width * 2
                &&& stride * height <= usize::MAX
                &&& bgr444@.len() >= stride * height
            }),
            res matches Ok(f) ==> f@ == one_plane(width, height, bgr444@, stride),
    {
        proof {
            lemma_bgr444_accepts(bgr444@.len() as int, width, height, stride);
        }
        if width == 0 || height == 0 {
            return Err(LegacyRgbFrameError::ZeroDimension(ZeroDimension::new(width, height)));
        }
        let min_stride = match width.checked_mul(2) {
            Some(v) => v,
            None => {
                return Err(LegacyRgbFrameError::WidthOverflow(WidthOverflow::new(width)));
            },
        };
        if stride < min_stride {
            return Err(
                LegacyRgbFrameError::InsufficientStride(
                    InsufficientStride::new(stride, min_stride),
                ),
            );
        }
        let plane_min = match (stride as u64).checked_mul(height as u64) {
            Some(v) if v <= usize::MAX as u64 => v as usize,
            _ => {
                return Err(
                    LegacyRgbFrameError::GeometryOverflow(GeometryOverflow::new(stride, height)),
                );
            },
        };
        if bgr444.len() < plane_min {
            return Err(
                LegacyRgbFrameError::InsufficientPlane(
                    InsufficientPlane::new(plane_min, bgr444.len()),
                ),
            );
        }
        Ok(Bgr444Frame { bgr444, width, height, stride })
    }

    /// Constructs a new frame from inputs that `try_new` accepts.
    pub fn new(bgr444: &'a [u8], width: u32, height: u32, stride: u32) -> (res: Self)
        requires
            bgr444_check(bgr444@.len() as int, width, height, stride) is Ok,
        ensures
            res@ == one_plane(width, height, bgr444@, stride),
    {
        Self::try_new(bgr444, width, height, stride).expect(
            "invalid Bgr444Frame dimensions or plane length",
        )
    }

    /// Packed BGR444 plane bytes; each 2-byte group is one little-endian pixel.
    pub fn bgr444(&self) -> (r: &'a [u8])
        ensures
            r@ == self@.planes[0],
            bgr444_valid(self@),
    {
        proof {
            use_type_invariant(self);
        }
        self.bgr444
    }

    /// Frame width in pixels.
    pub fn width(&self) -> (r: u32)
        ensures
            r == self@.width,
            bgr444_valid(self@),
    {
        proof {
            use_type_invariant(self);
        }
        self.width
    }

    /// Frame height in pixels.
    pub fn height(&self) -> (r: u32)
        ensures
            r == self@.height,
            bgr444_valid(self@),
    {
        proof {
            use_type_invariant(self);
        }
        self.height
    }

    /// Byte stride (`>= 2 * width`).
    pub fn stride(&self) -> (r: u32)
        ensures
            r == self@.strides[0],
            bgr444_valid(self@),
    {
        proof {
            use_type_invariant(self);
        }
        self.stride
    }
}

/// Errors returned by the bit-packed RGB frame constructors (the
/// 1-byte-per-pixel `Rgb8` / `Bgr8` / `Rgb4Byte` / `Bgr4Byte` and the
/// 4-bits-per-pixel `Rgb4` / `Bgr4`). The least stride of these formats
/// is at most `width` bytes, so it cannot overflow and there is no
/// `WidthOverflow` variant.
#[derive(Debug, Clone, Copy, PartialEq, Eq, Hash)]
#[non_exhaustive]
pub enum PackedRgbBitFrameError {
    /// `width` or `height` was zero.
    ZeroDimension(ZeroDimension),
    /// `stride` is smaller than the least row length in bytes (`width`, or `width.div_ceil(2)` for
    /// the 4-bit formats).
    InsufficientStride(InsufficientStride),
    /// The plane is shorter than `stride * height` bytes.
    InsufficientPlane(InsufficientPlane),
    /// `stride * height` overflows `usize`.
    GeometryOverflow(GeometryOverflow),
}

/// What `Rgb8Frame::try_new` decides.
pub open spec fn rgb8_check(
    rgb8_len: int,
    width: u32,
    height: u32,
    stride: u32,
) -> Result<(), PackedRgbBitFrameError> {
    if width == 0 || height == 0 {
        Err(PackedRgbBitFrameError::ZeroDimension(ZeroDimension { width, height }))
    } else if stride < width {
        Err(PackedRgbBitFrameError::InsufficientStride(short_stride(stride, width)))
    } else if !plane_fits(stride, height) {
        Err(PackedRgbBitFrameError::GeometryOverflow(overflow(stride, height)))
    } else if rgb8_len < plane_need(stride, height) {
        Err(PackedRgbBitFrameError::InsufficientPlane(short_plane(stride, height, rgb8_len)))
    } else {
        Ok(())
    }
}

/// The inputs that `Rgb8Frame::try_new` accepts, stated directly: non-zero
/// dimensions, each stride covering a row of its plane, each plane
/// holding its rows; a rejection reports the offending values.
pub proof fn lemma_rgb8_accepts(rgb8_len: int, width: u32, height: u32, stride: u32)
    ensures
        ({
            let check = rgb8_check(rgb8_len, width, height, stride);
            &&& check is Ok <==> {
                &&& width > 0 && height > 0
                &&& stride >= width
                &&& stride * height <= usize::MAX
                &&& rgb8_len >= stride * height
            }
            &&& check matches Err(PackedRgbBitFrameError::ZeroDimension(e)) ==> {
                &&& e.width == width
                &&& e.height == height
            }
            &&& check matches Err(PackedRgbBitFrameError::InsufficientStride(e)) ==> {
                &&& e.stride == stride
                &&& e.min_stride == width
                &&& stride < width
            }
            &&& check matches Err(PackedRgbBitFrameError::InsufficientPlane(e)) ==> {
                &&& e.expected == stride * height
                &&& rgb8_len < stride * height
            }
        }),
{
}

/// A validated packed **RGB8** frame — 1 byte per pixel, 3:3:2 with bits [7:5] = R3, [4:2] = G3,
/// [1:0] = B2. `stride` is in bytes (`>= width`); no width parity constraint.
#[derive(Debug, Clone, Copy)]
pub struct Rgb8Frame<'a> {
    rgb8: &'a [u8],
    width: u32,
    height: u32,
    stride: u32,
}

impl<'a> View for Rgb8Frame<'a> {
    type V = FrameView<u8>;

    closed spec fn view(&self) -> FrameView<u8> {
        one_plane(self.width, self.height, self.rgb8@, self.stride)
    }
}

/// `v` is the view of a `Rgb8Frame` that `try_new` accepts: every frame
/// of the type has such a view.
pub open spec fn rgb8_valid(v: FrameView<u8>) -> bool {
    &&& v.planes.len() == 1
    &&& v.strides.len() == 1
    &&& rgb8_check(v.planes[0].len() as int, v.width, v.height, v.strides[0]) is Ok
}

impl<'a> Rgb8Frame<'a> {
    #[verifier::type_invariant]
    closed spec fn wf(&self) -> bool {
        rgb8_check(self.rgb8@.len() as int, self.width, self.height, self.stride) is Ok
    }

    /// Constructs a new frame, validating dimensions, strides and plane
    /// lengths; reports the first check that fails.
    pub fn try_new(
        rgb8: &'a [u8],
        width: u32,
        height: u32,
        stride: u32,
    ) -> (res: Result<Self, PackedRgbBitFrameError>)
        ensures
            outcome(res) == rgb8_check(rgb8@.len() as int, width, height, stride),
            res is Ok <==> ({
                &&& width > 0 && height > 0
                &&& stride >= width
                &&& stride * height <= usize::MAX
                &&& rgb8@.len() >= stride * height
            }),
            res matches Ok(f) ==> f@ == one_plane(width, height, rgb8@, stride),
    {
        proof {
            lemma_rgb8_accepts(rgb8@.len() as int, width, height, stride);
        }
        if width == 0 || height == 0 {
            return Err(PackedRgbBitFrameError::ZeroDimension(ZeroDimension::new(width, height)));
        }
        if stride < width {
            return Err(
                PackedRgbBitFrameError::InsufficientStride(InsufficientStride::new(stride, width)),
            );
        }
        let plane_min = match (stride as u64).checked_mul(height as u64) {
            Some(v) if v <= usize::MAX as u64 => v as usize,
            _ => {
                return Err(
                    PackedRgbBitFrameError::GeometryOverflow(GeometryOverflow::new(stride, height)),
                );
            },
        };
        if rgb8.len() < plane_min {
            return Err(
                PackedRgbBitFrameError::InsufficientPlane(
                    InsufficientPlane::new(plane_min, rgb8.len()),
                ),
            );
        }
        Ok(Rgb8Frame { rgb8, width, height, stride })
    }

    /// Constructs a new frame from inputs that `try_new` accepts.
    pub fn new(rgb8: &'a [u8], width: u32, height: u32, stride: u32) -> (res: Self)
        requires
            rgb8_check(rgb8@.len() as int, width, height, stride) is Ok,
        ensures
            res@ == one_plane(width, height, rgb8@, stride),
    {
        Self::try_new(rgb8, width, height, stride).expect(
            "invalid Rgb8Frame dimensions or plane length",
        )
    }

    /// Packed RGB8 plane bytes; each byte is one pixel.
    pub fn rgb8(&self) -> (r: &'a [u8])
        ensures
            r@ == self@.planes[0],
            rgb8_valid(self@),
    {
        proof {
            use_type_invariant(self);
        }
        self.rgb8
    }

    /// Frame width in pixels.
    pub fn width(&self) -> (r: u32)
        ensures
            r == self@.width,
            rgb8_valid(self@),
    {
        proof {
            use_type_invariant(self);
        }
        self.width
    }

    /// Frame height in pixels.
    pub fn height(&self) -> (r: u32)
        ensures
            r == self@.height,
            rgb8_valid(self@),
    {
        proof {
            use_type_invariant(self);
        }
        self.height
    }

    /// Byte stride (`>= width`).
    pub fn stride(&self) -> (r: u32)
        ensures
            r == self@.strides[0],
            rgb8_valid(self@),
    {
        proof {
            use_type_invariant(self);
        }
        self.stride
    }
}

/// What `Bgr8Frame::try_new` decides.
pub open spec fn bgr8_check(
    bgr8_len: int,
    width: u32,
    height: u32,
    stride: u32,
) -> Result<(), PackedRgbBitFrameError> {
    if width == 0 || height == 0 {
        Err(PackedRgbBitFrameError::ZeroDimension(ZeroDimension { width, height }))
    } else if stride < width {
        Err(PackedRgbBitFrameError::InsufficientStride(short_stride(stride, width)))
    } else if !plane_fits(stride, height) {
        Err(PackedRgbBitFrameError::GeometryOverflow(overflow(stride, height)))
    } else if bgr8_len < plane_need(stride, height) {
        Err(PackedRgbBitFrameError::InsufficientPlane(short_plane(stride, height, bgr8_len)))
    } else {
        Ok(())
    }
}

/// The inputs that `Bgr8Frame::try_new` accepts, stated directly: non-zero
/// dimensions, each stride covering a row of its plane, each plane
/// holding its rows; a rejection reports the offending values.
pub proof fn lemma_bgr8_accepts(bgr8_len: int, width: u32, height: u32, stride: u32)
    ensures
        ({
            let check = bgr8_check(bgr8_len, width, height, stride);
            &&& check is Ok <==> {
                &&& width > 0 && height > 0
                &&& stride >= width
                &&& stride * height <= usize::MAX
                &&& bgr8_len >= stride * height
            }
            &&& check matches Err(PackedRgbBitFrameError::ZeroDimension(e)) ==> {
                &&& e.width == width
                &&& e.height == height
            }
            &&& check matches Err(PackedRgbBitFrameError::InsufficientStride(e)) ==> {
                &&& e.stride == stride
                &&& e.min_stride == width
                &&& stride < width
            }
            &&& check matches Err(PackedRgbBitFrameError::InsufficientPlane(e)) ==> {
                &&& e.expected == stride * height
                &&& bgr8_len < stride * height
            }
        }),
{
}

/// A validated packed **BGR8** frame — 1 byte per pixel, 2:3:3 with bits [7:6] = B2, [5:3] = G3,
/// [2:0] = R3. `stride` is in bytes (`>= width`); no width parity constraint.
#[derive(Debug, Clone, Copy)]
pub struct Bgr8Frame<'a> {
    bgr8: &'a [u8],
    width: u32,
    height: u32,
    stride: u32,
}

impl<'a> View for Bgr8Frame<'a> {
    type V = FrameView<u8>;

    closed spec fn view(&self) -> FrameView<u8> {
        one_plane(self.width, self.height, self.bgr8@, self.stride)
    }
}

/// `v` is the view of a `Bgr8Frame` that `try_new` accepts: every frame
/// of the type has such a view.
pub open spec fn bgr8_valid(v: FrameView<u8>) -> bool {
    &&& v.planes.len() == 1
    &&& v.strides.len() == 1
    &&& bgr8_check(v.planes[0].len() as int, v.width, v.height, v.strides[0]) is Ok
}

impl<'a> Bgr8Frame<'a> {
    #[verifier::type_invariant]
    closed spec fn wf(&self) -> bool {
        bgr8_check(self.bgr8@.len() as int, self.width, self.height, self.stride) is Ok
    }

    /// Constructs a new frame, validating dimensions, strides and plane
    /// lengths; reports the first check that fails.
    pub fn try_new(
        bgr8: &'a [u8],
        width: u32,
        height: u32,
        stride: u32,
    ) -> (res: Result<Self, PackedRgbBitFrameError>)
        ensures
            outcome(res) == bgr8_check(bgr8@.len() as int, width, height, stride),
            res is Ok <==> ({
                &&& width > 0 && height > 0
                &&& stride >= width
                &&& stride * height <= usize::MAX
                &&& bgr8@.len() >= stride * height
            }),
            res matches Ok(f) ==> f@ == one_plane(width, height, bgr8@, stride),
    {
        proof {
            lemma_bgr8_accepts(bgr8@.len() as int, width, height, stride);
        }
        if width == 0 || height == 0 {
            return Err(PackedRgbBitFrameError::ZeroDimension(ZeroDimension::new(width, height)));
        }
        if stride < width {
            return Err(
                PackedRgbBitFrameError::InsufficientStride(InsufficientStride::new(stride, width)),
            );
        }
        let plane_min = match (stride as u64).checked_mul(height as u64) {
            Some(v) if v <= usize::MAX as u64 => v as usize,
            _ => {
                return Err(
                    PackedRgbBitFrameError::GeometryOverflow(GeometryOverflow::new(stride, height)),
                );
            },
        };
        if bgr8.len() < plane_min {
            return Err(
                PackedRgbBitFrameError::InsufficientPlane(
                    InsufficientPlane::new(plane_min, bgr8.len()),
                ),
            );
        }
        Ok(Bgr8Frame { bgr8, width, height, stride })
    }

    /// Constructs a new frame from inputs that `try_new` accepts.
    pub fn new(bgr8: &'a [u8], width: u32, height: u32, stride: u32) -> (res: Self)
        requires
            bgr8_check(bgr8@.len() as int, width, height, stride) is Ok,
        ensures
            res@ == one_plane(width, height, bgr8@, stride),
    {
        Self::try_new(bgr8, width, height, stride).expect(
            "invalid Bgr8Frame dimensions or plane length",
        )
    }

    /// Packed BGR8 plane bytes; each byte is one pixel.
    pub fn bgr8(&self) -> (r: &'a [u8])
        ensures
            r@ == self@.planes[0],
            bgr8_valid(self@),
    {
        proof {
            use_type_invariant(self);
        }
        self.bgr8
    }

    /// Frame width in pixels.
    pub fn width(&self) -> (r: u32)
        ensures
            r == self@.width,
            bgr8_valid(self@),
    {
        proof {
            use_type_invariant(self);
        }
        self.width
    }

    /// Frame height in pixels.
    pub fn height(&self) -> (r: u32)
        ensures
            r == self@.height,
            bgr8_valid(self@),
    {
        proof {
            use_type_invariant(self);
        }
        self.height
    }

    /// Byte stride (`>= width`).
    pub fn stride(&self) -> (r: u32)
        ensures
            r == self@.strides[0],
            bgr8_valid(self@),
    {
        proof {
            use_type_invariant(self);
        }
        self.stride
    }
}

/// What `Rgb4ByteFrame::try_new` decides.
pub open spec fn rgb4_byte_check(
    rgb4_byte_len: int,
    width: u32,
    height: u32,
    stride: u32,
) -> Result<(), PackedRgbBitFrameError> {
    if width == 0 || height == 0 {
        Err(PackedRgbBitFrameError::ZeroDimension(ZeroDimension { width, height }))
    } else if stride < width {
        Err(PackedRgbBitFrameError::InsufficientStride(short_stride(stride, width)))
    } else if !plane_fits(stride, height) {
        Err(PackedRgbBitFrameError::GeometryOverflow(overflow(stride, height)))
    } else if rgb4_byte_len < plane_need(stride, height) {
        Err(PackedRgbBitFrameError::InsufficientPlane(short_plane(stride, height, rgb4_byte_len)))
    } else {
        Ok(())
    }
}

/// The inputs that `Rgb4ByteFrame::try_new` accepts, stated directly: non-zero
/// dimensions, each stride covering a row of its plane, each plane
/// holding its rows; a rejection reports the offending values.
pub proof fn lemma_rgb4_byte_accepts(rgb4_byte_len: int, width: u32, height: u32, stride: u32)
    ensures
        ({
            let check = rgb4_byte_check(rgb4_byte_len, width, height, stride);
            &&& check is Ok <==> {
                &&& width > 0 && height > 0
                &&& stride >= width
                &&& stride * height <= usize::MAX
                &&& rgb4_byte_len >= stride * height
            }
            &&& check matches Err(PackedRgbBitFrameError::ZeroDimension(e)) ==> {
                &&& e.width == width
                &&& e.height == height
            }
            &&& check matches Err(PackedRgbBitFrameError::InsufficientStride(e)) ==> {
                &&& e.stride == stride
                &&& e.min_stride == width
                &&& stride < width
            }
            &&& check matches Err(PackedRgbBitFrameError::InsufficientPlane(e)) ==> {
                &&& e.expected == stride * height
                &&& rgb4_byte_len < stride * height
            }
        }),
{
}

/// A validated packed **RGB4_BYTE** frame — 1 byte per pixel, 1:2:1 in the low nibble: bit [3] =
/// R1, [2:1] = G2, [0] = B1. `stride` is in bytes (`>= width`); no width parity constraint.
#[derive(Debug, Clone, Copy)]
pub struct Rgb4ByteFrame<'a> {
    rgb4_byte: &'a [u8],
    width: u32,
    height: u32,
    stride: u32,
}

impl<'a> View for Rgb4ByteFrame<'a> {
    type V = FrameView<u8>;

    closed spec fn view(&self) -> FrameView<u8> {
        one_plane(self.width, self.height, self.rgb4_byte@, self.stride)
    }
}

/// `v` is the view of a `Rgb4ByteFrame` that `try_new` accepts: every frame
/// of the type has such a view.
pub open spec fn rgb4_byte_valid(v: FrameView<u8>) -> bool {
    &&& v.planes.len() == 1
    &&& v.strides.len() == 1
    &&& rgb4_byte_check(v.planes[0].len() as int, v.width, v.height, v.strides[0]) is Ok
}

impl<'a> Rgb4ByteFrame<'a> {
    #[verifier::type_invariant]
    closed spec fn wf(&self) -> bool {
        rgb4_byte_check(self.rgb4_byte@.len() as int, self.width, self.height, self.stride) is Ok
    }

    /// Constructs a new frame, validating dimensions, strides and plane
    /// lengths; reports the first check that fails.
    pub fn try_new(
        rgb4_byte: &'a [u8],
        width: u32,
        height: u32,
        stride: u32,
    ) -> (res: Result<Self, PackedRgbBitFrameError>)
        ensures
            outcome(res) == rgb4_byte_check(rgb4_byte@.len() as int, width, height, stride),
            res is Ok <==> ({
                &&& width > 0 && height > 0
                &&& stride >= width
                &&& stride * height <= usize::MAX
                &&& rgb4_byte@.len() >= stride * height
            }),
            res matches Ok(f) ==> f@ == one_plane(width, height, rgb4_byte@, stride),
    {
        proof {
            lemma_rgb4_byte_accepts(rgb4_byte@.len() as int, width, height, stride);
        }
        if width == 0 || height == 0 {
            return Err(PackedRgbBitFrameError::ZeroDimension(ZeroDimension::new(width, height)));
        }
        if stride < width {
            return Err(
                PackedRgbBitFrameError::InsufficientStride(InsufficientStride::new(stride, width)),
            );
        }
        let plane_min = match (stride as u64).checked_mul(height as u64) {
            Some(v) if v <= usize::MAX as u64 => v as usize,
            _ => {
                return Err(
                    PackedRgbBitFrameError::GeometryOverflow(GeometryOverflow::new(stride, height)),
                );
            },
        };
        if rgb4_byte.len() < plane_min {
            return Err(
                PackedRgbBitFrameError::InsufficientPlane(
                    InsufficientPlane::new(plane_min, rgb4_byte.len()),
                ),
            );
        }
        Ok(Rgb4ByteFrame { rgb4_byte, width, height, stride })
    }

    /// Constructs a new frame from inputs that `try_new` accepts.
    pub fn new(rgb4_byte: &'a [u8], width: u32, height: u32, stride: u32) -> (res: Self)
        requires
            rgb4_byte_check(rgb4_byte@.len() as int, width, height, stride) is Ok,
        ensures
            res@ == one_plane(width, height, rgb4_byte@, stride),
    {
        Self::try_new(rgb4_byte, width, height, stride).expect(
            "invalid Rgb4ByteFrame dimensions or plane length",
        )
    }

    /// Packed RGB4_BYTE plane bytes; each byte is one pixel.
    pub fn rgb4_byte(&self) -> (r: &'a [u8])
        ensures
            r@ == self@.planes[0],
            rgb4_byte_valid(self@),
    {
        proof {
            use_type_invariant(self);
        }
        self.rgb4_byte
    }

    /// Frame width in pixels.
    pub fn width(&self) -> (r: u32)
        ensures
            r == self@.width,
            rgb4_byte_valid(self@),
    {
        proof {
            use_type_invariant(self);
        }
        self.width
    }

    /// Frame height in pixels.
    pub fn height(&self) -> (r: u32)
        ensures
            r == self@.height,
            rgb4_byte_valid(self@),
    {
        proof {
            use_type_invariant(self);
        }
        self.height
    }

    /// Byte stride (`>= width`).
    pub fn stride(&self) -> (r: u32)
        ensures
            r == self@.strides[0],
            rgb4_byte_valid(self@),
    {
        proof {
            use_type_invariant(self);
        }
        self.stride
    }
}

/// What `Bgr4ByteFrame::try_new` decides.
pub open spec fn bgr4_byte_check(
    bgr4_byte_len: int,
    width: u32,
    height: u32,
    stride: u32,
) -> Result<(), PackedRgbBitFrameError> {
    if width == 0 || height == 0 {
        Err(PackedRgbBitFrameError::ZeroDimension(ZeroDimension { width, height }))
    } else if stride < width {
        Err(PackedRgbBitFrameError::InsufficientStride(short_stride(stride, width)))
    } else if !plane_fits(stride, height) {
        Err(PackedRgbBitFrameError::GeometryOverflow(overflow(stride, height)))
    } else if bgr4_byte_len < plane_need(stride, height) {
        Err(PackedRgbBitFrameError::InsufficientPlane(short_plane(stride, height, bgr4_byte_len)))
    } else {
        Ok(())
    }
}

/// The inputs that `Bgr4ByteFrame::try_new` accepts, stated directly: non-zero
/// dimensions, each stride covering a row of its plane, each plane
/// holding its rows; a rejection reports the offending values.
pub proof fn lemma_bgr4_byte_accepts(bgr4_byte_len: int, width: u32, height: u32, stride: u32)
    ensures
        ({
            let check = bgr4_byte_check(bgr4_byte_len, width, height, stride);
            &&& check is Ok <==> {
                &&& width > 0 && height > 0
                &&& stride >= width
                &&& stride * height <= usize::MAX
                &&& bgr4_byte_len >= stride * height
            }
            &&& check matches Err(PackedRgbBitFrameError::ZeroDimension(e)) ==> {
                &&& e.width == width
                &&& e.height == height
            }
            &&& check matches Err(PackedRgbBitFrameError::InsufficientStride(e)) ==> {
                &&& e.stride == stride
                &&& e.min_stride == width
                &&& stride < width
            }
            &&& check matches Err(PackedRgbBitFrameError::InsufficientPlane(e)) ==> {
                &&& e.expected == stride * height
                &&& bgr4_byte_len < stride * height
            }
        }),
{
}

/// A validated packed **BGR4_BYTE** frame — 1 byte per pixel, 1:2:1 in the low nibble: bit [3] =
/// B1, [2:1] = G2, [0] = R1. `stride` is in bytes (`>= width`); no width parity constraint.
#[derive(Debug, Clone, Copy)]
pub struct Bgr4ByteFrame<'a> {
    bgr4_byte: &'a [u8],
    width: u32,
    height: u32,
    stride: u32,
}

impl<'a> View for Bgr4ByteFrame<'a> {
    type V = FrameView<u8>;

    closed spec fn view(&self) -> FrameView<u8> {
        one_plane(self.width, self.height, self.bgr4_byte@, self.stride)
    }
}

/// `v` is the view of a `Bgr4ByteFrame` that `try_new` accepts: every frame
/// of the type has such a view.
pub open spec fn bgr4_byte_valid(v: FrameView<u8>) -> bool {
    &&& v.planes.len() == 1
    &&& v.strides.len() == 1
    &&& bgr4_byte_check(v.planes[0].len() as int, v.width, v.height, v.strides[0]) is Ok
}

impl<'a> Bgr4ByteFrame<'a> {
    #[verifier::type_invariant]
    closed spec fn wf(&self) -> bool {
        bgr4_byte_check(self.bgr4_byte@.len() as int, self.width, self.height, self.stride) is Ok
    }

    /// Constructs a new frame, validating dimensions, strides and plane
    /// lengths; reports the first check that fails.
    pub fn try_new(
        bgr4_byte: &'a [u8],
        width: u32,
        height: u32,
        stride: u32,
    ) -> (res: Result<Self, PackedRgbBitFrameError>)
        ensures
            outcome(res) == bgr4_byte_check(bgr4_byte@.len() as int, width, height, stride),
            res is Ok <==> ({
                &&& width > 0 && height > 0
                &&& stride >= width
                &&& stride * height <= usize::MAX
                &&& bgr4_byte@.len() >= stride * height
            }),
            res matches Ok(f) ==> f@ == one_plane(width, height, bgr4_byte@, stride),
    {
        proof {
            lemma_bgr4_byte_accepts(bgr4_byte@.len() as int, width, height, stride);
        }
        if width == 0 || height == 0 {
            return Err(PackedRgbBitFrameError::ZeroDimension(ZeroDimension::new(width, height)));
        }
        if stride < width {
            return Err(
                PackedRgbBitFrameError::InsufficientStride(InsufficientStride::new(stride, width)),
            );
        }
        let plane_min = match (stride as u64).checked_mul(height as u64) {
            Some(v) if v <= usize::MAX as u64 => v as usize,
            _ => {
                return Err(
                    PackedRgbBitFrameError::GeometryOverflow(GeometryOverflow::new(stride, height)),
                );
            },
        };
        if bgr4_byte.len() < plane_min {
            return Err(
                PackedRgbBitFrameError::InsufficientPlane(
                    InsufficientPlane::new(plane_min, bgr4_byte.len()),
                ),
            );
        }
        Ok(Bgr4ByteFrame { bgr4_byte, width, height, stride })
    }

    /// Constructs a new frame from inputs that `try_new` accepts.
    pub fn new(bgr4_byte: &'a [u8], width: u32, height: u32, stride: u32) -> (res: Self)
        requires
            bgr4_byte_check(bgr4_byte@.len() as int, width, height, stride) is Ok,
        ensures
            res@ == one_plane(width, height, bgr4_byte@, stride),
    {
        Self::try_new(bgr4_byte, width, height, stride).expect(
            "invalid Bgr4ByteFrame dimensions or plane length",
        )
    }

    /// Packed BGR4_BYTE plane bytes; each byte is one pixel.
    pub fn bgr4_byte(&self) -> (r: &'a [u8])
        ensures
            r@ == self@.planes[0],
            bgr4_byte_valid(self@),
    {
        proof {
            use_type_invariant(self);
        }
        self.bgr4_byte
    }

    /// Frame width in pixels.
    pub fn width(&self) -> (r: u32)
        ensures
            r == self@.width,
            bgr4_byte_valid(self@),
    {
        proof {
            use_type_invariant(self);
        }
        self.width
    }

    /// Frame height in pixels.
    pub fn height(&self) -> (r: u32)
        ensures
            r == self@.height,
            bgr4_byte_valid(self@),
    {
        proof {
            use_type_invariant(self);
        }
        self.height
    }

    /// Byte stride (`>= width`).
    pub fn stride(&self) -> (r: u32)
        ensures
            r == self@.strides[0],
            bgr4_byte_valid(self@),
    {
        proof {
            use_type_invariant(self);
        }
        self.stride
    }
}

/// What `Rgb4Frame::try_new` decides.
pub open spec fn rgb4_check(
    rgb4_len: int,
    width: u32,
    height: u32,
    stride: u32,
) -> Result<(), PackedRgbBitFrameError> {
    if width == 0 || height == 0 {
        Err(PackedRgbBitFrameError::ZeroDimension(ZeroDimension { width, height }))
    } else if stride < half_up(width) {
        Err(PackedRgbBitFrameError::InsufficientStride(short_stride(stride, half_up(width))))
    } else if !plane_fits(stride, height) {
        Err(PackedRgbBitFrameError::GeometryOverflow(overflow(stride, height)))
    } else if rgb4_len < plane_need(stride, height) {
        Err(PackedRgbBitFrameError::InsufficientPlane(short_plane(stride, height, rgb4_len)))
    } else {
        Ok(())
    }
}

/// The inputs that `Rgb4Frame::try_new` accepts, stated directly: non-zero
/// dimensions, each stride covering a row of its plane, each plane
/// holding its rows; a rejection reports the offending values.
pub proof fn lemma_rgb4_accepts(rgb4_len: int, width: u32, height: u32, stride: u32)
    ensures
        ({
            let check = rgb4_check(rgb4_len, width, height, stride);
            &&& check is Ok <==> {
                &&& width > 0 && height > 0
                &&& stride >= (width + 1) / 2
                &&& stride * height <= usize::MAX
                &&& rgb4_len >= stride * height
            }
            &&& check matches Err(PackedRgbBitFrameError::ZeroDimension(e)) ==> {
                &&& e.width == width
                &&& e.height == height
            }
            &&& check matches Err(PackedRgbBitFrameError::InsufficientStride(e)) ==> {
                &&& e.stride == stride
                &&& e.min_stride == (width + 1) / 2
                &&& stride < (width + 1) / 2
            }
            &&& check matches Err(PackedRgbBitFrameError::InsufficientPlane(e)) ==> {
                &&& e.expected == stride * height
                &&& rgb4_len < stride * height
            }
        }),
{
    assert(half_up(width) == (width + 1) / 2);
}

/// A validated packed **RGB4** frame — 4 bits per pixel, two pixels per
/// byte (each nibble 1:2:1 R, G, B; the high nibble is the left pixel). `stride` is in bytes (`>=
/// width.div_ceil(2)`).
#[derive(Debug, Clone, Copy)]
pub struct Rgb4Frame<'a> {
    rgb4: &'a [u8],
    width: u32,
    height: u32,
    stride: u32,
}

impl<'a> View for Rgb4Frame<'a> {
    type V = FrameView<u8>;

    closed spec fn view(&self) -> FrameView<u8> {
        one_plane(self.width, self.height, self.rgb4@, self.stride)
    }
}

/// `v` is the view of a `Rgb4Frame` that `try_new` accepts: every frame
/// of the type has such a view.
pub open spec fn rgb4_valid(v: FrameView<u8>) -> bool {
    &&& v.planes.len() == 1
    &&& v.strides.len() == 1
    &&& rgb4_check(v.planes[0].len() as int, v.width, v.height, v.strides[0]) is Ok
}

impl<'a> Rgb4Frame<'a> {
    #[verifier::type_invariant]
    closed spec fn wf(&self) -> bool {
        rgb4_check(self.rgb4@.len() as int, self.width, self.height, self.stride) is Ok
    }

    /// Constructs a new frame, validating dimensions, strides and plane
    /// lengths; reports the first check that fails.
    pub fn try_new(
        rgb4: &'a [u8],
        width: u32,
        height: u32,
        stride: u32,
    ) -> (res: Result<Self, PackedRgbBitFrameError>)
        ensures
            outcome(res) == rgb4_check(rgb4@.len() as int, width, height, stride),
            res is Ok <==> ({
                &&& width > 0 && height > 0
                &&& stride >= (width + 1) / 2
                &&& stride * height <= usize::MAX
                &&& rgb4@.len() >= stride * height
            }),
            res matches Ok(f) ==> f@ == one_plane(width, height, rgb4@, stride),
    {
        proof {
            lemma_rgb4_accepts(rgb4@.len() as int, width, height, stride);
        }
        if width == 0 || height == 0 {
            return Err(PackedRgbBitFrameError::ZeroDimension(ZeroDimension::new(width, height)));
        }
        let min_stride = div_ceil2(width);
        if stride < min_stride {
            return Err(
                PackedRgbBitFrameError::InsufficientStride(
                    InsufficientStride::new(stride, min_stride),
                ),
            );
        }
        let plane_min = match (stride as u64).checked_mul(height as u64) {
            Some(v) if v <= usize::MAX as u64 => v as usize,
            _ => {
                return Err(
                    PackedRgbBitFrameError::GeometryOverflow(GeometryOverflow::new(stride, height)),
                );
            },
        };
        if rgb4.len() < plane_min {
            return Err(
                PackedRgbBitFrameError::InsufficientPlane(
                    InsufficientPlane::new(plane_min, rgb4.len()),
                ),
            );
        }
        Ok(Rgb4Frame { rgb4, width, height, stride })
    }

    /// Constructs a new frame from inputs that `try_new` accepts.
    pub fn new(rgb4: &'a [u8], width: u32, height: u32, stride: u32) -> (res: Self)
        requires
            rgb4_check(rgb4@.len() as int, width, height, stride) is Ok,
        ensures
            res@ == one_plane(width, height, rgb4@, stride),
    {
        Self::try_new(rgb4, width, height, stride).expect(
            "invalid Rgb4Frame dimensions or plane length",
        )
    }

    /// Packed RGB4 plane bytes; each byte holds two pixels.
    pub fn rgb4(&self) -> (r: &'a [u8])
        ensures
            r@ == self@.planes[0],
            rgb4_valid(self@),
    {
        proof {
            use_type_invariant(self);
        }
        self.rgb4
    }

    /// Frame width in pixels.
    pub fn width(&self) -> (r: u32)
        ensures
            r == self@.width,
            rgb4_valid(self@),
    {
        proof {
            use_type_invariant(self);
        }
        self.width
    }

    /// Frame height in pixels.
    pub fn height(&self) -> (r: u32)
        ensures
            r == self@.height,
            rgb4_valid(self@),
    {
        proof {
            use_type_invariant(self);
        }
        self.height
    }

    /// Byte stride (`>= width.div_ceil(2)`).
    pub fn stride(&self) -> (r: u32)
        ensures
            r == self@.strides[0],
            rgb4_valid(self@),
    {
        proof {
            use_type_invariant(self);
        }
        self.stride
    }
}

/// What `Bgr4Frame::try_new` decides.
pub open spec fn bgr4_check(
    bgr4_len: int,
    width: u32,
    height: u32,
    stride: u32,
) -> Result<(), PackedRgbBitFrameError> {
    if width == 0 || height == 0 {
        Err(PackedRgbBitFrameError::ZeroDimension(ZeroDimension { width, height }))
    } else if stride < half_up(width) {
        Err(PackedRgbBitFrameError::InsufficientStride(short_stride(stride, half_up(width))))
    } else if !plane_fits(stride, height) {
        Err(PackedRgbBitFrameError::GeometryOverflow(overflow(stride, height)))
    } else if bgr4_len < plane_need(stride, height) {
        Err(PackedRgbBitFrameError::InsufficientPlane(short_plane(stride, height, bgr4_len)))
    } else {
        Ok(())
    }
}

/// The inputs that `Bgr4Frame::try_new` accepts, stated directly: non-zero
/// dimensions, each stride covering a row of its plane, each plane
/// holding its rows; a rejection reports the offending values.
pub proof fn lemma_bgr4_accepts(bgr4_len: int, width: u32, height: u32, stride: u32)
    ensures
        ({
            let check = bgr4_check(bgr4_len, width, height, stride);
            &&& check is Ok <==> {
                &&& width > 0 && height > 0
                &&& stride >= (width + 1) / 2
                &&& stride * height <= usize::MAX
                &&& bgr4_len >= stride * height
            }
            &&& check matches Err(PackedRgbBitFrameError::ZeroDimension(e)) ==> {
                &&& e.width == width
                &&& e.height == height
            }
            &&& check matches Err(PackedRgbBitFrameError::InsufficientStride(e)) ==> {
                &&& e.stride == stride
                &&& e.min_stride == (width + 1) / 2
                &&& stride < (width + 1) / 2
            }
            &&& check matches Err(PackedRgbBitFrameError::InsufficientPlane(e)) ==> {
                &&& e.expected == stride * height
                &&& bgr4_len < stride * height
            }
        }),
{
    assert(half_up(width) == (width + 1) / 2);
}

/// A validated packed **BGR4** frame — 4 bits per pixel, two pixels per
/// byte (each nibble 1:2:1 B, G, R; the high nibble is the left pixel). `stride` is in bytes (`>=
/// width.div_ceil(2)`).
#[derive(Debug, Clone, Copy)]
pub struct Bgr4Frame<'a> {
    bgr4: &'a [u8],
    width: u32,
    height: u32,
    stride: u32,
}

impl<'a> View for Bgr4Frame<'a> {
    type V = FrameView<u8>;

    closed spec fn view(&self) -> FrameView<u8> {
        one_plane(self.width, self.height, self.bgr4@, self.stride)
    }
}

/// `v` is the view of a `Bgr4Frame` that `try_new` accepts: every frame
/// of the type has such a view.
pub open spec fn bgr4_valid(v: FrameView<u8>) -> bool {
    &&& v.planes.len() == 1
    &&& v.strides.len() == 1
    &&& bgr4_check(v.planes[0].len() as int, v.width, v.height, v.strides[0]) is Ok
}

impl<'a> Bgr4Frame<'a> {
    #[verifier::type_invariant]
    closed spec fn wf(&self) -> bool {
        bgr4_check(self.bgr4@.len() as int, self.width, self.height, self.stride) is Ok
    }

    /// Constructs a new frame, validating dimensions, strides and plane
    /// lengths; reports the first check that fails.
    pub fn try_new(
        bgr4: &'a [u8],
        width: u32,
        height: u32,
        stride: u32,
    ) -> (res: Result<Self, PackedRgbBitFrameError>)
        ensures
            outcome(res) == bgr4_check(bgr4@.len() as int, width, height, stride),
            res is Ok <==> ({
                &&& width > 0 && height > 0
                &&& stride >= (width + 1) / 2
                &&& stride * height <= usize::MAX
                &&& bgr4@.len() >= stride * height
            }),
            res matches Ok(f) ==> f@ == one_plane(width, height, bgr4@, stride),
    {
        proof {
            lemma_bgr4_accepts(bgr4@.len() as int, width, height, stride);
        }
        if width == 0 || height == 0 {
            return Err(PackedRgbBitFrameError::ZeroDimension(ZeroDimension::new(width, height)));
        }
        let min_stride = div_ceil2(width);
        if stride < min_stride {
            return Err(
                PackedRgbBitFrameError::InsufficientStride(
                    InsufficientStride::new(stride, min_stride),
                ),
            );
        }
        let plane_min = match (stride as u64).checked_mul(height as u64) {
            Some(v) if v <= usize::MAX as u64 => v as usize,
            _ => {
                return Err(
                    PackedRgbBitFrameError::GeometryOverflow(GeometryOverflow::new(stride, height)),
                );
            },
        };
        if bgr4.len() < plane_min {
            return Err(
                PackedRgbBitFrameError::InsufficientPlane(
                    InsufficientPlane::new(plane_min, bgr4.len()),
                ),
            );
        }
        Ok(Bgr4Frame { bgr4, width, height, stride })
    }

    /// Constructs a new frame from inputs that `try_new` accepts.
    pub fn new(bgr4: &'a [u8], width: u32, height: u32, stride: u32) -> (res: Self)
        requires
            bgr4_check(bgr4@.len() as int, width, height, stride) is Ok,
        ensures
            res@ == one_plane(width, height, bgr4@, stride),
    {
        Self::try_new(bgr4, width, height, stride).expect(
            "invalid Bgr4Frame dimensions or plane length",
        )
    }

    /// Packed BGR4 plane bytes; each byte holds two pixels.
    pub fn bgr4(&self) -> (r: &'a [u8])
        ensures
            r@ == self@.planes[0],
            bgr4_valid(self@),
    {
        proof {
            use_type_invariant(self);
        }
        self.bgr4
    }

    /// Frame width in pixels.
    pub fn width(&self) -> (r: u32)
        ensures
            r == self@.width,
            bgr4_valid(self@),
    {
        proof {
            use_type_invariant(self);
        }
        self.width
    }

    /// Frame height in pixels.
    pub fn height(&self) -> (r: u32)
        ensures
            r == self@.height,
            bgr4_valid(self@),
    {
        proof {
            use_type_invariant(self);
        }
        self.height
    }

    /// Byte stride (`>= width.div_ceil(2)`).
    pub fn stride(&self) -> (r: u32)
        ensures
            r == self@.strides[0],
            bgr4_valid(self@),
    {
        proof {
            use_type_invariant(self);
        }
        self.stride
    }
}

} // verus!
