//! Validated planar GBR(A) frames at high bit depth, one `u16` (or
//! `u32`) plane per channel in FFmpeg's G, B, R(, A) order:
//! `GbrpHighBitFrame` (9/10/12/14/16 bits, low-bit-packed),
//! `GbrapHighBitFrame` (10/12/14/16 bits, with alpha), `GbrpMsbFrame`
//! (10/12 bits, MSB-packed) and `Gbrap32Frame` (32-bit channels with
//! alpha). Strides are in elements; `BE` records the byte order.

use super::samples::{first_breaking_sample, low_bits_mask, msb_low_mask, SampleRule, ScanArea};
use super::{
    four_planes, outcome, overflow, plane_fits, plane_need, short_plane, short_stride, three_planes,
    FrameView, GeometryOverflow, InsufficientPlane, InsufficientStride, ZeroDimension,
};
use vstd::prelude::*;

verus! {

/// What `GbrpHighBitFrame::try_new` decides.
pub open spec fn gbrp_high_bit_check(
    g_len: int,
    b_len: int,
    r_len: int,
    width: u32,
    height: u32,
    g_stride: u32,
    b_stride: u32,
    r_stride: u32,
) -> Result<(), GbrpHighBitFrameError> {
    if width == 0 || height == 0 {
        Err(GbrpHighBitFrameError::ZeroDimension(ZeroDimension { width, height }))
    } else if g_stride < width {
        Err(GbrpHighBitFrameError::InsufficientGStride(short_stride(g_stride, width)))
    } else if b_stride < width {
        Err(GbrpHighBitFrameError::InsufficientBStride(short_stride(b_stride, width)))
    } else if r_stride < width {
        Err(GbrpHighBitFrameError::InsufficientRStride(short_stride(r_stride, width)))
    } else if !plane_fits(g_stride, height) {
        Err(GbrpHighBitFrameError::GeometryOverflow(overflow(g_stride, height)))
    } else if g_len < plane_need(g_stride, height) {
        Err(GbrpHighBitFrameError::InsufficientGPlane(short_plane(g_stride, height, g_len)))
    } else if !plane_fits(b_stride, height) {
        Err(GbrpHighBitFrameError::GeometryOverflow(overflow(b_stride, height)))
    } else if b_len < plane_need(b_stride, height) {
        Err(GbrpHighBitFrameError::InsufficientBPlane(short_plane(b_stride, height, b_len)))
    } else if !plane_fits(r_stride, height) {
        Err(GbrpHighBitFrameError::GeometryOverflow(overflow(r_stride, height)))
    } else if r_len < plane_need(r_stride, height) {
        Err(GbrpHighBitFrameError::InsufficientRPlane(short_plane(r_stride, height, r_len)))
    } else {
        Ok(())
    }
}

/// The inputs that `GbrpHighBitFrame::try_new` accepts, stated directly: non-zero
/// dimensions, each stride covering a row of its plane, each plane
/// holding its rows; a rejection reports the offending values.
pub proof fn lemma_gbrp_high_bit_accepts(
    g_len: int,
    b_len: int,
    r_len: int,
    width: u32,
    height: u32,
    g_stride: u32,
    b_stride: u32,
    r_stride: u32,
)
    ensures
        ({
            let check = gbrp_high_bit_check(
                g_len,
                b_len,
                r_len,
                width,
                height,
                g_stride,
                b_stride,
                r_stride,
            );
            &&& check is Ok <==> {
                &&& width > 0 && height > 0
                &&& g_stride >= width
                &&& b_stride >= width
                &&& r_stride >= width
                &&& g_stride * height <= usize::MAX
                &&& g_len >= g_stride * height
                &&& b_stride * height <= usize::MAX
                &&& b_len >= b_stride * height
                &&& r_stride * height <= usize::MAX
                &&& r_len >= r_stride * height
            }
            &&& check matches Err(GbrpHighBitFrameError::ZeroDimension(e)) ==> {
                &&& e.width == width
                &&& e.height == height
            }
            &&& check matches Err(GbrpHighBitFrameError::InsufficientGStride(e)) ==> {
                &&& e.stride == g_stride
                &&& e.min_stride == width
                &&& g_stride < width
            }
            &&& check matches Err(GbrpHighBitFrameError::InsufficientBStride(e)) ==> {
                &&& e.stride == b_stride
                &&& e.min_stride == width
                &&& b_stride < width
            }
            &&& check matches Err(GbrpHighBitFrameError::InsufficientRStride(e)) ==> {
                &&& e.stride == r_stride
                &&& e.min_stride == width
                &&& r_stride < width
            }
            &&& check matches Err(GbrpHighBitFrameError::InsufficientGPlane(e)) ==> {
                &&& e.expected == g_stride * height
                &&& g_len < g_stride * height
            }
            &&& check matches Err(GbrpHighBitFrameError::InsufficientBPlane(e)) ==> {
                &&& e.expected == b_stride * height
                &&& b_len < b_stride * height
            }
            &&& check matches Err(GbrpHighBitFrameError::InsufficientRPlane(e)) ==> {
                &&& e.expected == r_stride * height
                &&& r_len < r_stride * height
            }
        }),
{
}

/// A validated planar GBR frame with `BITS` (9, 10, 12, 14 or 16) active low
/// bits per `u16` sample (FFmpeg `gbrp9`..`gbrp16`, `le`/`be`).
#[derive(Debug, Clone, Copy)]
pub struct GbrpHighBitFrame<'a, const BITS: u32, const BE: bool> {
    g: &'a [u16],
    b: &'a [u16],
    r: &'a [u16],
    width: u32,
    height: u32,
    g_stride: u32,
    b_stride: u32,
    r_stride: u32,
}

impl<'a, const BITS: u32, const BE: bool> View for GbrpHighBitFrame<'a, BITS, BE> {
    type V = FrameView<u16>;

    closed spec fn view(&self) -> FrameView<u16> {
        three_planes(
            self.width,
            self.height,
            self.g@,
            self.b@,
            self.r@,
            self.g_stride,
            self.b_stride,
            self.r_stride,
        )
    }
}

/// `v` is the view of a `GbrpHighBitFrame` that `try_new` accepts: every frame
/// of the type has such a view.
pub open spec fn gbrp_high_bit_valid(v: FrameView<u16>) -> bool {
    &&& v.planes.len() == 3
    &&& v.strides.len() == 3
    &&& gbrp_high_bit_check(
        v.planes[0].len() as int,
        v.planes[1].len() as int,
        v.planes[2].len() as int,
        v.width,
        v.height,
        v.strides[0],
        v.strides[1],
        v.strides[2],
    ) is Ok
}

impl<'a, const BITS: u32, const BE: bool> GbrpHighBitFrame<'a, BITS, BE> {
    #[verifier::type_invariant]
    closed spec fn wf(&self) -> bool {
        gbrp_high_bit_check(
            self.g@.len() as int,
            self.b@.len() as int,
            self.r@.len() as int,
            self.width,
            self.height,
            self.g_stride,
            self.b_stride,
            self.r_stride,
        ) is Ok
    }

    /// Constructs a new frame, validating dimensions, strides and plane
    /// lengths; reports the first check that fails.
    pub fn try_new(
        g: &'a [u16],
        b: &'a [u16],
        r: &'a [u16],
        width: u32,
        height: u32,
        g_stride: u32,
        b_stride: u32,
        r_stride: u32,
    ) -> (res: Result<Self, GbrpHighBitFrameError>)
        requires
            BITS == 9 || BITS == 10 || BITS == 12 || BITS == 14 || BITS == 16,
        ensures
            outcome(res) == gbrp_high_bit_check(
                g@.len() as int,
                b@.len() as int,
                r@.len() as int,
                width,
                height,
                g_stride,
                b_stride,
                r_stride,
            ),
            res is Ok <==> ({
                &&& width > 0 && height > 0
                &&& g_stride >= width
                &&& b_stride >= width
                &&& r_stride >= width
                &&& g_stride * height <= usize::MAX
                &&& g@.len() >= g_stride * height
                &&& b_stride * height <= usize::MAX
                &&& b@.len() >= b_stride * height
                &&& r_stride * height <= usize::MAX
                &&& r@.len() >= r_stride * height
            }),
            res matches Ok(f) ==> f@ == three_planes(
                width,
                height,
                g@,
                b@,
                r@,
                g_stride,
                b_stride,
                r_stride,
            ),
    {
        proof {
            lemma_gbrp_high_bit_accepts(
                g@.len() as int,
                b@.len() as int,
                r@.len() as int,
                width,
                height,
                g_stride,
                b_stride,
                r_stride,
            );
        }
        if width == 0 || height == 0 {
            return Err(GbrpHighBitFrameError::ZeroDimension(ZeroDimension::new(width, height)));
        }
        if g_stride < width {
            return Err(
                GbrpHighBitFrameError::InsufficientGStride(
                    InsufficientStride::new(g_stride, width),
                ),
            );
        }
        if b_stride < width {
            return Err(
                GbrpHighBitFrameError::InsufficientBStride(
                    InsufficientStride::new(b_stride, width),
                ),
            );
        }
        if r_stride < width {
            return Err(
                GbrpHighBitFrameError::InsufficientRStride(
                    InsufficientStride::new(r_stride, width),
                ),
            );
        }
        let g_min = match (g_stride as usize).checked_mul(height as usize) {
            Some(v) => v,
            None => {
                return Err(
                    GbrpHighBitFrameError::GeometryOverflow(
                        GeometryOverflow::new(g_stride, height),
                    ),
                );
            },
        };
        if g.len() < g_min {
            return Err(
                GbrpHighBitFrameError::InsufficientGPlane(InsufficientPlane::new(g_min, g.len())),
            );
        }
        let b_min = match (b_stride as usize).checked_mul(height as usize) {
            Some(v) => v,
            None => {
                return Err(
                    GbrpHighBitFrameError::GeometryOverflow(
                        GeometryOverflow::new(b_stride, height),
                    ),
                );
            },
        };
        if b.len() < b_min {
            return Err(
                GbrpHighBitFrameError::InsufficientBPlane(InsufficientPlane::new(b_min, b.len())),
            );
        }
        let r_min = match (r_stride as usize).checked_mul(height as usize) {
            Some(v) => v,
            None => {
                return Err(
                    GbrpHighBitFrameError::GeometryOverflow(
                        GeometryOverflow::new(r_stride, height),
                    ),
                );
            },
        };
        if r.len() < r_min {
            return Err(
                GbrpHighBitFrameError::InsufficientRPlane(InsufficientPlane::new(r_min, r.len())),
            );
        }
        Ok(GbrpHighBitFrame { g, b, r, width, height, g_stride, b_stride, r_stride })
    }

    /// Constructs a new frame from inputs that `try_new` accepts.
    pub fn new(
        g: &'a [u16],
        b: &'a [u16],
        r: &'a [u16],
        width: u32,
        height: u32,
        g_stride: u32,
        b_stride: u32,
        r_stride: u32,
    ) -> (res: Self)
        requires
            BITS == 9 || BITS == 10 || BITS == 12 || BITS == 14 || BITS == 16,
            gbrp_high_bit_check(
                g@.len() as int,
                b@.len() as int,
                r@.len() as int,
                width,
                height,
                g_stride,
                b_stride,
                r_stride,
            ) is Ok,
        ensures
            res@ == three_planes(width, height, g@, b@, r@, g_stride, b_stride, r_stride),
    {
        Self::try_new(g, b, r, width, height, g_stride, b_stride, r_stride).expect(
            "invalid GbrpHighBitFrame dimensions or plane lengths",
        )
    }

    /// The G plane under its Y/U/V-order name (planes are walked as Y, U, V).
    pub fn y(&self) -> (r: &'a [u16])
        ensures
            r@ == self@.planes[0],
    {
        self.g
    }

    /// The B plane under its Y/U/V-order name.
    pub fn u(&self) -> (r: &'a [u16])
        ensures
            r@ == self@.planes[1],
    {
        self.b
    }

    /// The R plane under its Y/U/V-order name.
    pub fn v(&self) -> (r: &'a [u16])
        ensures
            r@ == self@.planes[2],
    {
        self.r
    }

    /// The G stride under its Y/U/V-order name.
    pub fn y_stride(&self) -> (r: u32)
        ensures
            r == self@.strides[0],
    {
        self.g_stride
    }

    /// The B stride under its Y/U/V-order name.
    pub fn u_stride(&self) -> (r: u32)
        ensures
            r == self@.strides[1],
    {
        self.b_stride
    }

    /// The R stride under its Y/U/V-order name.
    pub fn v_stride(&self) -> (r: u32)
        ensures
            r == self@.strides[2],
    {
        self.r_stride
    }

    /// Green plane. Row `r` starts at element `r * g_stride()`.
    pub fn g(&self) -> (r: &'a [u16])
        ensures
            r@ == self@.planes[0],
            gbrp_high_bit_valid(self@),
    {
        proof {
            use_type_invariant(self);
        }
        self.g
    }

    /// Blue plane. Row `r` starts at element `r * b_stride()`.
    pub fn b(&self) -> (r: &'a [u16])
        ensures
            r@ == self@.planes[1],
            gbrp_high_bit_valid(self@),
    {
        proof {
            use_type_invariant(self);
        }
        self.b
    }

    /// Red plane. Row `r` starts at element `r * r_stride()`.
    pub fn r(&self) -> (r: &'a [u16])
        ensures
            r@ == self@.planes[2],
            gbrp_high_bit_valid(self@),
    {
        proof {
            use_type_invariant(self);
        }
        self.r
    }

    /// Frame width in pixels.
    pub fn width(&self) -> (r: u32)
        ensures
            r == self@.width,
            gbrp_high_bit_valid(self@),
    {
        proof {
            use_type_invariant(self);
        }
        self.width
    }

    /// Frame height in pixels.
    pub fn height(&self) -> (r: u32)
        ensures
            r == self@.height,
            gbrp_high_bit_valid(self@),
    {
        proof {
            use_type_invariant(self);
        }
        self.height
    }

    /// Stride of the green plane in elements (`>= width`).
    pub fn g_stride(&self) -> (r: u32)
        ensures
            r == self@.strides[0],
            gbrp_high_bit_valid(self@),
    {
        proof {
            use_type_invariant(self);
        }
        self.g_stride
    }

    /// Stride of the blue plane in elements (`>= width`).
    pub fn b_stride(&self) -> (r: u32)
        ensures
            r == self@.strides[1],
            gbrp_high_bit_valid(self@),
    {
        proof {
            use_type_invariant(self);
        }
        self.b_stride
    }

    /// Stride of the red plane in elements (`>= width`).
    pub fn r_stride(&self) -> (r: u32)
        ensures
            r == self@.strides[2],
            gbrp_high_bit_valid(self@),
    {
        proof {
            use_type_invariant(self);
        }
        self.r_stride
    }

    /// The bit depth `BITS`.
    pub fn bits(&self) -> (r: u32)
        ensures
            r == BITS,
    {
        BITS
    }

    /// Whether the stored samples are big-endian (`BE`).
    pub fn is_be(&self) -> (r: bool)
        ensures
            r == BE,
    {
        BE
    }
}

/// Errors returned by `GbrpHighBitFrame::try_new`.
#[derive(Debug, Clone, Copy, PartialEq, Eq, Hash)]
#[non_exhaustive]
pub enum GbrpHighBitFrameError {
    /// `width` or `height` was zero.
    ZeroDimension(ZeroDimension),
    /// `g_stride < width`.
    InsufficientGStride(InsufficientStride),
    /// `b_stride < width`.
    InsufficientBStride(InsufficientStride),
    /// `r_stride < width`.
    InsufficientRStride(InsufficientStride),
    /// The G plane is shorter than `g_stride * height` elements.
    InsufficientGPlane(InsufficientPlane),
    /// The B plane is shorter than `b_stride * height` elements.
    InsufficientBPlane(InsufficientPlane),
    /// The R plane is shorter than `r_stride * height` elements.
    InsufficientRPlane(InsufficientPlane),
    /// `stride * height` overflows `usize`.
    GeometryOverflow(GeometryOverflow),
}

/// 9-bit `GbrpHighBitFrame`.
pub type Gbrp9Frame<'a, const BE: bool> = GbrpHighBitFrame<'a, 9, BE>;
/// Little-endian 9-bit `GbrpHighBitFrame`.
pub type Gbrp9LeFrame<'a> = GbrpHighBitFrame<'a, 9, false>;
/// Big-endian 9-bit `GbrpHighBitFrame`.
pub type Gbrp9BeFrame<'a> = GbrpHighBitFrame<'a, 9, true>;
/// 10-bit `GbrpHighBitFrame`.
pub type Gbrp10Frame<'a, const BE: bool> = GbrpHighBitFrame<'a, 10, BE>;
/// Little-endian 10-bit `GbrpHighBitFrame`.
pub type Gbrp10LeFrame<'a> = GbrpHighBitFrame<'a, 10, false>;
/// Big-endian 10-bit `GbrpHighBitFrame`.
pub type Gbrp10BeFrame<'a> = GbrpHighBitFrame<'a, 10, true>;
/// 12-bit `GbrpHighBitFrame`.
pub type Gbrp12Frame<'a, const BE: bool> = GbrpHighBitFrame<'a, 12, BE>;
/// Little-endian 12-bit `GbrpHighBitFrame`.
pub type Gbrp12LeFrame<'a> = GbrpHighBitFrame<'a, 12, false>;
/// Big-endian 12-bit `GbrpHighBitFrame`.
pub type Gbrp12BeFrame<'a> = GbrpHighBitFrame<'a, 12, true>;
/// 14-bit `GbrpHighBitFrame`.
pub type Gbrp14Frame<'a, const BE: bool> = GbrpHighBitFrame<'a, 14, BE>;
/// Little-endian 14-bit `GbrpHighBitFrame`.
pub type Gbrp14LeFrame<'a> = GbrpHighBitFrame<'a, 14, false>;
/// Big-endian 14-bit `GbrpHighBitFrame`.
pub type Gbrp14BeFrame<'a> = GbrpHighBitFrame<'a, 14, true>;
/// 16-bit `GbrpHighBitFrame`.
pub type Gbrp16Frame<'a, const BE: bool> = GbrpHighBitFrame<'a, 16, BE>;
/// Little-endian 16-bit `GbrpHighBitFrame`.
pub type Gbrp16LeFrame<'a> = GbrpHighBitFrame<'a, 16, false>;
/// Big-endian 16-bit `GbrpHighBitFrame`.
pub type Gbrp16BeFrame<'a> = GbrpHighBitFrame<'a, 16, true>;

/// What `GbrapHighBitFrame::try_new` decides.
pub open spec fn gbrap_high_bit_check(
    g_len: int,
    b_len: int,
    r_len: int,
    a_len: int,
    width: u32,
    height: u32,
    g_stride: u32,
    b_stride: u32,
    r_stride: u32,
    a_stride: u32,
) -> Result<(), GbrapHighBitFrameError> {
    if width == 0 || height == 0 {
        Err(GbrapHighBitFrameError::ZeroDimension(ZeroDimension { width, height }))
    } else if g_stride < width {
        Err(GbrapHighBitFrameError::InsufficientGStride(short_stride(g_stride, width)))
    } else if b_stride < width {
        Err(GbrapHighBitFrameError::InsufficientBStride(short_stride(b_stride, width)))
    } else if r_stride < width {
        Err(GbrapHighBitFrameError::InsufficientRStride(short_stride(r_stride, width)))
    } else if a_stride < width {
        Err(GbrapHighBitFrameError::InsufficientAStride(short_stride(a_stride, width)))
    } else if !plane_fits(g_stride, height) {
        Err(GbrapHighBitFrameError::GeometryOverflow(overflow(g_stride, height)))
    } else if g_len < plane_need(g_stride, height) {
        Err(GbrapHighBitFrameError::InsufficientGPlane(short_plane(g_stride, height, g_len)))
    } else if !plane_fits(b_stride, height) {
        Err(GbrapHighBitFrameError::GeometryOverflow(overflow(b_stride, height)))
    } else if b_len < plane_need(b_stride, height) {
        Err(GbrapHighBitFrameError::InsufficientBPlane(short_plane(b_stride, height, b_len)))
    } else if !plane_fits(r_stride, height) {
        Err(GbrapHighBitFrameError::GeometryOverflow(overflow(r_stride, height)))
    } else if r_len < plane_need(r_stride, height) {
        Err(GbrapHighBitFrameError::InsufficientRPlane(short_plane(r_stride, height, r_len)))
    } else if !plane_fits(a_stride, height) {
        Err(GbrapHighBitFrameError::GeometryOverflow(overflow(a_stride, height)))
    } else if a_len < plane_need(a_stride, height) {
        Err(GbrapHighBitFrameError::InsufficientAPlane(short_plane(a_stride, height, a_len)))
    } else {
        Ok(())
    }
}

/// The inputs that `GbrapHighBitFrame::try_new` accepts, stated directly: non-zero
/// dimensions, each stride covering a row of its plane, each plane
/// holding its rows; a rejection reports the offending values.
pub proof fn lemma_gbrap_high_bit_accepts(
    g_len: int,
    b_len: int,
    r_len: int,
    a_len: int,
    width: u32,
    height: u32,
    g_stride: u32,
    b_stride: u32,
    r_stride: u32,
    a_stride: u32,
)
    ensures
        ({
            let check = gbrap_high_bit_check(
                g_len,
                b_len,
                r_len,
                a_len,
                width,
                height,
                g_stride,
                b_stride,
                r_stride,
                a_stride,
            );
            &&& check is Ok <==> {
                &&& width > 0 && height > 0
                &&& g_stride >= width
                &&& b_stride >= width
                &&& r_stride >= width
                &&& a_stride >= width
                &&& g_stride * height <= usize::MAX
                &&& g_len >= g_stride * height
                &&& b_stride * height <= usize::MAX
                &&& b_len >= b_stride * height
                &&& r_stride * height <= usize::MAX
                &&& r_len >= r_stride * height
                &&& a_stride * height <= usize::MAX
                &&& a_len >= a_stride * height
            }
            &&& check matches Err(GbrapHighBitFrameError::ZeroDimension(e)) ==> {
                &&& e.width == width
                &&& e.height == height
            }
            &&& check matches Err(GbrapHighBitFrameError::InsufficientGStride(e)) ==> {
                &&& e.stride == g_stride
                &&& e.min_stride == width
                &&& g_stride < width
            }
            &&& check matches Err(GbrapHighBitFrameError::InsufficientBStride(e)) ==> {
                &&& e.stride == b_stride
                &&& e.min_stride == width
                &&& b_stride < width
            }
            &&& check matches Err(GbrapHighBitFrameError::InsufficientRStride(e)) ==> {
                &&& e.stride == r_stride
                &&& e.min_stride == width
                &&& r_stride < width
            }
            &&& check matches Err(GbrapHighBitFrameError::InsufficientAStride(e)) ==> {
                &&& e.stride == a_stride
                &&& e.min_stride == width
                &&& a_stride < width
            }
            &&& check matches Err(GbrapHighBitFrameError::InsufficientGPlane(e)) ==> {
                &&& e.expected == g_stride * height
                &&& g_len < g_stride * height
            }
            &&& check matches Err(GbrapHighBitFrameError::InsufficientBPlane(e)) ==> {
                &&& e.expected == b_stride * height
                &&& b_len < b_stride * height
            }
            &&& check matches Err(GbrapHighBitFrameError::InsufficientRPlane(e)) ==> {
                &&& e.expected == r_stride * height
                &&& r_len < r_stride * height
            }
            &&& check matches Err(GbrapHighBitFrameError::InsufficientAPlane(e)) ==> {
                &&& e.expected == a_stride * height
                &&& a_len < a_stride * height
            }
        }),
{
}

/// A validated planar GBRA frame with `BITS` (10, 12, 14 or 16) active low
/// bits per `u16` sample (FFmpeg `gbrap10`..`gbrap16`, `le`/`be`).
#[derive(Debug, Clone, Copy)]
pub struct GbrapHighBitFrame<'a, const BITS: u32, const BE: bool> {
    g: &'a [u16],
    b: &'a [u16],
    r: &'a [u16],
    a: &'a [u16],
    width: u32,
    height: u32,
    g_stride: u32,
    b_stride: u32,
    r_stride: u32,
    a_stride: u32,
}

impl<'a, const BITS: u32, const BE: bool> View for GbrapHighBitFrame<'a, BITS, BE> {
    type V = FrameView<u16>;

    closed spec fn view(&self) -> FrameView<u16> {
        four_planes(
            self.width,
            self.height,
            self.g@,
            self.b@,
            self.r@,
            self.a@,
            self.g_stride,
            self.b_stride,
            self.r_stride,
            self.a_stride,
        )
    }
}

/// `v` is the view of a `GbrapHighBitFrame` that `try_new` accepts: every frame
/// of the type has such a view.
pub open spec fn gbrap_high_bit_valid(v: FrameView<u16>) -> bool {
    &&& v.planes.len() == 4
    &&& v.strides.len() == 4
    &&& gbrap_high_bit_check(
        v.planes[0].len() as int,
        v.planes[1].len() as int,
        v.planes[2].len() as int,
        v.planes[3].len() as int,
        v.width,
        v.height,
        v.strides[0],
        v.strides[1],
        v.strides[2],
        v.strides[3],
    ) is Ok
}

impl<'a, const BITS: u32, const BE: bool> GbrapHighBitFrame<'a, BITS, BE> {
    #[verifier::type_invariant]
    closed spec fn wf(&self) -> bool {
        gbrap_high_bit_check(
            self.g@.len() as int,
            self.b@.len() as int,
            self.r@.len() as int,
            self.a@.len() as int,
            self.width,
            self.height,
            self.g_stride,
            self.b_stride,
            self.r_stride,
            self.a_stride,
        ) is Ok
    }

    /// Constructs a new frame, validating dimensions, strides and plane
    /// lengths; reports the first check that fails.
    pub fn try_new(
        g: &'a [u16],
        b: &'a [u16],
        r: &'a [u16],
        a: &'a [u16],
        width: u32,
        height: u32,
        g_stride: u32,
        b_stride: u32,
        r_stride: u32,
        a_stride: u32,
    ) -> (res: Result<Self, GbrapHighBitFrameError>)
        requires
            BITS == 10 || BITS == 12 || BITS == 14 || BITS == 16,
        ensures
            outcome(res) == gbrap_high_bit_check(
                g@.len() as int,
                b@.len() as int,
                r@.len() as int,
                a@.len() as int,
                width,
                height,
                g_stride,
                b_stride,
                r_stride,
                a_stride,
            ),
            res is Ok <==> ({
                &&& width > 0 && height > 0
                &&& g_stride >= width
                &&& b_stride >= width
                &&& r_stride >= width
                &&& a_stride >= width
                &&& g_stride * height <= usize::MAX
                &&& g@.len() >= g_stride * height
                &&& b_stride * height <= usize::MAX
                &&& b@.len() >= b_stride * height
                &&& r_stride * height <= usize::MAX
                &&& r@.len() >= r_stride * height
                &&& a_stride * height <= usize::MAX
                &&& a@.len() >= a_stride * height
            }),
            res matches Ok(f) ==> f@ == four_planes(
                width,
                height,
                g@,
                b@,
                r@,
                a@,
                g_stride,
                b_stride,
                r_stride,
                a_stride,
            ),
    {
        proof {
            lemma_gbrap_high_bit_accepts(
                g@.len() as int,
                b@.len() as int,
                r@.len() as int,
                a@.len() as int,
                width,
                height,
                g_stride,
                b_stride,
                r_stride,
                a_stride,
            );
        }
        if width == 0 || height == 0 {
            return Err(GbrapHighBitFrameError::ZeroDimension(ZeroDimension::new(width, height)));
        }
        if g_stride < width {
            return Err(
                GbrapHighBitFrameError::InsufficientGStride(
                    InsufficientStride::new(g_stride, width),
                ),
            );
        }
        if b_stride < width {
            return Err(
                GbrapHighBitFrameError::InsufficientBStride(
                    InsufficientStride::new(b_stride, width),
                ),
            );
        }
        if r_stride < width {
            return Err(
                GbrapHighBitFrameError::InsufficientRStride(
                    InsufficientStride::new(r_stride, width),
                ),
            );
        }
        if a_stride < width {
            return Err(
                GbrapHighBitFrameError::InsufficientAStride(
                    InsufficientStride::new(a_stride, width),
                ),
            );
        }
        let g_min = match (g_stride as usize).checked_mul(height as usize) {
            Some(v) => v,
            None => {
                return Err(
                    GbrapHighBitFrameError::GeometryOverflow(
                        GeometryOverflow::new(g_stride, height),
                    ),
                );
            },
        };
        if g.len() < g_min {
            return Err(
                GbrapHighBitFrameError::InsufficientGPlane(InsufficientPlane::new(g_min, g.len())),
            );
        }
        let b_min = match (b_stride as usize).checked_mul(height as usize) {
            Some(v) => v,
            None => {
                return Err(
                    GbrapHighBitFrameError::GeometryOverflow(
                        GeometryOverflow::new(b_stride, height),
                    ),
                );
            },
        };
        if b.len() < b_min {
            return Err(
                GbrapHighBitFrameError::InsufficientBPlane(InsufficientPlane::new(b_min, b.len())),
            );
        }
        let r_min = match (r_stride as usize).checked_mul(height as usize) {
            Some(v) => v,
            None => {
                return Err(
                    GbrapHighBitFrameError::GeometryOverflow(
                        GeometryOverflow::new(r_stride, height),
                    ),
                );
            },
        };
        if r.len() < r_min {
            return Err(
                GbrapHighBitFrameError::InsufficientRPlane(InsufficientPlane::new(r_min, r.len())),
            );
        }
        let a_min = match (a_stride as usize).checked_mul(height as usize) {
            Some(v) => v,
            None => {
                return Err(
                    GbrapHighBitFrameError::GeometryOverflow(
                        GeometryOverflow::new(a_stride, height),
                    ),
                );
            },
        };
        if a.len() < a_min {
            return Err(
                GbrapHighBitFrameError::InsufficientAPlane(InsufficientPlane::new(a_min, a.len())),
            );
        }
        Ok(GbrapHighBitFrame { g, b, r, a, width, height, g_stride, b_stride, r_stride, a_stride })
    }

    /// Constructs a new frame from inputs that `try_new` accepts.
    pub fn new(
        g: &'a [u16],
        b: &'a [u16],
        r: &'a [u16],
        a: &'a [u16],
        width: u32,
        height: u32,
        g_stride: u32,
        b_stride: u32,
        r_stride: u32,
        a_stride: u32,
    ) -> (res: Self)
        requires
            BITS == 10 || BITS == 12 || BITS == 14 || BITS == 16,
            gbrap_high_bit_check(
                g@.len() as int,
                b@.len() as int,
                r@.len() as int,
                a@.len() as int,
                width,
                height,
                g_stride,
                b_stride,
                r_stride,
                a_stride,
            ) is Ok,
        ensures
            res@ == four_planes(
                width,
                height,
                g@,
                b@,
                r@,
                a@,
                g_stride,
                b_stride,
                r_stride,
                a_stride,
            ),
    {
        Self::try_new(g, b, r, a, width, height, g_stride, b_stride, r_stride, a_stride).expect(
            "invalid GbrapHighBitFrame dimensions or plane lengths",
        )
    }

    /// The G plane under its Y/U/V-order name (planes are walked as Y, U, V).
    pub fn y(&self) -> (r: &'a [u16])
        ensures
            r@ == self@.planes[0],
    {
        self.g
    }

    /// The B plane under its Y/U/V-order name.
    pub fn u(&self) -> (r: &'a [u16])
        ensures
            r@ == self@.planes[1],
    {
        self.b
    }

    /// The R plane under its Y/U/V-order name.
    pub fn v(&self) -> (r: &'a [u16])
        ensures
            r@ == self@.planes[2],
    {
        self.r
    }

    /// The G stride under its Y/U/V-order name.
    pub fn y_stride(&self) -> (r: u32)
        ensures
            r == self@.strides[0],
    {
        self.g_stride
    }

    /// The B stride under its Y/U/V-order name.
    pub fn u_stride(&self) -> (r: u32)
        ensures
            r == self@.strides[1],
    {
        self.b_stride
    }

    /// The R stride under its Y/U/V-order name.
    pub fn v_stride(&self) -> (r: u32)
        ensures
            r == self@.strides[2],
    {
        self.r_stride
    }

    /// Green plane. Row `r` starts at element `r * g_stride()`.
    pub fn g(&self) -> (r: &'a [u16])
        ensures
            r@ == self@.planes[0],
            gbrap_high_bit_valid(self@),
    {
        proof {
            use_type_invariant(self);
        }
        self.g
    }

    /// Blue plane. Row `r` starts at element `r * b_stride()`.
    pub fn b(&self) -> (r: &'a [u16])
        ensures
            r@ == self@.planes[1],
            gbrap_high_bit_valid(self@),
    {
        proof {
            use_type_invariant(self);
        }
        self.b
    }

    /// Red plane. Row `r` starts at element `r * r_stride()`.
    pub fn r(&self) -> (r: &'a [u16])
        ensures
            r@ == self@.planes[2],
            gbrap_high_bit_valid(self@),
    {
        proof {
            use_type_invariant(self);
        }
        self.r
    }

    /// Alpha plane. Row `r` starts at element `r * a_stride()`.
    pub fn a(&self) -> (r: &'a [u16])
        ensures
            r@ == self@.planes[3],
            gbrap_high_bit_valid(self@),
    {
        proof {
            use_type_invariant(self);
        }
        self.a
    }

    /// Frame width in pixels.
    pub fn width(&self) -> (r: u32)
        ensures
            r == self@.width,
            gbrap_high_bit_valid(self@),
    {
        proof {
            use_type_invariant(self);
        }
        self.width
    }

    /// Frame height in pixels.
    pub fn height(&self) -> (r: u32)
        ensures
            r == self@.height,
            gbrap_high_bit_valid(self@),
    {
        proof {
            use_type_invariant(self);
        }
        self.height
    }

    /// Stride of the green plane in elements (`>= width`).
    pub fn g_stride(&self) -> (r: u32)
        ensures
            r == self@.strides[0],
            gbrap_high_bit_valid(self@),
    {
        proof {
            use_type_invariant(self);
        }
        self.g_stride
    }

    /// Stride of the blue plane in elements (`>= width`).
    pub fn b_stride(&self) -> (r: u32)
        ensures
            r == self@.strides[1],
            gbrap_high_bit_valid(self@),
    {
        proof {
            use_type_invariant(self);
        }
        self.b_stride
    }

    /// Stride of the red plane in elements (`>= width`).
    pub fn r_stride(&self) -> (r: u32)
        ensures
            r == self@.strides[2],
            gbrap_high_bit_valid(self@),
    {
        proof {
            use_type_invariant(self);
        }
        self.r_stride
    }

    /// Stride of the alpha plane in elements (`>= width`).
    pub fn a_stride(&self) -> (r: u32)
        ensures
            r == self@.strides[3],
            gbrap_high_bit_valid(self@),
    {
        proof {
            use_type_invariant(self);
        }
        self.a_stride
    }

    /// The bit depth `BITS`.
    pub fn bits(&self) -> (r: u32)
        ensures
            r == BITS,
    {
        BITS
    }

    /// Whether the stored samples are big-endian (`BE`).
    pub fn is_be(&self) -> (r: bool)
        ensures
            r == BE,
    {
        BE
    }
}

/// Errors returned by `GbrapHighBitFrame::try_new`.
#[derive(Debug, Clone, Copy, PartialEq, Eq, Hash)]
#[non_exhaustive]
pub enum GbrapHighBitFrameError {
    /// `width` or `height` was zero.
    ZeroDimension(ZeroDimension),
    /// `g_stride < width`.
    InsufficientGStride(InsufficientStride),
    /// `b_stride < width`.
    InsufficientBStride(InsufficientStride),
    /// `r_stride < width`.
    InsufficientRStride(InsufficientStride),
    /// `a_stride < width`.
    InsufficientAStride(InsufficientStride),
    /// The G plane is shorter than `g_stride * height` elements.
    InsufficientGPlane(InsufficientPlane),
    /// The B plane is shorter than `b_stride * height` elements.
    InsufficientBPlane(InsufficientPlane),
    /// The R plane is shorter than `r_stride * height` elements.
    InsufficientRPlane(InsufficientPlane),
    /// The A plane is shorter than `a_stride * height` elements.
    InsufficientAPlane(InsufficientPlane),
    /// `stride * height` overflows `usize`.
    GeometryOverflow(GeometryOverflow),
}

/// 10-bit `GbrapHighBitFrame`.
pub type Gbrap10Frame<'a, const BE: bool> = GbrapHighBitFrame<'a, 10, BE>;
/// Little-endian 10-bit `GbrapHighBitFrame`.
pub type Gbrap10LeFrame<'a> = GbrapHighBitFrame<'a, 10, false>;
/// Big-endian 10-bit `GbrapHighBitFrame`.
pub type Gbrap10BeFrame<'a> = GbrapHighBitFrame<'a, 10, true>;
/// 12-bit `GbrapHighBitFrame`.
pub type Gbrap12Frame<'a, const BE: bool> = GbrapHighBitFrame<'a, 12, BE>;
/// Little-endian 12-bit `GbrapHighBitFrame`.
pub type Gbrap12LeFrame<'a> = GbrapHighBitFrame<'a, 12, false>;
/// Big-endian 12-bit `GbrapHighBitFrame`.
pub type Gbrap12BeFrame<'a> = GbrapHighBitFrame<'a, 12, true>;
/// 14-bit `GbrapHighBitFrame`.
pub type Gbrap14Frame<'a, const BE: bool> = GbrapHighBitFrame<'a, 14, BE>;
/// Little-endian 14-bit `GbrapHighBitFrame`.
pub type Gbrap14LeFrame<'a> = GbrapHighBitFrame<'a, 14, false>;
/// Big-endian 14-bit `GbrapHighBitFrame`.
pub type Gbrap14BeFrame<'a> = GbrapHighBitFrame<'a, 14, true>;
/// 16-bit `GbrapHighBitFrame`.
pub type Gbrap16Frame<'a, const BE: bool> = GbrapHighBitFrame<'a, 16, BE>;
/// Little-endian 16-bit `GbrapHighBitFrame`.
pub type Gbrap16LeFrame<'a> = GbrapHighBitFrame<'a, 16, false>;
/// Big-endian 16-bit `GbrapHighBitFrame`.
pub type Gbrap16BeFrame<'a> = GbrapHighBitFrame<'a, 16, true>;

/// The active areas of a GBRP MSB frame's planes, in scan order G, B, R.
pub open spec fn gbrp_msb_area(
    g: Seq<u16>,
    b: Seq<u16>,
    r: Seq<u16>,
    width: u32,
    height: u32,
    g_stride: u32,
    b_stride: u32,
    r_stride: u32,
) -> ScanArea {
    ScanArea {
        planes: seq![g, b, r],
        strides: seq![g_stride, b_stride, r_stride],
        widths: seq![width, width, width],
        rows: seq![height, height, height],
    }
}

/// The index of a GBRP plane in scan order.
pub open spec fn gbrp_msb_plane_index(p: GbrpMsbFramePlane) -> int {
    match p {
        GbrpMsbFramePlane::G => 0,
        GbrpMsbFramePlane::B => 1,
        GbrpMsbFramePlane::R => 2,
    }
}

/// `e` reports the first active sample, scanning G, B then R row by row,
/// with a bit of `low_mask` set.
pub open spec fn gbrp_msb_stray(
    area: ScanArea,
    be: bool,
    low_mask: u16,
    e: GbrpMsbFrameError,
) -> bool {
    match e {
        GbrpMsbFrameError::StrayLowBits(p) => area.first_break_in(
            be,
            SampleRule::ClearBits(low_mask),
            gbrp_msb_plane_index(p.plane),
            p.index,
            p.value,
        ),
        _ => false,
    }
}

/// What `GbrpMsbFrame::try_new` decides.
pub open spec fn gbrp_msb_check(
    g_len: int,
    b_len: int,
    r_len: int,
    width: u32,
    height: u32,
    g_stride: u32,
    b_stride: u32,
    r_stride: u32,
) -> Result<(), GbrpMsbFrameError> {
    if width == 0 || height == 0 {
        Err(GbrpMsbFrameError::ZeroDimension(ZeroDimension { width, height }))
    } else if g_stride < width {
        Err(GbrpMsbFrameError::InsufficientGStride(short_stride(g_stride, width)))
    } else if b_stride < width {
        Err(GbrpMsbFrameError::InsufficientBStride(short_stride(b_stride, width)))
    } else if r_stride < width {
        Err(GbrpMsbFrameError::InsufficientRStride(short_stride(r_stride, width)))
    } else if !plane_fits(g_stride, height) {
        Err(GbrpMsbFrameError::GeometryOverflow(overflow(g_stride, height)))
    } else if g_len < plane_need(g_stride, height) {
        Err(GbrpMsbFrameError::InsufficientGPlane(short_plane(g_stride, height, g_len)))
    } else if !plane_fits(b_stride, height) {
        Err(GbrpMsbFrameError::GeometryOverflow(overflow(b_stride, height)))
    } else if b_len < plane_need(b_stride, height) {
        Err(GbrpMsbFrameError::InsufficientBPlane(short_plane(b_stride, height, b_len)))
    } else if !plane_fits(r_stride, height) {
        Err(GbrpMsbFrameError::GeometryOverflow(overflow(r_stride, height)))
    } else if r_len < plane_need(r_stride, height) {
        Err(GbrpMsbFrameError::InsufficientRPlane(short_plane(r_stride, height, r_len)))
    } else {
        Ok(())
    }
}

/// The inputs that `GbrpMsbFrame::try_new` accepts, stated directly: non-zero
/// dimensions, each stride covering a row of its plane, each plane
/// holding its rows; a rejection reports the offending values.
pub proof fn lemma_gbrp_msb_accepts(
    g_len: int,
    b_len: int,
    r_len: int,
    width: u32,
    height: u32,
    g_stride: u32,
    b_stride: u32,
    r_stride: u32,
)
    ensures
        ({
            let check = gbrp_msb_check(
                g_len,
                b_len,
                r_len,
                width,
                height,
                g_stride,
                b_stride,
                r_stride,
            );
            &&& check is Ok <==> {
                &&& width > 0 && height > 0
                &&& g_stride >= width
                &&& b_stride >= width
                &&& r_stride >= width
                &&& g_stride * height <= usize::MAX
                &&& g_len >= g_stride * height
                &&& b_stride * height <= usize::MAX
                &&& b_len >= b_stride * height
                &&& r_stride * height <= usize::MAX
                &&& r_len >= r_stride * height
            }
            &&& check matches Err(GbrpMsbFrameError::ZeroDimension(e)) ==> {
                &&& e.width == width
                &&& e.height == height
            }
            &&& check matches Err(GbrpMsbFrameError::InsufficientGStride(e)) ==> {
                &&& e.stride == g_stride
                &&& e.min_stride == width
                &&& g_stride < width
            }
            &&& check matches Err(GbrpMsbFrameError::InsufficientBStride(e)) ==> {
                &&& e.stride == b_stride
                &&& e.min_stride == width
                &&& b_stride < width
            }
            &&& check matches Err(GbrpMsbFrameError::InsufficientRStride(e)) ==> {
                &&& e.stride == r_stride
                &&& e.min_stride == width
                &&& r_stride < width
            }
            &&& check matches Err(GbrpMsbFrameError::InsufficientGPlane(e)) ==> {
                &&& e.expected == g_stride * height
                &&& g_len < g_stride * height
            }
            &&& check matches Err(GbrpMsbFrameError::InsufficientBPlane(e)) ==> {
                &&& e.expected == b_stride * height
                &&& b_len < b_stride * height
            }
            &&& check matches Err(GbrpMsbFrameError::InsufficientRPlane(e)) ==> {
                &&& e.expected == r_stride * height
                &&& r_len < r_stride * height
            }
        }),
{
}

/// A validated planar GBR frame with `BITS` (10 or 12) significant bits in
/// the high end of each `u16` sample (FFmpeg `gbrp10msb`, `gbrp12msb`); the
/// low `16 - BITS` bits of a valid sample are zero.
#[derive(Debug, Clone, Copy)]
pub struct GbrpMsbFrame<'a, const BITS: u32, const BE: bool> {
    g: &'a [u16],
    b: &'a [u16],
    r: &'a [u16],
    width: u32,
    height: u32,
    g_stride: u32,
    b_stride: u32,
    r_stride: u32,
}

impl<'a, const BITS: u32, const BE: bool> View for GbrpMsbFrame<'a, BITS, BE> {
    type V = FrameView<u16>;

    closed spec fn view(&self) -> FrameView<u16> {
        three_planes(
            self.width,
            self.height,
            self.g@,
            self.b@,
            self.r@,
            self.g_stride,
            self.b_stride,
            self.r_stride,
        )
    }
}

/// `v` is the view of a `GbrpMsbFrame` that `try_new` accepts: every frame
/// of the type has such a view.
pub open spec fn gbrp_msb_valid(v: FrameView<u16>) -> bool {
    &&& v.planes.len() == 3
    &&& v.strides.len() == 3
    &&& gbrp_msb_check(
        v.planes[0].len() as int,
        v.planes[1].len() as int,
        v.planes[2].len() as int,
        v.width,
        v.height,
        v.strides[0],
        v.strides[1],
        v.strides[2],
    ) is Ok
}

impl<'a, const BITS: u32, const BE: bool> GbrpMsbFrame<'a, BITS, BE> {
    #[verifier::type_invariant]
    closed spec fn wf(&self) -> bool {
        gbrp_msb_check(
            self.g@.len() as int,
            self.b@.len() as int,
            self.r@.len() as int,
            self.width,
            self.height,
            self.g_stride,
            self.b_stride,
            self.r_stride,
        ) is Ok
    }

    /// Constructs a new frame, validating dimensions, strides and plane
    /// lengths; reports the first check that fails.
    pub fn try_new(
        g: &'a [u16],
        b: &'a [u16],
        r: &'a [u16],
        width: u32,
        height: u32,
        g_stride: u32,
        b_stride: u32,
        r_stride: u32,
    ) -> (res: Result<Self, GbrpMsbFrameError>)
        requires
            BITS == 10 || BITS == 12,
        ensures
            outcome(res) == gbrp_msb_check(
                g@.len() as int,
                b@.len() as int,
                r@.len() as int,
                width,
                height,
                g_stride,
                b_stride,
                r_stride,
            ),
            res is Ok <==> ({
                &&& width > 0 && height > 0
                &&& g_stride >= width
                &&& b_stride >= width
                &&& r_stride >= width
                &&& g_stride * height <= usize::MAX
                &&& g@.len() >= g_stride * height
                &&& b_stride * height <= usize::MAX
                &&& b@.len() >= b_stride * height
                &&& r_stride * height <= usize::MAX
                &&& r@.len() >= r_stride * height
            }),
            res matches Ok(f) ==> f@ == three_planes(
                width,
                height,
                g@,
                b@,
                r@,
                g_stride,
                b_stride,
                r_stride,
            ),
    {
        proof {
            lemma_gbrp_msb_accepts(
                g@.len() as int,
                b@.len() as int,
                r@.len() as int,
                width,
                height,
                g_stride,
                b_stride,
                r_stride,
            );
        }
        if width == 0 || height == 0 {
            return Err(GbrpMsbFrameError::ZeroDimension(ZeroDimension::new(width, height)));
        }
        if g_stride < width {
            return Err(
                GbrpMsbFrameError::InsufficientGStride(InsufficientStride::new(g_stride, width)),
            );
        }
        if b_stride < width {
            return Err(
                GbrpMsbFrameError::InsufficientBStride(InsufficientStride::new(b_stride, width)),
            );
        }
        if r_stride < width {
            return Err(
                GbrpMsbFrameError::InsufficientRStride(InsufficientStride::new(r_stride, width)),
            );
        }
        let g_min = match (g_stride as usize).checked_mul(height as usize) {
            Some(v) => v,
            None => {
                return Err(
                    GbrpMsbFrameError::GeometryOverflow(GeometryOverflow::new(g_stride, height)),
                );
            },
        };
        if g.len() < g_min {
            return Err(
                GbrpMsbFrameError::InsufficientGPlane(InsufficientPlane::new(g_min, g.len())),
            );
        }
        let b_min = match (b_stride as usize).checked_mul(height as usize) {
            Some(v) => v,
            None => {
                return Err(
                    GbrpMsbFrameError::GeometryOverflow(GeometryOverflow::new(b_stride, height)),
                );
            },
        };
        if b.len() < b_min {
            return Err(
                GbrpMsbFrameError::InsufficientBPlane(InsufficientPlane::new(b_min, b.len())),
            );
        }
        let r_min = match (r_stride as usize).checked_mul(height as usize) {
            Some(v) => v,
            None => {
                return Err(
                    GbrpMsbFrameError::GeometryOverflow(GeometryOverflow::new(r_stride, height)),
                );
            },
        };
        if r.len() < r_min {
            return Err(
                GbrpMsbFrameError::InsufficientRPlane(InsufficientPlane::new(r_min, r.len())),
            );
        }
        Ok(GbrpMsbFrame { g, b, r, width, height, g_stride, b_stride, r_stride })
    }

    /// Constructs a new frame from inputs that `try_new` accepts.
    pub fn new(
        g: &'a [u16],
        b: &'a [u16],
        r: &'a [u16],
        width: u32,
        height: u32,
        g_stride: u32,
        b_stride: u32,
        r_stride: u32,
    ) -> (res: Self)
        requires
            BITS == 10 || BITS == 12,
            gbrp_msb_check(
                g@.len() as int,
                b@.len() as int,
                r@.len() as int,
                width,
                height,
                g_stride,
                b_stride,
                r_stride,
            ) is Ok,
        ensures
            res@ == three_planes(width, height, g@, b@, r@, g_stride, b_stride, r_stride),
    {
        Self::try_new(g, b, r, width, height, g_stride, b_stride, r_stride).expect(
            "invalid GbrpMsbFrame dimensions or plane lengths",
        )
    }

    /// Like `try_new`, and also checks that every active sample of the G,
    /// B and R planes (scanned in that order, row by row) has its low
    /// `16 - BITS` bits clear, as an MSB-packed sample must.
    #[verifier::rlimit(20)]
    pub fn try_new_checked(
        g: &'a [u16],
        b: &'a [u16],
        r: &'a [u16],
        width: u32,
        height: u32,
        g_stride: u32,
        b_stride: u32,
        r_stride: u32,
    ) -> (res: Result<Self, GbrpMsbFrameError>)
        requires
            BITS == 10 || BITS == 12,
        ensures
            ({
                let check = gbrp_msb_check(
                    g@.len() as int,
                    b@.len() as int,
                    r@.len() as int,
                    width,
                    height,
                    g_stride,
                    b_stride,
                    r_stride,
                );
                let area = gbrp_msb_area(g@, b@, r@, width, height, g_stride, b_stride, r_stride);
                let view = three_planes(width, height, g@, b@, r@, g_stride, b_stride, r_stride);
                &&& check is Err ==> outcome(res) == check
                &&& check is Ok ==> match res {
                    Ok(f) => {
                        &&& area.keeps(BE, SampleRule::ClearBits(msb_low_mask(BITS)), 3)
                        &&& f@ == view
                    },
                    Err(e) => gbrp_msb_stray(area, BE, msb_low_mask(BITS), e),
                }
            }),
    {
        let frame = match Self::try_new(g, b, r, width, height, g_stride, b_stride, r_stride) {
            Ok(f) => f,
            Err(e) => {
                return Err(e);
            },
        };
        let low_mask = low_bits_mask(BITS);
        let rule = SampleRule::ClearBits(low_mask);
        let ghost area = gbrp_msb_area(g@, b@, r@, width, height, g_stride, b_stride, r_stride);
        if let Some((index, value)) = first_breaking_sample(g, g_stride, width, height, BE, rule) {
            return Err(
                GbrpMsbFrameError::StrayLowBits(
                    GbrpMsbStrayLowBits::new(GbrpMsbFramePlane::G, index, value),
                ),
            );
        }
        assert(area.keeps(BE, rule, 1));
        if let Some((index, value)) = first_breaking_sample(b, b_stride, width, height, BE, rule) {
            return Err(
                GbrpMsbFrameError::StrayLowBits(
                    GbrpMsbStrayLowBits::new(GbrpMsbFramePlane::B, index, value),
                ),
            );
        }
        assert(area.keeps(BE, rule, 2));
        if let Some((index, value)) = first_breaking_sample(r, r_stride, width, height, BE, rule) {
            return Err(
                GbrpMsbFrameError::StrayLowBits(
                    GbrpMsbStrayLowBits::new(GbrpMsbFramePlane::R, index, value),
                ),
            );
        }
        assert(area.keeps(BE, rule, 3));
        Ok(frame)
    }

    /// The G plane under its Y/U/V-order name (planes are walked as Y, U, V).
    pub fn y(&self) -> (r: &'a [u16])
        ensures
            r@ == self@.planes[0],
    {
        self.g
    }

    /// The B plane under its Y/U/V-order name.
    pub fn u(&self) -> (r: &'a [u16])
        ensures
            r@ == self@.planes[1],
    {
        self.b
    }

    /// The R plane under its Y/U/V-order name.
    pub fn v(&self) -> (r: &'a [u16])
        ensures
            r@ == self@.planes[2],
    {
        self.r
    }

    /// The G stride under its Y/U/V-order name.
    pub fn y_stride(&self) -> (r: u32)
        ensures
            r == self@.strides[0],
    {
        self.g_stride
    }

    /// The B stride under its Y/U/V-order name.
    pub fn u_stride(&self) -> (r: u32)
        ensures
            r == self@.strides[1],
    {
        self.b_stride
    }

    /// The R stride under its Y/U/V-order name.
    pub fn v_stride(&self) -> (r: u32)
        ensures
            r == self@.strides[2],
    {
        self.r_stride
    }

    /// Green plane. Row `r` starts at element `r * g_stride()`.
    pub fn g(&self) -> (r: &'a [u16])
        ensures
            r@ == self@.planes[0],
            gbrp_msb_valid(self@),
    {
        proof {
            use_type_invariant(self);
        }
        self.g
    }

    /// Blue plane. Row `r` starts at element `r * b_stride()`.
    pub fn b(&self) -> (r: &'a [u16])
        ensures
            r@ == self@.planes[1],
            gbrp_msb_valid(self@),
    {
        proof {
            use_type_invariant(self);
        }
        self.b
    }

    /// Red plane. Row `r` starts at element `r * r_stride()`.
    pub fn r(&self) -> (r: &'a [u16])
        ensures
            r@ == self@.planes[2],
            gbrp_msb_valid(self@),
    {
        proof {
            use_type_invariant(self);
        }
        self.r
    }

    /// Frame width in pixels.
    pub fn width(&self) -> (r: u32)
        ensures
            r == self@.width,
            gbrp_msb_valid(self@),
    {
        proof {
            use_type_invariant(self);
        }
        self.width
    }

    /// Frame height in pixels.
    pub fn height(&self) -> (r: u32)
        ensures
            r == self@.height,
            gbrp_msb_valid(self@),
    {
        proof {
            use_type_invariant(self);
        }
        self.height
    }

    /// Stride of the green plane in elements (`>= width`).
    pub fn g_stride(&self) -> (r: u32)
        ensures
            r == self@.strides[0],
            gbrp_msb_valid(self@),
    {
        proof {
            use_type_invariant(self);
        }
        self.g_stride
    }

    /// Stride of the blue plane in elements (`>= width`).
    pub fn b_stride(&self) -> (r: u32)
        ensures
            r == self@.strides[1],
            gbrp_msb_valid(self@),
    {
        proof {
            use_type_invariant(self);
        }
        self.b_stride
    }

    /// Stride of the red plane in elements (`>= width`).
    pub fn r_stride(&self) -> (r: u32)
        ensures
            r == self@.strides[2],
            gbrp_msb_valid(self@),
    {
        proof {
            use_type_invariant(self);
        }
        self.r_stride
    }

    /// The bit depth `BITS`.
    pub fn bits(&self) -> (r: u32)
        ensures
            r == BITS,
    {
        BITS
    }

    /// Whether the stored samples are big-endian (`BE`).
    pub fn is_be(&self) -> (r: bool)
        ensures
            r == BE,
    {
        BE
    }
}

/// The plane of a GBRP MSB frame that holds an offending sample.
#[derive(Debug, Clone, Copy, PartialEq, Eq, Hash)]
pub enum GbrpMsbFramePlane {
    G,
    B,
    R,
}

impl GbrpMsbFramePlane {
    /// The plane's name, as the frame's error messages print it.
    pub fn as_str(&self) -> (r: &'static str)
        ensures
            r@ == (match self {
                GbrpMsbFramePlane::G => "G"@,
                GbrpMsbFramePlane::B => "B"@,
                GbrpMsbFramePlane::R => "R"@,
            }),
    {
        match self {
            GbrpMsbFramePlane::G => "G",
            GbrpMsbFramePlane::B => "B",
            GbrpMsbFramePlane::R => "R",
        }
    }
}

/// An active GBRP MSB sample with a low bit set: its plane, its element
/// index in that plane, and its value in the frame's byte order.
#[derive(Debug, Clone, Copy, PartialEq, Eq, Hash)]
pub struct GbrpMsbStrayLowBits {
    pub plane: GbrpMsbFramePlane,
    pub index: usize,
    pub value: u16,
}

impl GbrpMsbStrayLowBits {
    pub fn new(plane: GbrpMsbFramePlane, index: usize, value: u16) -> (r: Self)
        ensures
            r == (GbrpMsbStrayLowBits { plane, index, value }),
    {
        GbrpMsbStrayLowBits { plane, index, value }
    }

    pub fn plane(&self) -> (r: GbrpMsbFramePlane)
        ensures
            r == self.plane,
    {
        self.plane
    }

    pub fn index(&self) -> (r: usize)
        ensures
            r == self.index,
    {
        self.index
    }

    pub fn value(&self) -> (r: u16)
        ensures
            r == self.value,
    {
        self.value
    }
}

/// Errors returned by `GbrpMsbFrame::try_new`.
#[derive(Debug, Clone, Copy, PartialEq, Eq, Hash)]
#[non_exhaustive]
pub enum GbrpMsbFrameError {
    /// `width` or `height` was zero.
    ZeroDimension(ZeroDimension),
    /// `g_stride < width`.
    InsufficientGStride(InsufficientStride),
    /// `b_stride < width`.
    InsufficientBStride(InsufficientStride),
    /// `r_stride < width`.
    InsufficientRStride(InsufficientStride),
    /// The G plane is shorter than `g_stride * height` elements.
    InsufficientGPlane(InsufficientPlane),
    /// The B plane is shorter than `b_stride * height` elements.
    InsufficientBPlane(InsufficientPlane),
    /// The R plane is shorter than `r_stride * height` elements.
    InsufficientRPlane(InsufficientPlane),
    /// `stride * height` overflows `usize`.
    GeometryOverflow(GeometryOverflow),
    /// An active sample has one of its low `16 - BITS` bits set (`try_new_checked` only).
    StrayLowBits(GbrpMsbStrayLowBits),
}

/// 10-bit MSB-packed GBRP.
pub type Gbrp10MsbFrame<'a, const BE: bool> = GbrpMsbFrame<'a, 10, BE>;
/// `AV_PIX_FMT_GBRP10MSBLE`.
pub type Gbrp10MsbLeFrame<'a> = GbrpMsbFrame<'a, 10, false>;
/// `AV_PIX_FMT_GBRP10MSBBE`.
pub type Gbrp10MsbBeFrame<'a> = GbrpMsbFrame<'a, 10, true>;
/// 12-bit MSB-packed GBRP.
pub type Gbrp12MsbFrame<'a, const BE: bool> = GbrpMsbFrame<'a, 12, BE>;
/// `AV_PIX_FMT_GBRP12MSBLE`.
pub type Gbrp12MsbLeFrame<'a> = GbrpMsbFrame<'a, 12, false>;
/// `AV_PIX_FMT_GBRP12MSBBE`.
pub type Gbrp12MsbBeFrame<'a> = GbrpMsbFrame<'a, 12, true>;

/// What `Gbrap32Frame::try_new` decides.
pub open spec fn gbrap32_check(
    g_len: int,
    b_len: int,
    r_len: int,
    a_len: int,
    width: u32,
    height: u32,
    g_stride: u32,
    b_stride: u32,
    r_stride: u32,
    a_stride: u32,
) -> Result<(), Gbrap32FrameError> {
    if width == 0 || height == 0 {
        Err(Gbrap32FrameError::ZeroDimension(ZeroDimension { width, height }))
    } else if g_stride < width {
        Err(Gbrap32FrameError::InsufficientGStride(short_stride(g_stride, width)))
    } else if b_stride < width {
        Err(Gbrap32FrameError::InsufficientBStride(short_stride(b_stride, width)))
    } else if r_stride < width {
        Err(Gbrap32FrameError::InsufficientRStride(short_stride(r_stride, width)))
    } else if a_stride < width {
        Err(Gbrap32FrameError::InsufficientAStride(short_stride(a_stride, width)))
    } else if !plane_fits(g_stride, height) {
        Err(Gbrap32FrameError::GeometryOverflow(overflow(g_stride, height)))
    } else if g_len < plane_need(g_stride, height) {
        Err(Gbrap32FrameError::InsufficientGPlane(short_plane(g_stride, height, g_len)))
    } else if !plane_fits(b_stride, height) {
        Err(Gbrap32FrameError::GeometryOverflow(overflow(b_stride, height)))
    } else if b_len < plane_need(b_stride, height) {
        Err(Gbrap32FrameError::InsufficientBPlane(short_plane(b_stride, height, b_len)))
    } else if !plane_fits(r_stride, height) {
        Err(Gbrap32FrameError::GeometryOverflow(overflow(r_stride, height)))
    } else if r_len < plane_need(r_stride, height) {
        Err(Gbrap32FrameError::InsufficientRPlane(short_plane(r_stride, height, r_len)))
    } else if !plane_fits(a_stride, height) {
        Err(Gbrap32FrameError::GeometryOverflow(overflow(a_stride, height)))
    } else if a_len < plane_need(a_stride, height) {
        Err(Gbrap32FrameError::InsufficientAPlane(short_plane(a_stride, height, a_len)))
    } else {
        Ok(())
    }
}

/// The inputs that `Gbrap32Frame::try_new` accepts, stated directly: non-zero
/// dimensions, each stride covering a row of its plane, each plane
/// holding its rows; a rejection reports the offending values.
pub proof fn lemma_gbrap32_accepts(
    g_len: int,
    b_len: int,
    r_len: int,
    a_len: int,
    width: u32,
    height: u32,
    g_stride: u32,
    b_stride: u32,
    r_stride: u32,
    a_stride: u32,
)
    ensures
        ({
            let check = gbrap32_check(
                g_len,
                b_len,
                r_len,
                a_len,
                width,
                height,
                g_stride,
                b_stride,
                r_stride,
                a_stride,
            );
            &&& check is Ok <==> {
                &&& width > 0 && height > 0
                &&& g_stride >= width
                &&& b_stride >= width
                &&& r_stride >= width
                &&& a_stride >= width
                &&& g_stride * height <= usize::MAX
                &&& g_len >= g_stride * height
                &&& b_stride * height <= usize::MAX
                &&& b_len >= b_stride * height
                &&& r_stride * height <= usize::MAX
                &&& r_len >= r_stride * height
                &&& a_stride * height <= usize::MAX
                &&& a_len >= a_stride * height
            }
            &&& check matches Err(Gbrap32FrameError::ZeroDimension(e)) ==> {
                &&& e.width == width
                &&& e.height == height
            }
            &&& check matches Err(Gbrap32FrameError::InsufficientGStride(e)) ==> {
                &&& e.stride == g_stride
                &&& e.min_stride == width
                &&& g_stride < width
            }
            &&& check matches Err(Gbrap32FrameError::InsufficientBStride(e)) ==> {
                &&& e.stride == b_stride
                &&& e.min_stride == width
                &&& b_stride < width
            }
            &&& check matches Err(Gbrap32FrameError::InsufficientRStride(e)) ==> {
                &&& e.stride == r_stride
                &&& e.min_stride == width
                &&& r_stride < width
            }
            &&& check matches Err(Gbrap32FrameError::InsufficientAStride(e)) ==> {
                &&& e.stride == a_stride
                &&& e.min_stride == width
                &&& a_stride < width
            }
            &&& check matches Err(Gbrap32FrameError::InsufficientGPlane(e)) ==> {
                &&& e.expected == g_stride * height
                &&& g_len < g_stride * height
            }
            &&& check matches Err(Gbrap32FrameError::InsufficientBPlane(e)) ==> {
                &&& e.expected == b_stride * height
                &&& b_len < b_stride * height
            }
            &&& check matches Err(Gbrap32FrameError::InsufficientRPlane(e)) ==> {
                &&& e.expected == r_stride * height
                &&& r_len < r_stride * height
            }
            &&& check matches Err(Gbrap32FrameError::InsufficientAPlane(e)) ==> {
                &&& e.expected == a_stride * height
                &&& a_len < a_stride * height
            }
        }),
{
}

/// A validated planar GBRA frame with 32-bit unsigned channels, one `u32`
/// plane per channel.
#[derive(Debug, Clone, Copy)]
pub struct Gbrap32Frame<'a, const BE: bool> {
    g: &'a [u32],
    b: &'a [u32],
    r: &'a [u32],
    a: &'a [u32],
    width: u32,
    height: u32,
    g_stride: u32,
    b_stride: u32,
    r_stride: u32,
    a_stride: u32,
}

/// Little-endian `Gbrap32Frame`.
pub type Gbrap32LeFrame<'a> = Gbrap32Frame<'a, false>;
/// Big-endian `Gbrap32Frame`.
pub type Gbrap32BeFrame<'a> = Gbrap32Frame<'a, true>;

impl<'a, const BE: bool> View for Gbrap32Frame<'a, BE> {
    type V = FrameView<u32>;

    closed spec fn view(&self) -> FrameView<u32> {
        four_planes(
            self.width,
            self.height,
            self.g@,
            self.b@,
            self.r@,
            self.a@,
            self.g_stride,
            self.b_stride,
            self.r_stride,
            self.a_stride,
        )
    }
}

/// `v` is the view of a `Gbrap32Frame` that `try_new` accepts: every frame
/// of the type has such a view.
pub open spec fn gbrap32_valid(v: FrameView<u32>) -> bool {
    &&& v.planes.len() == 4
    &&& v.strides.len() == 4
    &&& gbrap32_check(
        v.planes[0].len() as int,
        v.planes[1].len() as int,
        v.planes[2].len() as int,
        v.planes[3].len() as int,
        v.width,
        v.height,
        v.strides[0],
        v.strides[1],
        v.strides[2],
        v.strides[3],
    ) is Ok
}

impl<'a, const BE: bool> Gbrap32Frame<'a, BE> {
    #[verifier::type_invariant]
    closed spec fn wf(&self) -> bool {
        gbrap32_check(
            self.g@.len() as int,
            self.b@.len() as int,
            self.r@.len() as int,
            self.a@.len() as int,
            self.width,
            self.height,
            self.g_stride,
            self.b_stride,
            self.r_stride,
            self.a_stride,
        ) is Ok
    }

    /// Constructs a new frame, validating dimensions, strides and plane
    /// lengths; reports the first check that fails.
    pub fn try_new(
        g: &'a [u32],
        b: &'a [u32],
        r: &'a [u32],
        a: &'a [u32],
        width: u32,
        height: u32,
        g_stride: u32,
        b_stride: u32,
        r_stride: u32,
        a_stride: u32,
    ) -> (res: Result<Self, Gbrap32FrameError>)
        ensures
            outcome(res) == gbrap32_check(
                g@.len() as int,
                b@.len() as int,
                r@.len() as int,
                a@.len() as int,
                width,
                height,
                g_stride,
                b_stride,
                r_stride,
                a_stride,
            ),
            res is Ok <==> ({
                &&& width > 0 && height > 0
                &&& g_stride >= width
                &&& b_stride >= width
                &&& r_stride >= width
                &&& a_stride >= width
                &&& g_stride * height <= usize::MAX
                &&& g@.len() >= g_stride * height
                &&& b_stride * height <= usize::MAX
                &&& b@.len() >= b_stride * height
                &&& r_stride * height <= usize::MAX
                &&& r@.len() >= r_stride * height
                &&& a_stride * height <= usize::MAX
                &&& a@.len() >= a_stride * height
            }),
            res matches Ok(f) ==> f@ == four_planes(
                width,
                height,
                g@,
                b@,
                r@,
                a@,
                g_stride,
                b_stride,
                r_stride,
                a_stride,
            ),
    {
        proof {
            lemma_gbrap32_accepts(
                g@.len() as int,
                b@.len() as int,
                r@.len() as int,
                a@.len() as int,
                width,
                height,
                g_stride,
                b_stride,
                r_stride,
                a_stride,
            );
        }
        if width == 0 || height == 0 {
            return Err(Gbrap32FrameError::ZeroDimension(ZeroDimension::new(width, height)));
        }
        if g_stride < width {
            return Err(
                Gbrap32FrameError::InsufficientGStride(InsufficientStride::new(g_stride, width)),
            );
        }
        if b_stride < width {
            return Err(
                Gbrap32FrameError::InsufficientBStride(InsufficientStride::new(b_stride, width)),
            );
        }
        if r_stride < width {
            return Err(
                Gbrap32FrameError::InsufficientRStride(InsufficientStride::new(r_stride, width)),
            );
        }
        if a_stride < width {
            return Err(
                Gbrap32FrameError::InsufficientAStride(InsufficientStride::new(a_stride, width)),
            );
        }
        let g_min = match (g_stride as usize).checked_mul(height as usize) {
            Some(v) => v,
            None => {
                return Err(
                    Gbrap32FrameError::GeometryOverflow(GeometryOverflow::new(g_stride, height)),
                );
            },
        };
        if g.len() < g_min {
            return Err(
                Gbrap32FrameError::InsufficientGPlane(InsufficientPlane::new(g_min, g.len())),
            );
        }
        let b_min = match (b_stride as usize).checked_mul(height as usize) {
            Some(v) => v,
            None => {
                return Err(
                    Gbrap32FrameError::GeometryOverflow(GeometryOverflow::new(b_stride, height)),
                );
            },
        };
        if b.len() < b_min {
            return Err(
                Gbrap32FrameError::InsufficientBPlane(InsufficientPlane::new(b_min, b.len())),
            );
        }
        let r_min = match (r_stride as usize).checked_mul(height as usize) {
            Some(v) => v,
            None => {
                return Err(
                    Gbrap32FrameError::GeometryOverflow(GeometryOverflow::new(r_stride, height)),
                );
            },
        };
        if r.len() < r_min {
            return Err(
                Gbrap32FrameError::InsufficientRPlane(InsufficientPlane::new(r_min, r.len())),
            );
        }
        let a_min = match (a_stride as usize).checked_mul(height as usize) {
            Some(v) => v,
            None => {
                return Err(
                    Gbrap32FrameError::GeometryOverflow(GeometryOverflow::new(a_stride, height)),
                );
            },
        };
        if a.len() < a_min {
            return Err(
                Gbrap32FrameError::InsufficientAPlane(InsufficientPlane::new(a_min, a.len())),
            );
        }
        Ok(Gbrap32Frame { g, b, r, a, width, height, g_stride, b_stride, r_stride, a_stride })
    }

    /// Constructs a new frame from inputs that `try_new` accepts.
    pub fn new(
        g: &'a [u32],
        b: &'a [u32],
        r: &'a [u32],
        a: &'a [u32],
        width: u32,
        height: u32,
        g_stride: u32,
        b_stride: u32,
        r_stride: u32,
        a_stride: u32,
    ) -> (res: Self)
        requires
            gbrap32_check(
                g@.len() as int,
                b@.len() as int,
                r@.len() as int,
                a@.len() as int,
                width,
                height,
                g_stride,
                b_stride,
                r_stride,
                a_stride,
            ) is Ok,
        ensures
            res@ == four_planes(
                width,
                height,
                g@,
                b@,
                r@,
                a@,
                g_stride,
                b_stride,
                r_stride,
                a_stride,
            ),
    {
        Self::try_new(g, b, r, a, width, height, g_stride, b_stride, r_stride, a_stride).expect(
            "invalid Gbrap32Frame dimensions or plane lengths",
        )
    }

    /// The G plane under its Y/U/V-order name (planes are walked as Y, U, V).
    pub fn y(&self) -> (r: &'a [u32])
        ensures
            r@ == self@.planes[0],
    {
        self.g
    }

    /// The B plane under its Y/U/V-order name.
    pub fn u(&self) -> (r: &'a [u32])
        ensures
            r@ == self@.planes[1],
    {
        self.b
    }

    /// The R plane under its Y/U/V-order name.
    pub fn v(&self) -> (r: &'a [u32])
        ensures
            r@ == self@.planes[2],
    {
        self.r
    }

    /// The G stride under its Y/U/V-order name.
    pub fn y_stride(&self) -> (r: u32)
        ensures
            r == self@.strides[0],
    {
        self.g_stride
    }

    /// The B stride under its Y/U/V-order name.
    pub fn u_stride(&self) -> (r: u32)
        ensures
            r == self@.strides[1],
    {
        self.b_stride
    }

    /// The R stride under its Y/U/V-order name.
    pub fn v_stride(&self) -> (r: u32)
        ensures
            r == self@.strides[2],
    {
        self.r_stride
    }

    /// Green plane. Row `r` starts at element `r * g_stride()`.
    pub fn g(&self) -> (r: &'a [u32])
        ensures
            r@ == self@.planes[0],
            gbrap32_valid(self@),
    {
        proof {
            use_type_invariant(self);
        }
        self.g
    }

    /// Blue plane. Row `r` starts at element `r * b_stride()`.
    pub fn b(&self) -> (r: &'a [u32])
        ensures
            r@ == self@.planes[1],
            gbrap32_valid(self@),
    {
        proof {
            use_type_invariant(self);
        }
        self.b
    }

    /// Red plane. Row `r` starts at element `r * r_stride()`.
    pub fn r(&self) -> (r: &'a [u32])
        ensures
            r@ == self@.planes[2],
            gbrap32_valid(self@),
    {
        proof {
            use_type_invariant(self);
        }
        self.r
    }

    /// Alpha plane. Row `r` starts at element `r * a_stride()`.
    pub fn a(&self) -> (r: &'a [u32])
        ensures
            r@ == self@.planes[3],
            gbrap32_valid(self@),
    {
        proof {
            use_type_invariant(self);
        }
        self.a
    }

    /// Frame width in pixels.
    pub fn width(&self) -> (r: u32)
        ensures
            r == self@.width,
            gbrap32_valid(self@),
    {
        proof {
            use_type_invariant(self);
        }
        self.width
    }

    /// Frame height in pixels.
    pub fn height(&self) -> (r: u32)
        ensures
            r == self@.height,
            gbrap32_valid(self@),
    {
        proof {
            use_type_invariant(self);
        }
        self.height
    }

    /// Stride of the green plane in elements (`>= width`).
    pub fn g_stride(&self) -> (r: u32)
        ensures
            r == self@.strides[0],
            gbrap32_valid(self@),
    {
        proof {
            use_type_invariant(self);
        }
        self.g_stride
    }

    /// Stride of the blue plane in elements (`>= width`).
    pub fn b_stride(&self) -> (r: u32)
        ensures
            r == self@.strides[1],
            gbrap32_valid(self@),
    {
        proof {
            use_type_invariant(self);
        }
        self.b_stride
    }

    /// Stride of the red plane in elements (`>= width`).
    pub fn r_stride(&self) -> (r: u32)
        ensures
            r == self@.strides[2],
            gbrap32_valid(self@),
    {
        proof {
            use_type_invariant(self);
        }
        self.r_stride
    }

    /// Stride of the alpha plane in elements (`>= width`).
    pub fn a_stride(&self) -> (r: u32)
        ensures
            r == self@.strides[3],
            gbrap32_valid(self@),
    {
        proof {
            use_type_invariant(self);
        }
        self.a_stride
    }

    /// Whether the stored samples are big-endian (`BE`).
    pub fn is_be(&self) -> (r: bool)
        ensures
            r == BE,
    {
        BE
    }
}

/// Errors returned by `Gbrap32Frame::try_new`.
#[derive(Debug, Clone, Copy, PartialEq, Eq, Hash)]
#[non_exhaustive]
pub enum Gbrap32FrameError {
    /// `width` or `height` was zero.
    ZeroDimension(ZeroDimension),
    /// `g_stride < width`.
    InsufficientGStride(InsufficientStride),
    /// `b_stride < width`.
    InsufficientBStride(InsufficientStride),
    /// `r_stride < width`.
    InsufficientRStride(InsufficientStride),
    /// `a_stride < width`.
    InsufficientAStride(InsufficientStride),
    /// The G plane is shorter than `g_stride * height` elements.
    InsufficientGPlane(InsufficientPlane),
    /// The B plane is shorter than `b_stride * height` elements.
    InsufficientBPlane(InsufficientPlane),
    /// The R plane is shorter than `r_stride * height` elements.
    InsufficientRPlane(InsufficientPlane),
    /// The A plane is shorter than `a_stride * height` elements.
    InsufficientAPlane(InsufficientPlane),
    /// `stride * height` overflows `usize`.
    GeometryOverflow(GeometryOverflow),
}

} // verus!
