//! NV20: semi-planar 4:2:2 YUV at 10 bits, low-bit-packed in `u16`
//! samples (FFmpeg `nv20{le,be}`). A full-size Y plane and an
//! interleaved, half-width, full-height UV plane.

use super::samples::{breaks, first_break_is, first_breaking_sample, rows_keep, SampleRule};
use super::{
    lemma_low_bit_is_parity, odd_width, outcome, overflow, plane_fits, plane_need, short_plane,
    short_stride, two_planes, FrameView, GeometryOverflow, InsufficientPlane, InsufficientStride,
    WidthAlignment, ZeroDimension,
};
use vstd::prelude::*;

verus! {

/// The bits of an NV20 sample above its 10 active bits; a valid sample
/// has none of them set.
pub const NV20_HIGH_MASK: u16 = 0xFC00;

/// What `Nv20Frame::try_new` decides for planes of `y_len` and `uv_len`
/// samples.
pub open spec fn nv20_check(
    y_len: int,
    uv_len: int,
    width: u32,
    height: u32,
    y_stride: u32,
    uv_stride: u32,
) -> Result<(), Nv20FrameError> {
    if width == 0 || height == 0 {
        Err(Nv20FrameError::ZeroDimension(ZeroDimension { width, height }))
    } else if width % 2 == 1 {
        Err(Nv20FrameError::WidthAlignment(odd_width(width)))
    } else if y_stride < width {
        Err(Nv20FrameError::InsufficientYStride(short_stride(y_stride, width)))
    } else if uv_stride < width {
        Err(Nv20FrameError::InsufficientUvStride(short_stride(uv_stride, width)))
    } else if uv_stride % 2 == 1 {
        Err(Nv20FrameError::UvStrideOdd(Nv20UvStrideOdd { uv_stride }))
    } else if !plane_fits(y_stride, height) {
        Err(Nv20FrameError::GeometryOverflow(overflow(y_stride, height)))
    } else if y_len < plane_need(y_stride, height) {
        Err(Nv20FrameError::InsufficientYPlane(short_plane(y_stride, height, y_len)))
    } else if !plane_fits(uv_stride, height) {
        Err(Nv20FrameError::GeometryOverflow(overflow(uv_stride, height)))
    } else if uv_len < plane_need(uv_stride, height) {
        Err(Nv20FrameError::InsufficientUvPlane(short_plane(uv_stride, height, uv_len)))
    } else {
        Ok(())
    }
}

/// The inputs that `Nv20Frame::try_new` accepts, stated directly: non-zero
/// dimensions, an even width, strides covering a row of each plane, an
/// even UV stride, and each plane holding its rows; a rejection reports
/// the offending values.
pub proof fn lemma_nv20_accepts(
    y_len: int,
    uv_len: int,
    width: u32,
    height: u32,
    y_stride: u32,
    uv_stride: u32,
)
    ensures
        ({
            let check = nv20_check(y_len, uv_len, width, height, y_stride, uv_stride);
            &&& check is Ok <==> {
                &&& width > 0 && height > 0
                &&& width % 2 == 0
                &&& y_stride >= width
                &&& uv_stride >= width
                &&& uv_stride % 2 == 0
                &&& y_stride * height <= usize::MAX
                &&& y_len >= y_stride * height
                &&& uv_stride * height <= usize::MAX
                &&& uv_len >= uv_stride * height
            }
            &&& check matches Err(Nv20FrameError::ZeroDimension(e)) ==> {
                &&& e.width == width
                &&& e.height == height
            }
            &&& check matches Err(Nv20FrameError::InsufficientYStride(e)) ==> {
                &&& e.stride == y_stride
                &&& e.min_stride == width
                &&& y_stride < width
            }
            &&& check matches Err(Nv20FrameError::InsufficientUvStride(e)) ==> {
                &&& e.stride == uv_stride
                &&& e.min_stride == width
                &&& uv_stride < width
            }
            &&& check matches Err(Nv20FrameError::UvStrideOdd(e)) ==> {
                &&& e.uv_stride == uv_stride
                &&& uv_stride % 2 == 1
            }
            &&& check matches Err(Nv20FrameError::InsufficientYPlane(e)) ==> {
                &&& e.expected == y_stride * height
                &&& y_len < y_stride * height
            }
            &&& check matches Err(Nv20FrameError::InsufficientUvPlane(e)) ==> {
                &&& e.expected == uv_stride * height
                &&& uv_len < uv_stride * height
            }
        }),
{
}

/// The sample rule of NV20: the six high bits are clear.
pub open spec fn nv20_rule() -> SampleRule {
    SampleRule::ClearBits(NV20_HIGH_MASK)
}

/// A 10-bit NV20 sample is valid exactly when its value is below 1024.
pub proof fn lemma_nv20_sample_valid(v: u16)
    ensures
        !breaks(v, nv20_rule()) <==> v < 1024,
{
    assert((v & 0xFC00u16 != 0) == (v >= 1024)) by (bit_vector);
}

/// `e` reports the first sample, scanning Y then UV row by row, whose
/// high bits are set.
pub open spec fn nv20_stray(
    y: Seq<u16>,
    uv: Seq<u16>,
    width: u32,
    height: u32,
    y_stride: u32,
    uv_stride: u32,
    be: bool,
    e: Nv20FrameError,
) -> bool {
    match e {
        Nv20FrameError::StrayHighBits(p) => match p.plane {
            Nv20FramePlane::Y => {
                first_break_is(y, y_stride, width, height, be, nv20_rule(), p.index, p.value)
            },
            Nv20FramePlane::Uv => {
                &&& rows_keep(y, y_stride, width, height as int, be, nv20_rule())
                &&& first_break_is(uv, uv_stride, width, height, be, nv20_rule(), p.index, p.value)
            },
        },
        _ => false,
    }
}

/// A validated NV20 frame. `BE` selects the byte order of the stored
/// samples (`false`: little-endian). Strides are in `u16` elements; the
/// UV row holds `width` elements (`width / 2` U/V pairs).
#[derive(Debug, Clone, Copy)]
pub struct Nv20Frame<'a, const BE: bool> {
    y: &'a [u16],
    uv: &'a [u16],
    width: u32,
    height: u32,
    y_stride: u32,
    uv_stride: u32,
}

/// Little-endian NV20 (`AV_PIX_FMT_NV20LE`).
pub type Nv20LeFrame<'a> = Nv20Frame<'a, false>;

/// Big-endian NV20 (`AV_PIX_FMT_NV20BE`).
pub type Nv20BeFrame<'a> = Nv20Frame<'a, true>;

impl<'a, const BE: bool> View for Nv20Frame<'a, BE> {
    type V = FrameView<u16>;

    closed spec fn view(&self) -> FrameView<u16> {
        two_planes(self.width, self.height, self.y@, self.uv@, self.y_stride, self.uv_stride)
    }
}

/// `v` is the view of an `Nv20Frame` that `try_new` accepts: every frame
/// of the type has such a view.
pub open spec fn nv20_valid(v: FrameView<u16>) -> bool {
    &&& v.planes.len() == 2
    &&& v.strides.len() == 2
    &&& nv20_check(
        v.planes[0].len() as int,
        v.planes[1].len() as int,
        v.width,
        v.height,
        v.strides[0],
        v.strides[1],
    ) is Ok
}

impl<'a, const BE: bool> Nv20Frame<'a, BE> {
    #[verifier::type_invariant]
    closed spec fn wf(&self) -> bool {
        nv20_check(
            self.y@.len() as int,
            self.uv@.len() as int,
            self.width,
            self.height,
            self.y_stride,
            self.uv_stride,
        ) is Ok
    }

    /// Constructs a new frame, validating dimensions, strides and plane
    /// lengths.
    pub fn try_new(
        y: &'a [u16],
        uv: &'a [u16],
        width: u32,
        height: u32,
        y_stride: u32,
        uv_stride: u32,
    ) -> (r: Result<Self, Nv20FrameError>)
        ensures
            outcome(r) == nv20_check(
                y@.len() as int,
                uv@.len() as int,
                width,
                height,
                y_stride,
                uv_stride,
            ),
            r is Ok <==> ({
                &&& width > 0 && height > 0
                &&& width % 2 == 0
                &&& y_stride >= width
                &&& uv_stride >= width
                &&& uv_stride % 2 == 0
                &&& y_stride * height <= usize::MAX
                &&& y@.len() >= y_stride * height
                &&& uv_stride * height <= usize::MAX
                &&& uv@.len() >= uv_stride * height
            }),
            r matches Ok(f) ==> f@ == two_planes(width, height, y@, uv@, y_stride, uv_stride),
    {
        proof {
            lemma_nv20_accepts(
                y@.len() as int,
                uv@.len() as int,
                width,
                height,
                y_stride,
                uv_stride,
            );
        }
        if width == 0 || height == 0 {
            return Err(Nv20FrameError::ZeroDimension(ZeroDimension::new(width, height)));
        }
        proof {
            lemma_low_bit_is_parity(width);
            lemma_low_bit_is_parity(uv_stride);
        }
        if width & 1 != 0 {
            return Err(Nv20FrameError::WidthAlignment(WidthAlignment::odd(width as usize)));
        }
        if y_stride < width {
            let e = InsufficientStride::new(y_stride, width);
            return Err(Nv20FrameError::InsufficientYStride(e));
        }
        let uv_row_elems = width;
        if uv_stride < uv_row_elems {
            let e = InsufficientStride::new(uv_stride, uv_row_elems);
            return Err(Nv20FrameError::InsufficientUvStride(e));
        }
        if uv_stride & 1 != 0 {
            return Err(Nv20FrameError::UvStrideOdd(Nv20UvStrideOdd::new(uv_stride)));
        }
        let y_min = match (y_stride as usize).checked_mul(height as usize) {
            Some(v) => v,
            None => {
                let e = GeometryOverflow::new(y_stride, height);
                return Err(Nv20FrameError::GeometryOverflow(e));
            },
        };
        if y.len() < y_min {
            let e = InsufficientPlane::new(y_min, y.len());
            return Err(Nv20FrameError::InsufficientYPlane(e));
        }
        let uv_min = match (uv_stride as usize).checked_mul(height as usize) {
            Some(v) => v,
            None => {
                let e = GeometryOverflow::new(uv_stride, height);
                return Err(Nv20FrameError::GeometryOverflow(e));
            },
        };
        if uv.len() < uv_min {
            let e = InsufficientPlane::new(uv_min, uv.len());
            return Err(Nv20FrameError::InsufficientUvPlane(e));
        }
        Ok(Nv20Frame { y, uv, width, height, y_stride, uv_stride })
    }

    /// Constructs a new frame from inputs that `try_new` accepts.
    pub fn new(
        y: &'a [u16],
        uv: &'a [u16],
        width: u32,
        height: u32,
        y_stride: u32,
        uv_stride: u32,
    ) -> (r: Self)
        requires
            nv20_check(y@.len() as int, uv@.len() as int, width, height, y_stride, uv_stride) is Ok,
        ensures
            r@ == two_planes(width, height, y@, uv@, y_stride, uv_stride),
    {
        Self::try_new(y, uv, width, height, y_stride, uv_stride).expect(
            "invalid Nv20Frame dimensions or plane lengths",
        )
    }

    /// Like `try_new`, and also checks that every active sample of both
    /// planes has its six high bits clear (a valid 10-bit value).
    pub fn try_new_checked(
        y: &'a [u16],
        uv: &'a [u16],
        width: u32,
        height: u32,
        y_stride: u32,
        uv_stride: u32,
    ) -> (r: Result<Self, Nv20FrameError>)
        ensures
            ({
                let check = nv20_check(
                    y@.len() as int,
                    uv@.len() as int,
                    width,
                    height,
                    y_stride,
                    uv_stride,
                );
                &&& check is Err ==> outcome(r) == check
                &&& check is Ok ==> match r {
                    Ok(f) => {
                        &&& rows_keep(y@, y_stride, width, height as int, BE, nv20_rule())
                        &&& rows_keep(uv@, uv_stride, width, height as int, BE, nv20_rule())
                        &&& f@ == two_planes(width, height, y@, uv@, y_stride, uv_stride)
                    },
                    Err(e) => nv20_stray(y@, uv@, width, height, y_stride, uv_stride, BE, e),
                }
            }),
    {
        let frame = match Self::try_new(y, uv, width, height, y_stride, uv_stride) {
            Ok(f) => f,
            Err(e) => {
                return Err(e);
            },
        };
        let rule = SampleRule::ClearBits(NV20_HIGH_MASK);
        let y_break = first_breaking_sample(y, y_stride, width, height, BE, rule);
        if let Some((index, value)) = y_break {
            let e = Nv20StrayHighBits::new(Nv20FramePlane::Y, index, value);
            return Err(Nv20FrameError::StrayHighBits(e));
        }
        let uv_break = first_breaking_sample(uv, uv_stride, width, height, BE, rule);
        if let Some((index, value)) = uv_break {
            let e = Nv20StrayHighBits::new(Nv20FramePlane::Uv, index, value);
            return Err(Nv20FrameError::StrayHighBits(e));
        }
        Ok(frame)
    }

    /// Y plane samples. Row `r` starts at element `r * y_stride()`.
    pub fn y(&self) -> (r: &'a [u16])
        ensures
            r@ == self@.planes[0],
            nv20_valid(self@),
    {
        proof {
            use_type_invariant(self);
        }
        self.y
    }

    /// Interleaved UV plane samples. Row `r` starts at element
    /// `r * uv_stride()`.
    pub fn uv(&self) -> (r: &'a [u16])
        ensures
            r@ == self@.planes[1],
            nv20_valid(self@),
    {
        proof {
            use_type_invariant(self);
        }
        self.uv
    }

    /// Frame width in pixels.
    pub fn width(&self) -> (r: u32)
        ensures
            r == self@.width,
            nv20_valid(self@),
    {
        proof {
            use_type_invariant(self);
        }
        self.width
    }

    /// Frame height in pixels.
    pub fn height(&self) -> (r: u32)
        ensures
            r == self@.height,
            nv20_valid(self@),
    {
        proof {
            use_type_invariant(self);
        }
        self.height
    }

    /// Stride of the Y plane in `u16` elements.
    pub fn y_stride(&self) -> (r: u32)
        ensures
            r == self@.strides[0],
            nv20_valid(self@),
    {
        proof {
            use_type_invariant(self);
        }
        self.y_stride
    }

    /// Stride of the UV plane in `u16` elements.
    pub fn uv_stride(&self) -> (r: u32)
        ensures
            r == self@.strides[1],
            nv20_valid(self@),
    {
        proof {
            use_type_invariant(self);
        }
        self.uv_stride
    }

    /// Whether the stored samples are big-endian.
    pub fn is_be(&self) -> (r: bool)
        ensures
            r == BE,
    {
        BE
    }
}

/// The plane of an NV20 frame that holds an offending sample.
#[derive(Debug, Clone, Copy, PartialEq, Eq, Hash)]
pub enum Nv20FramePlane {
    Y,
    Uv,
}

impl Nv20FramePlane {
    /// The plane's name, as the frame's error messages print it.
    pub fn as_str(&self) -> (r: &'static str)
        ensures
            r@ == (match self {
                Nv20FramePlane::Y => "Y"@,
                Nv20FramePlane::Uv => "Uv"@,
            }),
    {
        match self {
            Nv20FramePlane::Y => "Y",
            Nv20FramePlane::Uv => "Uv",
        }
    }
}

/// Errors returned by `Nv20Frame::try_new` and `Nv20Frame::try_new_checked`.
#[derive(Debug, Clone, Copy, PartialEq, Eq, Hash)]
#[non_exhaustive]
pub enum Nv20FrameError {
    /// `width` or `height` was zero.
    ZeroDimension(ZeroDimension),
    /// `width` is odd (4:2:2 chroma is subsampled horizontally).
    WidthAlignment(WidthAlignment),
    /// `y_stride < width`.
    InsufficientYStride(InsufficientStride),
    /// `uv_stride < width`.
    InsufficientUvStride(InsufficientStride),
    /// `uv_stride` is odd, which would swap U and V on every other row.
    UvStrideOdd(Nv20UvStrideOdd),
    /// The Y plane is shorter than `y_stride * height` samples.
    InsufficientYPlane(InsufficientPlane),
    /// The UV plane is shorter than `uv_stride * height` samples.
    InsufficientUvPlane(InsufficientPlane),
    /// `stride * height` does not fit in `usize`.
    GeometryOverflow(GeometryOverflow),
    /// An active sample has one of its six high bits set.
    StrayHighBits(Nv20StrayHighBits),
}

/// `uv_stride` is odd.
#[derive(Debug, Clone, Copy, PartialEq, Eq, Hash)]
pub struct Nv20UvStrideOdd {
    pub uv_stride: u32,
}

impl Nv20UvStrideOdd {
    pub fn new(uv_stride: u32) -> (r: Self)
        ensures
            r == (Nv20UvStrideOdd { uv_stride }),
    {
        Nv20UvStrideOdd { uv_stride }
    }

    pub fn uv_stride(&self) -> (r: u32)
        ensures
            r == self.uv_stride,
    {
        self.uv_stride
    }
}

/// An active NV20 sample with one of its high bits set: its plane, its
/// element index in that plane, and its value in the frame's byte order.
#[derive(Debug, Clone, Copy, PartialEq, Eq, Hash)]
pub struct Nv20StrayHighBits {
    pub plane: Nv20FramePlane,
    pub index: usize,
    pub value: u16,
}

impl Nv20StrayHighBits {
    pub fn new(plane: Nv20FramePlane, index: usize, value: u16) -> (r: Self)
        ensures
            r == (Nv20StrayHighBits { plane, index, value }),
    {
        Nv20StrayHighBits { plane, index, value }
    }

    pub fn plane(&self) -> (r: Nv20FramePlane)
        ensures
            r == self.plane,
    {
        self.plane
    }

    pub fn index(&self) -> (r: usize)
        ensures
            r == self.index,
    {
        self.index
    }

    pub fn value(&self) -> (r: u16)
        ensures
            r == self.value,
    {
        self.value
    }
}

} // verus!
