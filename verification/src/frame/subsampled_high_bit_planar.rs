//! Validated planar YUV frames at high bit depth, one `u16` plane per
//! component: `Yuv420pFrame16`, `Yuv422pFrame16`, `Yuv444pFrame16` and
//! `Yuv440pFrame16` (`BITS` active low bits per sample) and
//! `Yuv444pMsbFrame` (`BITS` significant high bits). Strides are in
//! `u16` elements; `BE` records the byte order of the stored samples.
//!
//! Each frame's `try_new_checked` also scans the active samples of the Y,
//! U and V planes, in that order and row by row, and reports the first
//! one that is not a valid sample.

use super::samples::{
    first_breaking_sample, low_bits_mask, max_sample, max_sample_value, msb_low_mask, rows_keep,
    SampleRule, ScanArea,
};
use super::{
    div_ceil2, half_up, lemma_low_bit_is_parity, odd_width, outcome, overflow, plane_fits,
    plane_need, short_plane, short_stride, three_planes, FrameView, GeometryOverflow,
    InsufficientPlane, InsufficientStride, UnsupportedBits, WidthAlignment, ZeroDimension,
};
use vstd::prelude::*;

verus! {

/// The index of a YUV plane in scan order.
pub open spec fn yuv_plane_index(p: Yuv420pFrame16Plane) -> int {
    match p {
        Yuv420pFrame16Plane::Y => 0,
        Yuv420pFrame16Plane::U => 1,
        Yuv420pFrame16Plane::V => 2,
    }
}

/// `e` reports the first active sample, scanning the planes of `area` in
/// order, that exceeds `max_valid`, and that bound.
pub open spec fn yuv_out_of_range(
    area: ScanArea,
    be: bool,
    max_valid: u16,
    e: Yuv420pFrame16Error,
) -> bool {
    match e {
        Yuv420pFrame16Error::SampleOutOfRange(p) => p.max_valid == max_valid && area.first_break_in(
            be,
            SampleRule::AtMost(p.max_valid),
            yuv_plane_index(p.plane),
            p.index,
            p.value,
        ),
        _ => false,
    }
}

/// At 16 bits every sample value is in range: the range scan of
/// `try_new_checked` finds nothing to report, so a 16-bit frame is
/// accepted by it exactly when `try_new` accepts it.
pub proof fn lemma_sixteen_bit_samples_in_range(area: ScanArea, be: bool)
    requires
        area.planes.len() == 3,
    ensures
        area.keeps(be, SampleRule::AtMost(max_sample(16)), 3),
{
    assert((1u32 << 16u32) == 65536u32) by (bit_vector);
    assert forall|q: int| 0 <= q < 3 implies #[trigger] rows_keep(
        area.planes[q],
        area.strides[q],
        area.widths[q],
        area.rows[q] as int,
        be,
        SampleRule::AtMost(max_sample(16)),
    ) by {}
}

/// The active areas of a 4:2:0 frame: Y at full size, U and V at half
/// width and half height (rounded up).
pub open spec fn yuv420p_area(
    y: Seq<u16>,
    u: Seq<u16>,
    v: Seq<u16>,
    width: u32,
    height: u32,
    y_stride: u32,
    u_stride: u32,
    v_stride: u32,
) -> ScanArea {
    ScanArea {
        planes: seq![y, u, v],
        strides: seq![y_stride, u_stride, v_stride],
        widths: seq![width, width / 2, width / 2],
        rows: seq![height, half_up(height), half_up(height)],
    }
}

/// What `Yuv420pFrame16::try_new` decides.
pub open spec fn yuv420p_check(
    y_len: int,
    u_len: int,
    v_len: int,
    width: u32,
    height: u32,
    y_stride: u32,
    u_stride: u32,
    v_stride: u32,
    bits: u32,
) -> Result<(), Yuv420pFrame16Error> {
    if !(bits == 9 || bits == 10 || bits == 12 || bits == 14 || bits == 16) {
        Err(Yuv420pFrame16Error::UnsupportedBits(UnsupportedBits { bits }))
    } else if width == 0 || height == 0 {
        Err(Yuv420pFrame16Error::ZeroDimension(ZeroDimension { width, height }))
    } else if width % 2 == 1 {
        Err(Yuv420pFrame16Error::WidthAlignment(odd_width(width)))
    } else if y_stride < width {
        Err(Yuv420pFrame16Error::InsufficientYStride(short_stride(y_stride, width)))
    } else if u_stride < half_up(width) {
        Err(Yuv420pFrame16Error::InsufficientUStride(short_stride(u_stride, half_up(width))))
    } else if v_stride < half_up(width) {
        Err(Yuv420pFrame16Error::InsufficientVStride(short_stride(v_stride, half_up(width))))
    } else if !plane_fits(y_stride, height) {
        Err(Yuv420pFrame16Error::GeometryOverflow(overflow(y_stride, height)))
    } else if y_len < plane_need(y_stride, height) {
        Err(Yuv420pFrame16Error::InsufficientYPlane(short_plane(y_stride, height, y_len)))
    } else if !plane_fits(u_stride, half_up(height)) {
        Err(Yuv420pFrame16Error::GeometryOverflow(overflow(u_stride, half_up(height))))
    } else if u_len < plane_need(u_stride, half_up(height)) {
        Err(Yuv420pFrame16Error::InsufficientUPlane(short_plane(u_stride, half_up(height), u_len)))
    } else if !plane_fits(v_stride, half_up(height)) {
        Err(Yuv420pFrame16Error::GeometryOverflow(overflow(v_stride, half_up(height))))
    } else if v_len < plane_need(v_stride, half_up(height)) {
        Err(Yuv420pFrame16Error::InsufficientVPlane(short_plane(v_stride, half_up(height), v_len)))
    } else {
        Ok(())
    }
}

/// The inputs that `Yuv420pFrame16::try_new` accepts, stated directly: non-zero
/// dimensions, each stride covering a row of its plane, each plane
/// holding its rows; a rejection reports the offending values.
pub proof fn lemma_yuv420p_accepts(
    y_len: int,
    u_len: int,
    v_len: int,
    width: u32,
    height: u32,
    y_stride: u32,
    u_stride: u32,
    v_stride: u32,
    bits: u32,
)
    ensures
        ({
            let check = yuv420p_check(
                y_len,
                u_len,
                v_len,
                width,
                height,
                y_stride,
                u_stride,
                v_stride,
                bits,
            );
            &&& check is Ok <==> {
                &&& (bits == 9 || bits == 10 || bits == 12 || bits == 14 || bits == 16)
                &&& width > 0 && height > 0
                &&& width % 2 == 0
                &&& y_stride >= width
                &&& u_stride >= (width + 1) / 2
                &&& v_stride >= (width + 1) / 2
                &&& y_stride * height <= usize::MAX
                &&& y_len >= y_stride * height
                &&& u_stride * ((height + 1) / 2) <= usize::MAX
                &&& u_len >= u_stride * ((height + 1) / 2)
                &&& v_stride * ((height + 1) / 2) <= usize::MAX
                &&& v_len >= v_stride * ((height + 1) / 2)
            }
            &&& check matches Err(Yuv420pFrame16Error::ZeroDimension(e)) ==> {
                &&& e.width == width
                &&& e.height == height
            }
            &&& check matches Err(Yuv420pFrame16Error::InsufficientYStride(e)) ==> {
                &&& e.stride == y_stride
                &&& e.min_stride == width
                &&& y_stride < width
            }
            &&& check matches Err(Yuv420pFrame16Error::InsufficientUStride(e)) ==> {
                &&& e.stride == u_stride
                &&& e.min_stride == (width + 1) / 2
                &&& u_stride < (width + 1) / 2
            }
            &&& check matches Err(Yuv420pFrame16Error::InsufficientVStride(e)) ==> {
                &&& e.stride == v_stride
                &&& e.min_stride == (width + 1) / 2
                &&& v_stride < (width + 1) / 2
            }
            &&& check matches Err(Yuv420pFrame16Error::InsufficientYPlane(e)) ==> {
                &&& e.expected == y_stride * height
                &&& y_len < y_stride * height
            }
            &&& check matches Err(Yuv420pFrame16Error::InsufficientUPlane(e)) ==> {
                &&& e.expected == u_stride * ((height + 1) / 2)
                &&& u_len < u_stride * ((height + 1) / 2)
            }
            &&& check matches Err(Yuv420pFrame16Error::InsufficientVPlane(e)) ==> {
                &&& e.expected == v_stride * ((height + 1) / 2)
                &&& v_len < v_stride * ((height + 1) / 2)
            }
        }),
{
    assert(half_up(width) == (width + 1) / 2);
    assert(half_up(height) == (height + 1) / 2);
}

/// A validated planar 4:2:0 YUV frame with `BITS` (9, 10, 12, 14 or 16)
/// active low bits per `u16` sample (FFmpeg `yuv420p9`..`yuv420p16`).
/// U and V are half width and half height (rounded up); `width` must be
/// even.
#[derive(Debug, Clone, Copy)]
pub struct Yuv420pFrame16<'a, const BITS: u32, const BE: bool> {
    y: &'a [u16],
    u: &'a [u16],
    v: &'a [u16],
    width: u32,
    height: u32,
    y_stride: u32,
    u_stride: u32,
    v_stride: u32,
}

/// 9-bit little-endian `Yuv420pFrame16`.
pub type Yuv420p9Frame<'a> = Yuv420pFrame16<'a, 9, false>;
/// 10-bit little-endian `Yuv420pFrame16`.
pub type Yuv420p10Frame<'a> = Yuv420pFrame16<'a, 10, false>;
/// 12-bit little-endian `Yuv420pFrame16`.
pub type Yuv420p12Frame<'a> = Yuv420pFrame16<'a, 12, false>;
/// 14-bit little-endian `Yuv420pFrame16`.
pub type Yuv420p14Frame<'a> = Yuv420pFrame16<'a, 14, false>;
/// 16-bit little-endian `Yuv420pFrame16`.
pub type Yuv420p16Frame<'a> = Yuv420pFrame16<'a, 16, false>;
/// `AV_PIX_FMT_YUV420P9LE`.
pub type Yuv420p9LeFrame<'a> = Yuv420pFrame16<'a, 9, false>;
/// `AV_PIX_FMT_YUV420P9BE`.
pub type Yuv420p9BeFrame<'a> = Yuv420pFrame16<'a, 9, true>;
/// `AV_PIX_FMT_YUV420P10LE`.
pub type Yuv420p10LeFrame<'a> = Yuv420pFrame16<'a, 10, false>;
/// `AV_PIX_FMT_YUV420P10BE`.
pub type Yuv420p10BeFrame<'a> = Yuv420pFrame16<'a, 10, true>;
/// `AV_PIX_FMT_YUV420P12LE`.
pub type Yuv420p12LeFrame<'a> = Yuv420pFrame16<'a, 12, false>;
/// `AV_PIX_FMT_YUV420P12BE`.
pub type Yuv420p12BeFrame<'a> = Yuv420pFrame16<'a, 12, true>;
/// `AV_PIX_FMT_YUV420P14LE`.
pub type Yuv420p14LeFrame<'a> = Yuv420pFrame16<'a, 14, false>;
/// `AV_PIX_FMT_YUV420P14BE`.
pub type Yuv420p14BeFrame<'a> = Yuv420pFrame16<'a, 14, true>;
/// `AV_PIX_FMT_YUV420P16LE`.
pub type Yuv420p16LeFrame<'a> = Yuv420pFrame16<'a, 16, false>;
/// `AV_PIX_FMT_YUV420P16BE`.
pub type Yuv420p16BeFrame<'a> = Yuv420pFrame16<'a, 16, true>;

impl<'a, const BITS: u32, const BE: bool> View for Yuv420pFrame16<'a, BITS, BE> {
    type V = FrameView<u16>;

    closed spec fn view(&self) -> FrameView<u16> {
        three_planes(
            self.width,
            self.height,
            self.y@,
            self.u@,
            self.v@,
            self.y_stride,
            self.u_stride,
            self.v_stride,
        )
    }
}

/// `v` is the view of a `Yuv420pFrame16` that `try_new` accepts: every frame
/// of the type has such a view.
pub open spec fn yuv420p_valid(v: FrameView<u16>, bits: u32) -> bool {
    &&& v.planes.len() == 3
    &&& v.strides.len() == 3
    &&& yuv420p_check(
        v.planes[0].len() as int,
        v.planes[1].len() as int,
        v.planes[2].len() as int,
        v.width,
        v.height,
        v.strides[0],
        v.strides[1],
        v.strides[2],
        bits,
    ) is Ok
}

impl<'a, const BITS: u32, const BE: bool> Yuv420pFrame16<'a, BITS, BE> {
    #[verifier::type_invariant]
    closed spec fn wf(&self) -> bool {
        yuv420p_check(
            self.y@.len() as int,
            self.u@.len() as int,
            self.v@.len() as int,
            self.width,
            self.height,
            self.y_stride,
            self.u_stride,
            self.v_stride,
            BITS,
        ) is Ok
    }

    /// Constructs a new frame, validating dimensions, strides and plane
    /// lengths; reports the first check that fails.
    pub fn try_new(
        y: &'a [u16],
        u: &'a [u16],
        v: &'a [u16],
        width: u32,
        height: u32,
        y_stride: u32,
        u_stride: u32,
        v_stride: u32,
    ) -> (res: Result<Self, Yuv420pFrame16Error>)
        ensures
            outcome(res) == yuv420p_check(
                y@.len() as int,
                u@.len() as int,
                v@.len() as int,
                width,
                height,
                y_stride,
                u_stride,
                v_stride,
                BITS,
            ),
            res is Ok <==> ({
                &&& (BITS == 9 || BITS == 10 || BITS == 12 || BITS == 14 || BITS == 16)
                &&& width > 0 && height > 0
                &&& width % 2 == 0
                &&& y_stride >= width
                &&& u_stride >= (width + 1) / 2
                &&& v_stride >= (width + 1) / 2
                &&& y_stride * height <= usize::MAX
                &&& y@.len() >= y_stride * height
                &&& u_stride * ((height + 1) / 2) <= usize::MAX
                &&& u@.len() >= u_stride * ((height + 1) / 2)
                &&& v_stride * ((height + 1) / 2) <= usize::MAX
                &&& v@.len() >= v_stride * ((height + 1) / 2)
            }),
            res matches Ok(f) ==> f@ == three_planes(
                width,
                height,
                y@,
                u@,
                v@,
                y_stride,
                u_stride,
                v_stride,
            ),
    {
        proof {
            lemma_yuv420p_accepts(
                y@.len() as int,
                u@.len() as int,
                v@.len() as int,
                width,
                height,
                y_stride,
                u_stride,
                v_stride,
                BITS,
            );
        }
        if BITS != 9 && BITS != 10 && BITS != 12 && BITS != 14 && BITS != 16 {
            return Err(Yuv420pFrame16Error::UnsupportedBits(UnsupportedBits::new(BITS)));
        }
        if width == 0 || height == 0 {
            return Err(Yuv420pFrame16Error::ZeroDimension(ZeroDimension::new(width, height)));
        }
        proof {
            lemma_low_bit_is_parity(width);
        }
        if width & 1 != 0 {
            return Err(Yuv420pFrame16Error::WidthAlignment(WidthAlignment::odd(width as usize)));
        }
        if y_stride < width {
            return Err(
                Yuv420pFrame16Error::InsufficientYStride(InsufficientStride::new(y_stride, width)),
            );
        }
        let chroma_width = div_ceil2(width);
        if u_stride < chroma_width {
            return Err(
                Yuv420pFrame16Error::InsufficientUStride(
                    InsufficientStride::new(u_stride, chroma_width),
                ),
            );
        }
        if v_stride < chroma_width {
            return Err(
                Yuv420pFrame16Error::InsufficientVStride(
                    InsufficientStride::new(v_stride, chroma_width),
                ),
            );
        }
        let y_min = match (y_stride as usize).checked_mul(height as usize) {
            Some(v) => v,
            None => {
                return Err(
                    Yuv420pFrame16Error::GeometryOverflow(GeometryOverflow::new(y_stride, height)),
                );
            },
        };
        if y.len() < y_min {
            return Err(
                Yuv420pFrame16Error::InsufficientYPlane(InsufficientPlane::new(y_min, y.len())),
            );
        }
        let chroma_height = div_ceil2(height);
        let u_min = match (u_stride as usize).checked_mul(chroma_height as usize) {
            Some(v) => v,
            None => {
                return Err(
                    Yuv420pFrame16Error::GeometryOverflow(
                        GeometryOverflow::new(u_stride, chroma_height),
                    ),
                );
            },
        };
        if u.len() < u_min {
            return Err(
                Yuv420pFrame16Error::InsufficientUPlane(InsufficientPlane::new(u_min, u.len())),
            );
        }
        let v_min = match (v_stride as usize).checked_mul(chroma_height as usize) {
            Some(v) => v,
            None => {
                return Err(
                    Yuv420pFrame16Error::GeometryOverflow(
                        GeometryOverflow::new(v_stride, chroma_height),
                    ),
                );
            },
        };
        if v.len() < v_min {
            return Err(
                Yuv420pFrame16Error::InsufficientVPlane(InsufficientPlane::new(v_min, v.len())),
            );
        }
        Ok(Yuv420pFrame16 { y, u, v, width, height, y_stride, u_stride, v_stride })
    }

    /// Constructs a new frame from inputs that `try_new` accepts.
    pub fn new(
        y: &'a [u16],
        u: &'a [u16],
        v: &'a [u16],
        width: u32,
        height: u32,
        y_stride: u32,
        u_stride: u32,
        v_stride: u32,
    ) -> (res: Self)
        requires
            yuv420p_check(
                y@.len() as int,
                u@.len() as int,
                v@.len() as int,
                width,
                height,
                y_stride,
                u_stride,
                v_stride,
                BITS,
            ) is Ok,
        ensures
            res@ == three_planes(width, height, y@, u@, v@, y_stride, u_stride, v_stride),
    {
        Self::try_new(y, u, v, width, height, y_stride, u_stride, v_stride).expect(
            "invalid Yuv420pFrame16 dimensions or plane lengths",
        )
    }

    /// Like `try_new`, and also checks that no active sample of the Y, U and
    /// V planes (scanned in that order, row by row) exceeds `(1 << BITS) - 1`.
    #[verifier::rlimit(20)]
    pub fn try_new_checked(
        y: &'a [u16],
        u: &'a [u16],
        v: &'a [u16],
        width: u32,
        height: u32,
        y_stride: u32,
        u_stride: u32,
        v_stride: u32,
    ) -> (res: Result<Self, Yuv420pFrame16Error>)
        ensures
            ({
                let check = yuv420p_check(
                    y@.len() as int,
                    u@.len() as int,
                    v@.len() as int,
                    width,
                    height,
                    y_stride,
                    u_stride,
                    v_stride,
                    BITS,
                );
                let area = yuv420p_area(y@, u@, v@, width, height, y_stride, u_stride, v_stride);
                let view = three_planes(width, height, y@, u@, v@, y_stride, u_stride, v_stride);
                &&& check is Err ==> outcome(res) == check
                &&& check is Ok ==> match res {
                    Ok(f) => {
                        &&& area.keeps(BE, SampleRule::AtMost(max_sample(BITS)), 3)
                        &&& f@ == view
                    },
                    Err(e) => yuv_out_of_range(area, BE, max_sample(BITS), e),
                }
            }),
    {
        let frame = match Self::try_new(y, u, v, width, height, y_stride, u_stride, v_stride) {
            Ok(f) => f,
            Err(e) => {
                return Err(e);
            },
        };
        let ghost area = yuv420p_area(y@, u@, v@, width, height, y_stride, u_stride, v_stride);
        let max_valid = max_sample_value(BITS);
        let rule = SampleRule::AtMost(max_valid);
        if let Some((index, value)) = first_breaking_sample(
            y,
            y_stride,
            width,
            height,
            BE,
            rule,
        ) {
            return Err(
                Yuv420pFrame16Error::SampleOutOfRange(
                    Yuv420pFrame16SampleOutOfRange::new(
                        Yuv420pFrame16Plane::Y,
                        index,
                        value,
                        max_valid,
                    ),
                ),
            );
        }
        assert(area.keeps(BE, rule, 1));
        if let Some((index, value)) = first_breaking_sample(
            u,
            u_stride,
            width / 2,
            div_ceil2(height),
            BE,
            rule,
        ) {
            return Err(
                Yuv420pFrame16Error::SampleOutOfRange(
                    Yuv420pFrame16SampleOutOfRange::new(
                        Yuv420pFrame16Plane::U,
                        index,
                        value,
                        max_valid,
                    ),
                ),
            );
        }
        assert(area.keeps(BE, rule, 2));
        if let Some((index, value)) = first_breaking_sample(
            v,
            v_stride,
            width / 2,
            div_ceil2(height),
            BE,
            rule,
        ) {
            return Err(
                Yuv420pFrame16Error::SampleOutOfRange(
                    Yuv420pFrame16SampleOutOfRange::new(
                        Yuv420pFrame16Plane::V,
                        index,
                        value,
                        max_valid,
                    ),
                ),
            );
        }
        assert(area.keeps(BE, rule, 3));
        Ok(frame)
    }

    /// Y (luma) plane. Row `r` starts at element `r * y_stride()`.
    pub fn y(&self) -> (r: &'a [u16])
        ensures
            r@ == self@.planes[0],
            yuv420p_valid(self@, BITS),
    {
        proof {
            use_type_invariant(self);
        }
        self.y
    }

    /// U (Cb) plane. Row `r` starts at element `r * u_stride()`.
    pub fn u(&self) -> (r: &'a [u16])
        ensures
            r@ == self@.planes[1],
            yuv420p_valid(self@, BITS),
    {
        proof {
            use_type_invariant(self);
        }
        self.u
    }

    /// V (Cr) plane. Row `r` starts at element `r * v_stride()`.
    pub fn v(&self) -> (r: &'a [u16])
        ensures
            r@ == self@.planes[2],
            yuv420p_valid(self@, BITS),
    {
        proof {
            use_type_invariant(self);
        }
        self.v
    }

    /// Frame width in pixels.
    pub fn width(&self) -> (r: u32)
        ensures
            r == self@.width,
            yuv420p_valid(self@, BITS),
    {
        proof {
            use_type_invariant(self);
        }
        self.width
    }

    /// Frame height in pixels.
    pub fn height(&self) -> (r: u32)
        ensures
            r == self@.height,
            yuv420p_valid(self@, BITS),
    {
        proof {
            use_type_invariant(self);
        }
        self.height
    }

    /// Stride of the Y plane in elements.
    pub fn y_stride(&self) -> (r: u32)
        ensures
            r == self@.strides[0],
            yuv420p_valid(self@, BITS),
    {
        proof {
            use_type_invariant(self);
        }
        self.y_stride
    }

    /// Stride of the U plane in elements.
    pub fn u_stride(&self) -> (r: u32)
        ensures
            r == self@.strides[1],
            yuv420p_valid(self@, BITS),
    {
        proof {
            use_type_invariant(self);
        }
        self.u_stride
    }

    /// Stride of the V plane in elements.
    pub fn v_stride(&self) -> (r: u32)
        ensures
            r == self@.strides[2],
            yuv420p_valid(self@, BITS),
    {
        proof {
            use_type_invariant(self);
        }
        self.v_stride
    }

    /// The bit depth `BITS`.
    pub fn bits(&self) -> (r: u32)
        ensures
            r == BITS,
    {
        BITS
    }

    /// Whether the stored samples are big-endian (`BE`).
    pub fn is_be(&self) -> (r: bool)
        ensures
            r == BE,
    {
        BE
    }
}

/// The active areas of a 4:2:2 frame: Y at full size, U and V at half
/// width and full height.
pub open spec fn yuv422p_area(
    y: Seq<u16>,
    u: Seq<u16>,
    v: Seq<u16>,
    width: u32,
    height: u32,
    y_stride: u32,
    u_stride: u32,
    v_stride: u32,
) -> ScanArea {
    ScanArea {
        planes: seq![y, u, v],
        strides: seq![y_stride, u_stride, v_stride],
        widths: seq![width, width / 2, width / 2],
        rows: seq![height, height, height],
    }
}

/// What `Yuv422pFrame16::try_new` decides.
pub open spec fn yuv422p_check(
    y_len: int,
    u_len: int,
    v_len: int,
    width: u32,
    height: u32,
    y_stride: u32,
    u_stride: u32,
    v_stride: u32,
    bits: u32,
) -> Result<(), Yuv420pFrame16Error> {
    if !(bits == 9 || bits == 10 || bits == 12 || bits == 14 || bits == 16) {
        Err(Yuv420pFrame16Error::UnsupportedBits(UnsupportedBits { bits }))
    } else if width == 0 || height == 0 {
        Err(Yuv420pFrame16Error::ZeroDimension(ZeroDimension { width, height }))
    } else if width % 2 == 1 {
        Err(Yuv420pFrame16Error::WidthAlignment(odd_width(width)))
    } else if y_stride < width {
        Err(Yuv420pFrame16Error::InsufficientYStride(short_stride(y_stride, width)))
    } else if u_stride < half_up(width) {
        Err(Yuv420pFrame16Error::InsufficientUStride(short_stride(u_stride, half_up(width))))
    } else if v_stride < half_up(width) {
        Err(Yuv420pFrame16Error::InsufficientVStride(short_stride(v_stride, half_up(width))))
    } else if !plane_fits(y_stride, height) {
        Err(Yuv420pFrame16Error::GeometryOverflow(overflow(y_stride, height)))
    } else if y_len < plane_need(y_stride, height) {
        Err(Yuv420pFrame16Error::InsufficientYPlane(short_plane(y_stride, height, y_len)))
    } else if !plane_fits(u_stride, height) {
        Err(Yuv420pFrame16Error::GeometryOverflow(overflow(u_stride, height)))
    } else if u_len < plane_need(u_stride, height) {
        Err(Yuv420pFrame16Error::InsufficientUPlane(short_plane(u_stride, height, u_len)))
    } else if !plane_fits(v_stride, height) {
        Err(Yuv420pFrame16Error::GeometryOverflow(overflow(v_stride, height)))
    } else if v_len < plane_need(v_stride, height) {
        Err(Yuv420pFrame16Error::InsufficientVPlane(short_plane(v_stride, height, v_len)))
    } else {
        Ok(())
    }
}

/// The inputs that `Yuv422pFrame16::try_new` accepts, stated directly: non-zero
/// dimensions, each stride covering a row of its plane, each plane
/// holding its rows; a rejection reports the offending values.
pub proof fn lemma_yuv422p_accepts(
    y_len: int,
    u_len: int,
    v_len: int,
    width: u32,
    height: u32,
    y_stride: u32,
    u_stride: u32,
    v_stride: u32,
    bits: u32,
)
    ensures
        ({
            let check = yuv422p_check(
                y_len,
                u_len,
                v_len,
                width,
                height,
                y_stride,
                u_stride,
                v_stride,
                bits,
            );
            &&& check is Ok <==> {
                &&& (bits == 9 || bits == 10 || bits == 12 || bits == 14 || bits == 16)
                &&& width > 0 && height > 0
                &&& width % 2 == 0
                &&& y_stride >= width
                &&& u_stride >= (width + 1) / 2
                &&& v_stride >= (width + 1) / 2
                &&& y_stride * height <= usize::MAX
                &&& y_len >= y_stride * height
                &&& u_stride * height <= usize::MAX
                &&& u_len >= u_stride * height
                &&& v_stride * height <= usize::MAX
                &&& v_len >= v_stride * height
            }
            &&& check matches Err(Yuv420pFrame16Error::ZeroDimension(e)) ==> {
                &&& e.width == width
                &&& e.height == height
            }
            &&& check matches Err(Yuv420pFrame16Error::InsufficientYStride(e)) ==> {
                &&& e.stride == y_stride
                &&& e.min_stride == width
                &&& y_stride < width
            }
            &&& check matches Err(Yuv420pFrame16Error::InsufficientUStride(e)) ==> {
                &&& e.stride == u_stride
                &&& e.min_stride == (width + 1) / 2
                &&& u_stride < (width + 1) / 2
            }
            &&& check matches Err(Yuv420pFrame16Error::InsufficientVStride(e)) ==> {
                &&& e.stride == v_stride
                &&& e.min_stride == (width + 1) / 2
                &&& v_stride < (width + 1) / 2
            }
            &&& check matches Err(Yuv420pFrame16Error::InsufficientYPlane(e)) ==> {
                &&& e.expected == y_stride * height
                &&& y_len < y_stride * height
            }
            &&& check matches Err(Yuv420pFrame16Error::InsufficientUPlane(e)) ==> {
                &&& e.expected == u_stride * height
                &&& u_len < u_stride * height
            }
            &&& check matches Err(Yuv420pFrame16Error::InsufficientVPlane(e)) ==> {
                &&& e.expected == v_stride * height
                &&& v_len < v_stride * height
            }
        }),
{
    assert(half_up(width) == (width + 1) / 2);
}

/// A validated planar 4:2:2 YUV frame with `BITS` (9, 10, 12, 14 or 16)
/// active low bits per `u16` sample (FFmpeg `yuv422p9`..`yuv422p16`).
/// U and V are half width and full height; `width` must be even.
#[derive(Debug, Clone, Copy)]
pub struct Yuv422pFrame16<'a, const BITS: u32, const BE: bool> {
    y: &'a [u16],
    u: &'a [u16],
    v: &'a [u16],
    width: u32,
    height: u32,
    y_stride: u32,
    u_stride: u32,
    v_stride: u32,
}

/// 9-bit little-endian `Yuv422pFrame16`.
pub type Yuv422p9Frame<'a> = Yuv422pFrame16<'a, 9, false>;
/// 10-bit little-endian `Yuv422pFrame16`.
pub type Yuv422p10Frame<'a> = Yuv422pFrame16<'a, 10, false>;
/// 12-bit little-endian `Yuv422pFrame16`.
pub type Yuv422p12Frame<'a> = Yuv422pFrame16<'a, 12, false>;
/// 14-bit little-endian `Yuv422pFrame16`.
pub type Yuv422p14Frame<'a> = Yuv422pFrame16<'a, 14, false>;
/// 16-bit little-endian `Yuv422pFrame16`.
pub type Yuv422p16Frame<'a> = Yuv422pFrame16<'a, 16, false>;
/// `AV_PIX_FMT_YUV422P9LE`.
pub type Yuv422p9LeFrame<'a> = Yuv422pFrame16<'a, 9, false>;
/// `AV_PIX_FMT_YUV422P9BE`.
pub type Yuv422p9BeFrame<'a> = Yuv422pFrame16<'a, 9, true>;
/// `AV_PIX_FMT_YUV422P10LE`.
pub type Yuv422p10LeFrame<'a> = Yuv422pFrame16<'a, 10, false>;
/// `AV_PIX_FMT_YUV422P10BE`.
pub type Yuv422p10BeFrame<'a> = Yuv422pFrame16<'a, 10, true>;
/// `AV_PIX_FMT_YUV422P12LE`.
pub type Yuv422p12LeFrame<'a> = Yuv422pFrame16<'a, 12, false>;
/// `AV_PIX_FMT_YUV422P12BE`.
pub type Yuv422p12BeFrame<'a> = Yuv422pFrame16<'a, 12, true>;
/// `AV_PIX_FMT_YUV422P14LE`.
pub type Yuv422p14LeFrame<'a> = Yuv422pFrame16<'a, 14, false>;
/// `AV_PIX_FMT_YUV422P14BE`.
pub type Yuv422p14BeFrame<'a> = Yuv422pFrame16<'a, 14, true>;
/// `AV_PIX_FMT_YUV422P16LE`.
pub type Yuv422p16LeFrame<'a> = Yuv422pFrame16<'a, 16, false>;
/// `AV_PIX_FMT_YUV422P16BE`.
pub type Yuv422p16BeFrame<'a> = Yuv422pFrame16<'a, 16, true>;

impl<'a, const BITS: u32, const BE: bool> View for Yuv422pFrame16<'a, BITS, BE> {
    type V = FrameView<u16>;

    closed spec fn view(&self) -> FrameView<u16> {
        three_planes(
            self.width,
            self.height,
            self.y@,
            self.u@,
            self.v@,
            self.y_stride,
            self.u_stride,
            self.v_stride,
        )
    }
}

/// `v` is the view of a `Yuv422pFrame16` that `try_new` accepts: every frame
/// of the type has such a view.
pub open spec fn yuv422p_valid(v: FrameView<u16>, bits: u32) -> bool {
    &&& v.planes.len() == 3
    &&& v.strides.len() == 3
    &&& yuv422p_check(
        v.planes[0].len() as int,
        v.planes[1].len() as int,
        v.planes[2].len() as int,
        v.width,
        v.height,
        v.strides[0],
        v.strides[1],
        v.strides[2],
        bits,
    ) is Ok
}

impl<'a, const BITS: u32, const BE: bool> Yuv422pFrame16<'a, BITS, BE> {
    #[verifier::type_invariant]
    closed spec fn wf(&self) -> bool {
        yuv422p_check(
            self.y@.len() as int,
            self.u@.len() as int,
            self.v@.len() as int,
            self.width,
            self.height,
            self.y_stride,
            self.u_stride,
            self.v_stride,
            BITS,
        ) is Ok
    }

    /// Constructs a new frame, validating dimensions, strides and plane
    /// lengths; reports the first check that fails.
    pub fn try_new(
        y: &'a [u16],
        u: &'a [u16],
        v: &'a [u16],
        width: u32,
        height: u32,
        y_stride: u32,
        u_stride: u32,
        v_stride: u32,
    ) -> (res: Result<Self, Yuv420pFrame16Error>)
        ensures
            outcome(res) == yuv422p_check(
                y@.len() as int,
                u@.len() as int,
                v@.len() as int,
                width,
                height,
                y_stride,
                u_stride,
                v_stride,
                BITS,
            ),
            res is Ok <==> ({
                &&& (BITS == 9 || BITS == 10 || BITS == 12 || BITS == 14 || BITS == 16)
                &&& width > 0 && height > 0
                &&& width % 2 == 0
                &&& y_stride >= width
                &&& u_stride >= (width + 1) / 2
                &&& v_stride >= (width + 1) / 2
                &&& y_stride * height <= usize::MAX
                &&& y@.len() >= y_stride * height
                &&& u_stride * height <= usize::MAX
                &&& u@.len() >= u_stride * height
                &&& v_stride * height <= usize::MAX
                &&& v@.len() >= v_stride * height
            }),
            res matches Ok(f) ==> f@ == three_planes(
                width,
                height,
                y@,
                u@,
                v@,
                y_stride,
                u_stride,
                v_stride,
            ),
    {
        proof {
            lemma_yuv422p_accepts(
                y@.len() as int,
                u@.len() as int,
                v@.len() as int,
                width,
                height,
                y_stride,
                u_stride,
                v_stride,
                BITS,
            );
        }
        if BITS != 9 && BITS != 10 && BITS != 12 && BITS != 14 && BITS != 16 {
            return Err(Yuv420pFrame16Error::UnsupportedBits(UnsupportedBits::new(BITS)));
        }
        if width == 0 || height == 0 {
            return Err(Yuv420pFrame16Error::ZeroDimension(ZeroDimension::new(width, height)));
        }
        proof {
            lemma_low_bit_is_parity(width);
        }
        if width & 1 != 0 {
            return Err(Yuv420pFrame16Error::WidthAlignment(WidthAlignment::odd(width as usize)));
        }
        if y_stride < width {
            return Err(
                Yuv420pFrame16Error::InsufficientYStride(InsufficientStride::new(y_stride, width)),
            );
        }
        let chroma_width = div_ceil2(width);
        if u_stride < chroma_width {
            return Err(
                Yuv420pFrame16Error::InsufficientUStride(
                    InsufficientStride::new(u_stride, chroma_width),
                ),
            );
        }
        if v_stride < chroma_width {
            return Err(
                Yuv420pFrame16Error::InsufficientVStride(
                    InsufficientStride::new(v_stride, chroma_width),
                ),
            );
        }
        let y_min = match (y_stride as usize).checked_mul(height as usize) {
            Some(v) => v,
            None => {
                return Err(
                    Yuv420pFrame16Error::GeometryOverflow(GeometryOverflow::new(y_stride, height)),
                );
            },
        };
        if y.len() < y_min {
            return Err(
                Yuv420pFrame16Error::InsufficientYPlane(InsufficientPlane::new(y_min, y.len())),
            );
        }
        let u_min = match (u_stride as usize).checked_mul(height as usize) {
            Some(v) => v,
            None => {
                return Err(
                    Yuv420pFrame16Error::GeometryOverflow(GeometryOverflow::new(u_stride, height)),
                );
            },
        };
        if u.len() < u_min {
            return Err(
                Yuv420pFrame16Error::InsufficientUPlane(InsufficientPlane::new(u_min, u.len())),
            );
        }
        let v_min = match (v_stride as usize).checked_mul(height as usize) {
            Some(v) => v,
            None => {
                return Err(
                    Yuv420pFrame16Error::GeometryOverflow(GeometryOverflow::new(v_stride, height)),
                );
            },
        };
        if v.len() < v_min {
            return Err(
                Yuv420pFrame16Error::InsufficientVPlane(InsufficientPlane::new(v_min, v.len())),
            );
        }
        Ok(Yuv422pFrame16 { y, u, v, width, height, y_stride, u_stride, v_stride })
    }

    /// Constructs a new frame from inputs that `try_new` accepts.
    pub fn new(
        y: &'a [u16],
        u: &'a [u16],
        v: &'a [u16],
        width: u32,
        height: u32,
        y_stride: u32,
        u_stride: u32,
        v_stride: u32,
    ) -> (res: Self)
        requires
            yuv422p_check(
                y@.len() as int,
                u@.len() as int,
                v@.len() as int,
                width,
                height,
                y_stride,
                u_stride,
                v_stride,
                BITS,
            ) is Ok,
        ensures
            res@ == three_planes(width, height, y@, u@, v@, y_stride, u_stride, v_stride),
    {
        Self::try_new(y, u, v, width, height, y_stride, u_stride, v_stride).expect(
            "invalid Yuv422pFrame16 dimensions or plane lengths",
        )
    }

    /// Like `try_new`, and also checks that no active sample of the Y, U and
    /// V planes (scanned in that order, row by row) exceeds `(1 << BITS) - 1`.
    #[verifier::rlimit(20)]
    pub fn try_new_checked(
        y: &'a [u16],
        u: &'a [u16],
        v: &'a [u16],
        width: u32,
        height: u32,
        y_stride: u32,
        u_stride: u32,
        v_stride: u32,
    ) -> (res: Result<Self, Yuv420pFrame16Error>)
        ensures
            ({
                let check = yuv422p_check(
                    y@.len() as int,
                    u@.len() as int,
                    v@.len() as int,
                    width,
                    height,
                    y_stride,
                    u_stride,
                    v_stride,
                    BITS,
                );
                let area = yuv422p_area(y@, u@, v@, width, height, y_stride, u_stride, v_stride);
                let view = three_planes(width, height, y@, u@, v@, y_stride, u_stride, v_stride);
                &&& check is Err ==> outcome(res) == check
                &&& check is Ok ==> match res {
                    Ok(f) => {
                        &&& area.keeps(BE, SampleRule::AtMost(max_sample(BITS)), 3)
                        &&& f@ == view
                    },
                    Err(e) => yuv_out_of_range(area, BE, max_sample(BITS), e),
                }
            }),
    {
        let frame = match Self::try_new(y, u, v, width, height, y_stride, u_stride, v_stride) {
            Ok(f) => f,
            Err(e) => {
                return Err(e);
            },
        };
        let ghost area = yuv422p_area(y@, u@, v@, width, height, y_stride, u_stride, v_stride);
        if BITS == 16 {
            proof {
                lemma_sixteen_bit_samples_in_range(area, BE);
            }
            return Ok(frame);
        }
        let max_valid = max_sample_value(BITS);
        let rule = SampleRule::AtMost(max_valid);
        if let Some((index, value)) = first_breaking_sample(
            y,
            y_stride,
            width,
            height,
            BE,
            rule,
        ) {
            return Err(
                Yuv420pFrame16Error::SampleOutOfRange(
                    Yuv420pFrame16SampleOutOfRange::new(
                        Yuv420pFrame16Plane::Y,
                        index,
                        value,
                        max_valid,
                    ),
                ),
            );
        }
        assert(area.keeps(BE, rule, 1));
        if let Some((index, value)) = first_breaking_sample(
            u,
            u_stride,
            width / 2,
            height,
            BE,
            rule,
        ) {
            return Err(
                Yuv420pFrame16Error::SampleOutOfRange(
                    Yuv420pFrame16SampleOutOfRange::new(
                        Yuv420pFrame16Plane::U,
                        index,
                        value,
                        max_valid,
                    ),
                ),
            );
        }
        assert(area.keeps(BE, rule, 2));
        if let Some((index, value)) = first_breaking_sample(
            v,
            v_stride,
            width / 2,
            height,
            BE,
            rule,
        ) {
            return Err(
                Yuv420pFrame16Error::SampleOutOfRange(
                    Yuv420pFrame16SampleOutOfRange::new(
                        Yuv420pFrame16Plane::V,
                        index,
                        value,
                        max_valid,
                    ),
                ),
            );
        }
        assert(area.keeps(BE, rule, 3));
        Ok(frame)
    }

    /// Y (luma) plane. Row `r` starts at element `r * y_stride()`.
    pub fn y(&self) -> (r: &'a [u16])
        ensures
            r@ == self@.planes[0],
            yuv422p_valid(self@, BITS),
    {
        proof {
            use_type_invariant(self);
        }
        self.y
    }

    /// U (Cb) plane. Row `r` starts at element `r * u_stride()`.
    pub fn u(&self) -> (r: &'a [u16])
        ensures
            r@ == self@.planes[1],
            yuv422p_valid(self@, BITS),
    {
        proof {
            use_type_invariant(self);
        }
        self.u
    }

    /// V (Cr) plane. Row `r` starts at element `r * v_stride()`.
    pub fn v(&self) -> (r: &'a [u16])
        ensures
            r@ == self@.planes[2],
            yuv422p_valid(self@, BITS),
    {
        proof {
            use_type_invariant(self);
        }
        self.v
    }

    /// Frame width in pixels.
    pub fn width(&self) -> (r: u32)
        ensures
            r == self@.width,
            yuv422p_valid(self@, BITS),
    {
        proof {
            use_type_invariant(self);
        }
        self.width
    }

    /// Frame height in pixels.
    pub fn height(&self) -> (r: u32)
        ensures
            r == self@.height,
            yuv422p_valid(self@, BITS),
    {
        proof {
            use_type_invariant(self);
        }
        self.height
    }

    /// Stride of the Y plane in elements.
    pub fn y_stride(&self) -> (r: u32)
        ensures
            r == self@.strides[0],
            yuv422p_valid(self@, BITS),
    {
        proof {
            use_type_invariant(self);
        }
        self.y_stride
    }

    /// Stride of the U plane in elements.
    pub fn u_stride(&self) -> (r: u32)
        ensures
            r == self@.strides[1],
            yuv422p_valid(self@, BITS),
    {
        proof {
            use_type_invariant(self);
        }
        self.u_stride
    }

    /// Stride of the V plane in elements.
    pub fn v_stride(&self) -> (r: u32)
        ensures
            r == self@.strides[2],
            yuv422p_valid(self@, BITS),
    {
        proof {
            use_type_invariant(self);
        }
        self.v_stride
    }

    /// The bit depth `BITS`.
    pub fn bits(&self) -> (r: u32)
        ensures
            r == BITS,
    {
        BITS
    }

    /// Whether the stored samples are big-endian (`BE`).
    pub fn is_be(&self) -> (r: bool)
        ensures
            r == BE,
    {
        BE
    }
}

/// The active areas of a 4:4:4 frame: all three planes at full size.
pub open spec fn yuv444p_area(
    y: Seq<u16>,
    u: Seq<u16>,
    v: Seq<u16>,
    width: u32,
    height: u32,
    y_stride: u32,
    u_stride: u32,
    v_stride: u32,
) -> ScanArea {
    ScanArea {
        planes: seq![y, u, v],
        strides: seq![y_stride, u_stride, v_stride],
        widths: seq![width, width, width],
        rows: seq![height, height, height],
    }
}

/// What `Yuv444pFrame16::try_new` decides.
pub open spec fn yuv444p_check(
    y_len: int,
    u_len: int,
    v_len: int,
    width: u32,
    height: u32,
    y_stride: u32,
    u_stride: u32,
    v_stride: u32,
    bits: u32,
) -> Result<(), Yuv420pFrame16Error> {
    if !(bits == 9 || bits == 10 || bits == 12 || bits == 14 || bits == 16) {
        Err(Yuv420pFrame16Error::UnsupportedBits(UnsupportedBits { bits }))
    } else if width == 0 || height == 0 {
        Err(Yuv420pFrame16Error::ZeroDimension(ZeroDimension { width, height }))
    } else if y_stride < width {
        Err(Yuv420pFrame16Error::InsufficientYStride(short_stride(y_stride, width)))
    } else if u_stride < width {
        Err(Yuv420pFrame16Error::InsufficientUStride(short_stride(u_stride, width)))
    } else if v_stride < width {
        Err(Yuv420pFrame16Error::InsufficientVStride(short_stride(v_stride, width)))
    } else if !plane_fits(y_stride, height) {
        Err(Yuv420pFrame16Error::GeometryOverflow(overflow(y_stride, height)))
    } else if y_len < plane_need(y_stride, height) {
        Err(Yuv420pFrame16Error::InsufficientYPlane(short_plane(y_stride, height, y_len)))
    } else if !plane_fits(u_stride, height) {
        Err(Yuv420pFrame16Error::GeometryOverflow(overflow(u_stride, height)))
    } else if u_len < plane_need(u_stride, height) {
        Err(Yuv420pFrame16Error::InsufficientUPlane(short_plane(u_stride, height, u_len)))
    } else if !plane_fits(v_stride, height) {
        Err(Yuv420pFrame16Error::GeometryOverflow(overflow(v_stride, height)))
    } else if v_len < plane_need(v_stride, height) {
        Err(Yuv420pFrame16Error::InsufficientVPlane(short_plane(v_stride, height, v_len)))
    } else {
        Ok(())
    }
}

/// The inputs that `Yuv444pFrame16::try_new` accepts, stated directly: non-zero
/// dimensions, each stride covering a row of its plane, each plane
/// holding its rows; a rejection reports the offending values.
pub proof fn lemma_yuv444p_accepts(
    y_len: int,
    u_len: int,
    v_len: int,
    width: u32,
    height: u32,
    y_stride: u32,
    u_stride: u32,
    v_stride: u32,
    bits: u32,
)
    ensures
        ({
            let check = yuv444p_check(
                y_len,
                u_len,
                v_len,
                width,
                height,
                y_stride,
                u_stride,
                v_stride,
                bits,
            );
            &&& check is Ok <==> {
                &&& (bits == 9 || bits == 10 || bits == 12 || bits == 14 || bits == 16)
                &&& width > 0 && height > 0
                &&& y_stride >= width
                &&& u_stride >= width
                &&& v_stride >= width
                &&& y_stride * height <= usize::MAX
                &&& y_len >= y_stride * height
                &&& u_stride * height <= usize::MAX
                &&& u_len >= u_stride * height
                &&& v_stride * height <= usize::MAX
                &&& v_len >= v_stride * height
            }
            &&& check matches Err(Yuv420pFrame16Error::ZeroDimension(e)) ==> {
                &&& e.width == width
                &&& e.height == height
            }
            &&& check matches Err(Yuv420pFrame16Error::InsufficientYStride(e)) ==> {
                &&& e.stride == y_stride
                &&& e.min_stride == width
                &&& y_stride < width
            }
            &&& check matches Err(Yuv420pFrame16Error::InsufficientUStride(e)) ==> {
                &&& e.stride == u_stride
                &&& e.min_stride == width
                &&& u_stride < width
            }
            &&& check matches Err(Yuv420pFrame16Error::InsufficientVStride(e)) ==> {
                &&& e.stride == v_stride
                &&& e.min_stride == width
                &&& v_stride < width
            }
            &&& check matches Err(Yuv420pFrame16Error::InsufficientYPlane(e)) ==> {
                &&& e.expected == y_stride * height
                &&& y_len < y_stride * height
            }
            &&& check matches Err(Yuv420pFrame16Error::InsufficientUPlane(e)) ==> {
                &&& e.expected == u_stride * height
                &&& u_len < u_stride * height
            }
            &&& check matches Err(Yuv420pFrame16Error::InsufficientVPlane(e)) ==> {
                &&& e.expected == v_stride * height
                &&& v_len < v_stride * height
            }
        }),
{
}

/// A validated planar 4:4:4 YUV frame with `BITS` (9, 10, 12, 14 or 16)
/// active low bits per `u16` sample (FFmpeg `yuv444p9`..`yuv444p16`).
#[derive(Debug, Clone, Copy)]
pub struct Yuv444pFrame16<'a, const BITS: u32, const BE: bool> {
    y: &'a [u16],
    u: &'a [u16],
    v: &'a [u16],
    width: u32,
    height: u32,
    y_stride: u32,
    u_stride: u32,
    v_stride: u32,
}

/// 9-bit little-endian `Yuv444pFrame16`.
pub type Yuv444p9Frame<'a> = Yuv444pFrame16<'a, 9, false>;
/// 10-bit little-endian `Yuv444pFrame16`.
pub type Yuv444p10Frame<'a> = Yuv444pFrame16<'a, 10, false>;
/// 12-bit little-endian `Yuv444pFrame16`.
pub type Yuv444p12Frame<'a> = Yuv444pFrame16<'a, 12, false>;
/// 14-bit little-endian `Yuv444pFrame16`.
pub type Yuv444p14Frame<'a> = Yuv444pFrame16<'a, 14, false>;
/// 16-bit little-endian `Yuv444pFrame16`.
pub type Yuv444p16Frame<'a> = Yuv444pFrame16<'a, 16, false>;
/// `AV_PIX_FMT_YUV444P9LE`.
pub type Yuv444p9LeFrame<'a> = Yuv444pFrame16<'a, 9, false>;
/// `AV_PIX_FMT_YUV444P9BE`.
pub type Yuv444p9BeFrame<'a> = Yuv444pFrame16<'a, 9, true>;
/// `AV_PIX_FMT_YUV444P10LE`.
pub type Yuv444p10LeFrame<'a> = Yuv444pFrame16<'a, 10, false>;
/// `AV_PIX_FMT_YUV444P10BE`.
pub type Yuv444p10BeFrame<'a> = Yuv444pFrame16<'a, 10, true>;
/// `AV_PIX_FMT_YUV444P12LE`.
pub type Yuv444p12LeFrame<'a> = Yuv444pFrame16<'a, 12, false>;
/// `AV_PIX_FMT_YUV444P12BE`.
pub type Yuv444p12BeFrame<'a> = Yuv444pFrame16<'a, 12, true>;
/// `AV_PIX_FMT_YUV444P14LE`.
pub type Yuv444p14LeFrame<'a> = Yuv444pFrame16<'a, 14, false>;
/// `AV_PIX_FMT_YUV444P14BE`.
pub type Yuv444p14BeFrame<'a> = Yuv444pFrame16<'a, 14, true>;
/// `AV_PIX_FMT_YUV444P16LE`.
pub type Yuv444p16LeFrame<'a> = Yuv444pFrame16<'a, 16, false>;
/// `AV_PIX_FMT_YUV444P16BE`.
pub type Yuv444p16BeFrame<'a> = Yuv444pFrame16<'a, 16, true>;

impl<'a, const BITS: u32, const BE: bool> View for Yuv444pFrame16<'a, BITS, BE> {
    type V = FrameView<u16>;

    closed spec fn view(&self) -> FrameView<u16> {
        three_planes(
            self.width,
            self.height,
            self.y@,
            self.u@,
            self.v@,
            self.y_stride,
            self.u_stride,
            self.v_stride,
        )
    }
}

/// `v` is the view of a `Yuv444pFrame16` that `try_new` accepts: every frame
/// of the type has such a view.
pub open spec fn yuv444p_valid(v: FrameView<u16>, bits: u32) -> bool {
    &&& v.planes.len() == 3
    &&& v.strides.len() == 3
    &&& yuv444p_check(
        v.planes[0].len() as int,
        v.planes[1].len() as int,
        v.planes[2].len() as int,
        v.width,
        v.height,
        v.strides[0],
        v.strides[1],
        v.strides[2],
        bits,
    ) is Ok
}

impl<'a, const BITS: u32, const BE: bool> Yuv444pFrame16<'a, BITS, BE> {
    #[verifier::type_invariant]
    closed spec fn wf(&self) -> bool {
        yuv444p_check(
            self.y@.len() as int,
            self.u@.len() as int,
            self.v@.len() as int,
            self.width,
            self.height,
            self.y_stride,
            self.u_stride,
            self.v_stride,
            BITS,
        ) is Ok
    }

    /// Constructs a new frame, validating dimensions, strides and plane
    /// lengths; reports the first check that fails.
    pub fn try_new(
        y: &'a [u16],
        u: &'a [u16],
        v: &'a [u16],
        width: u32,
        height: u32,
        y_stride: u32,
        u_stride: u32,
        v_stride: u32,
    ) -> (res: Result<Self, Yuv420pFrame16Error>)
        ensures
            outcome(res) == yuv444p_check(
                y@.len() as int,
                u@.len() as int,
                v@.len() as int,
                width,
                height,
                y_stride,
                u_stride,
                v_stride,
                BITS,
            ),
            res is Ok <==> ({
                &&& (BITS == 9 || BITS == 10 || BITS == 12 || BITS == 14 || BITS == 16)
                &&& width > 0 && height > 0
                &&& y_stride >= width
                &&& u_stride >= width
                &&& v_stride >= width
                &&& y_stride * height <= usize::MAX
                &&& y@.len() >= y_stride * height
                &&& u_stride * height <= usize::MAX
                &&& u@.len() >= u_stride * height
                &&& v_stride * height <= usize::MAX
                &&& v@.len() >= v_stride * height
            }),
            res matches Ok(f) ==> f@ == three_planes(
                width,
                height,
                y@,
                u@,
                v@,
                y_stride,
                u_stride,
                v_stride,
            ),
    {
        proof {
            lemma_yuv444p_accepts(
                y@.len() as int,
                u@.len() as int,
                v@.len() as int,
                width,
                height,
                y_stride,
                u_stride,
                v_stride,
                BITS,
            );
        }
        if BITS != 9 && BITS != 10 && BITS != 12 && BITS != 14 && BITS != 16 {
            return Err(Yuv420pFrame16Error::UnsupportedBits(UnsupportedBits::new(BITS)));
        }
        if width == 0 || height == 0 {
            return Err(Yuv420pFrame16Error::ZeroDimension(ZeroDimension::new(width, height)));
        }
        if y_stride < width {
            return Err(
                Yuv420pFrame16Error::InsufficientYStride(InsufficientStride::new(y_stride, width)),
            );
        }
        if u_stride < width {
            return Err(
                Yuv420pFrame16Error::InsufficientUStride(InsufficientStride::new(u_stride, width)),
            );
        }
        if v_stride < width {
            return Err(
                Yuv420pFrame16Error::InsufficientVStride(InsufficientStride::new(v_stride, width)),
            );
        }
        let y_min = match (y_stride as usize).checked_mul(height as usize) {
            Some(v) => v,
            None => {
                return Err(
                    Yuv420pFrame16Error::GeometryOverflow(GeometryOverflow::new(y_stride, height)),
                );
            },
        };
        if y.len() < y_min {
            return Err(
                Yuv420pFrame16Error::InsufficientYPlane(InsufficientPlane::new(y_min, y.len())),
            );
        }
        let u_min = match (u_stride as usize).checked_mul(height as usize) {
            Some(v) => v,
            None => {
                return Err(
                    Yuv420pFrame16Error::GeometryOverflow(GeometryOverflow::new(u_stride, height)),
                );
            },
        };
        if u.len() < u_min {
            return Err(
                Yuv420pFrame16Error::InsufficientUPlane(InsufficientPlane::new(u_min, u.len())),
            );
        }
        let v_min = match (v_stride as usize).checked_mul(height as usize) {
            Some(v) => v,
            None => {
                return Err(
                    Yuv420pFrame16Error::GeometryOverflow(GeometryOverflow::new(v_stride, height)),
                );
            },
        };
        if v.len() < v_min {
            return Err(
                Yuv420pFrame16Error::InsufficientVPlane(InsufficientPlane::new(v_min, v.len())),
            );
        }
        Ok(Yuv444pFrame16 { y, u, v, width, height, y_stride, u_stride, v_stride })
    }

    /// Constructs a new frame from inputs that `try_new` accepts.
    pub fn new(
        y: &'a [u16],
        u: &'a [u16],
        v: &'a [u16],
        width: u32,
        height: u32,
        y_stride: u32,
        u_stride: u32,
        v_stride: u32,
    ) -> (res: Self)
        requires
            yuv444p_check(
                y@.len() as int,
                u@.len() as int,
                v@.len() as int,
                width,
                height,
                y_stride,
                u_stride,
                v_stride,
                BITS,
            ) is Ok,
        ensures
            res@ == three_planes(width, height, y@, u@, v@, y_stride, u_stride, v_stride),
    {
        Self::try_new(y, u, v, width, height, y_stride, u_stride, v_stride).expect(
            "invalid Yuv444pFrame16 dimensions or plane lengths",
        )
    }

    /// Like `try_new`, and also checks that no active sample of the Y, U and
    /// V planes (scanned in that order, row by row) exceeds `(1 << BITS) - 1`.
    #[verifier::rlimit(20)]
    pub fn try_new_checked(
        y: &'a [u16],
        u: &'a [u16],
        v: &'a [u16],
        width: u32,
        height: u32,
        y_stride: u32,
        u_stride: u32,
        v_stride: u32,
    ) -> (res: Result<Self, Yuv420pFrame16Error>)
        ensures
            ({
                let check = yuv444p_check(
                    y@.len() as int,
                    u@.len() as int,
                    v@.len() as int,
                    width,
                    height,
                    y_stride,
                    u_stride,
                    v_stride,
                    BITS,
                );
                let area = yuv444p_area(y@, u@, v@, width, height, y_stride, u_stride, v_stride);
                let view = three_planes(width, height, y@, u@, v@, y_stride, u_stride, v_stride);
                &&& check is Err ==> outcome(res) == check
                &&& check is Ok ==> match res {
                    Ok(f) => {
                        &&& area.keeps(BE, SampleRule::AtMost(max_sample(BITS)), 3)
                        &&& f@ == view
                    },
                    Err(e) => yuv_out_of_range(area, BE, max_sample(BITS), e),
                }
            }),
    {
        let frame = match Self::try_new(y, u, v, width, height, y_stride, u_stride, v_stride) {
            Ok(f) => f,
            Err(e) => {
                return Err(e);
            },
        };
        let ghost area = yuv444p_area(y@, u@, v@, width, height, y_stride, u_stride, v_stride);
        if BITS == 16 {
            proof {
                lemma_sixteen_bit_samples_in_range(area, BE);
            }
            return Ok(frame);
        }
        let max_valid = max_sample_value(BITS);
        let rule = SampleRule::AtMost(max_valid);
        if let Some((index, value)) = first_breaking_sample(
            y,
            y_stride,
            width,
            height,
            BE,
            rule,
        ) {
            return Err(
                Yuv420pFrame16Error::SampleOutOfRange(
                    Yuv420pFrame16SampleOutOfRange::new(
                        Yuv420pFrame16Plane::Y,
                        index,
                        value,
                        max_valid,
                    ),
                ),
            );
        }
        assert(area.keeps(BE, rule, 1));
        if let Some((index, value)) = first_breaking_sample(
            u,
            u_stride,
            width,
            height,
            BE,
            rule,
        ) {
            return Err(
                Yuv420pFrame16Error::SampleOutOfRange(
                    Yuv420pFrame16SampleOutOfRange::new(
                        Yuv420pFrame16Plane::U,
                        index,
                        value,
                        max_valid,
                    ),
                ),
            );
        }
        assert(area.keeps(BE, rule, 2));
        if let Some((index, value)) = first_breaking_sample(
            v,
            v_stride,
            width,
            height,
            BE,
            rule,
        ) {
            return Err(
                Yuv420pFrame16Error::SampleOutOfRange(
                    Yuv420pFrame16SampleOutOfRange::new(
                        Yuv420pFrame16Plane::V,
                        index,
                        value,
                        max_valid,
                    ),
                ),
            );
        }
        assert(area.keeps(BE, rule, 3));
        Ok(frame)
    }

    /// Y (luma) plane. Row `r` starts at element `r * y_stride()`.
    pub fn y(&self) -> (r: &'a [u16])
        ensures
            r@ == self@.planes[0],
            yuv444p_valid(self@, BITS),
    {
        proof {
            use_type_invariant(self);
        }
        self.y
    }

    /// U (Cb) plane. Row `r` starts at element `r * u_stride()`.
    pub fn u(&self) -> (r: &'a [u16])
        ensures
            r@ == self@.planes[1],
            yuv444p_valid(self@, BITS),
    {
        proof {
            use_type_invariant(self);
        }
        self.u
    }

    /// V (Cr) plane. Row `r` starts at element `r * v_stride()`.
    pub fn v(&self) -> (r: &'a [u16])
        ensures
            r@ == self@.planes[2],
            yuv444p_valid(self@, BITS),
    {
        proof {
            use_type_invariant(self);
        }
        self.v
    }

    /// Frame width in pixels.
    pub fn width(&self) -> (r: u32)
        ensures
            r == self@.width,
            yuv444p_valid(self@, BITS),
    {
        proof {
            use_type_invariant(self);
        }
        self.width
    }

    /// Frame height in pixels.
    pub fn height(&self) -> (r: u32)
        ensures
            r == self@.height,
            yuv444p_valid(self@, BITS),
    {
        proof {
            use_type_invariant(self);
        }
        self.height
    }

    /// Stride of the Y plane in elements.
    pub fn y_stride(&self) -> (r: u32)
        ensures
            r == self@.strides[0],
            yuv444p_valid(self@, BITS),
    {
        proof {
            use_type_invariant(self);
        }
        self.y_stride
    }

    /// Stride of the U plane in elements.
    pub fn u_stride(&self) -> (r: u32)
        ensures
            r == self@.strides[1],
            yuv444p_valid(self@, BITS),
    {
        proof {
            use_type_invariant(self);
        }
        self.u_stride
    }

    /// Stride of the V plane in elements.
    pub fn v_stride(&self) -> (r: u32)
        ensures
            r == self@.strides[2],
            yuv444p_valid(self@, BITS),
    {
        proof {
            use_type_invariant(self);
        }
        self.v_stride
    }

    /// The bit depth `BITS`.
    pub fn bits(&self) -> (r: u32)
        ensures
            r == BITS,
    {
        BITS
    }

    /// Whether the stored samples are big-endian (`BE`).
    pub fn is_be(&self) -> (r: bool)
        ensures
            r == BE,
    {
        BE
    }
}

/// Errors returned by the constructors of `Yuv420pFrame16`,
/// `Yuv422pFrame16`, `Yuv444pFrame16` and `Yuv440pFrame16`.
#[derive(Debug, Clone, Copy, PartialEq, Eq, Hash)]
#[non_exhaustive]
pub enum Yuv420pFrame16Error {
    /// `BITS` is not a bit depth the frame type supports.
    UnsupportedBits(UnsupportedBits),
    /// `width` or `height` was zero.
    ZeroDimension(ZeroDimension),
    /// `width` is odd where chroma is subsampled horizontally.
    WidthAlignment(WidthAlignment),
    /// `y_stride < width`.
    InsufficientYStride(InsufficientStride),
    /// `u_stride` is shorter than a chroma row.
    InsufficientUStride(InsufficientStride),
    /// `v_stride` is shorter than a chroma row.
    InsufficientVStride(InsufficientStride),
    /// The Y plane is shorter than `y_stride * height` samples.
    InsufficientYPlane(InsufficientPlane),
    /// The U plane is shorter than `u_stride` times its row count.
    InsufficientUPlane(InsufficientPlane),
    /// The V plane is shorter than `v_stride` times its row count.
    InsufficientVPlane(InsufficientPlane),
    /// `stride * rows` overflows `usize`.
    GeometryOverflow(GeometryOverflow),
    /// An active sample exceeds `(1 << BITS) - 1` (`try_new_checked` only).
    SampleOutOfRange(Yuv420pFrame16SampleOutOfRange),
}

/// An active sample above the largest valid value: its plane, its element
/// index in that plane, its value in the frame's byte order, and the
/// largest valid value `(1 << BITS) - 1`.
#[derive(Debug, Clone, Copy, PartialEq, Eq, Hash)]
pub struct Yuv420pFrame16SampleOutOfRange {
    pub plane: Yuv420pFrame16Plane,
    pub index: usize,
    pub value: u16,
    pub max_valid: u16,
}

impl Yuv420pFrame16SampleOutOfRange {
    pub fn new(plane: Yuv420pFrame16Plane, index: usize, value: u16, max_valid: u16) -> (r: Self)
        ensures
            r == (Yuv420pFrame16SampleOutOfRange { plane, index, value, max_valid }),
    {
        Yuv420pFrame16SampleOutOfRange { plane, index, value, max_valid }
    }

    pub fn plane(&self) -> (r: Yuv420pFrame16Plane)
        ensures
            r == self.plane,
    {
        self.plane
    }

    pub fn index(&self) -> (r: usize)
        ensures
            r == self.index,
    {
        self.index
    }

    pub fn value(&self) -> (r: u16)
        ensures
            r == self.value,
    {
        self.value
    }

    pub fn max_valid(&self) -> (r: u16)
        ensures
            r == self.max_valid,
    {
        self.max_valid
    }
}

/// The plane of a planar YUV frame that holds an offending sample.
#[derive(Debug, Clone, Copy, PartialEq, Eq, Hash)]
pub enum Yuv420pFrame16Plane {
    Y,
    U,
    V,
}

impl Yuv420pFrame16Plane {
    /// The plane's name, as the frame's error messages print it.
    pub fn as_str(&self) -> (r: &'static str)
        ensures
            r@ == (match self {
                Yuv420pFrame16Plane::Y => "Y"@,
                Yuv420pFrame16Plane::U => "U"@,
                Yuv420pFrame16Plane::V => "V"@,
            }),
    {
        match self {
            Yuv420pFrame16Plane::Y => "Y",
            Yuv420pFrame16Plane::U => "U",
            Yuv420pFrame16Plane::V => "V",
        }
    }
}

/// The plane of a YUV 4:4:4 MSB frame that holds an offending sample.
#[derive(Debug, Clone, Copy, PartialEq, Eq, Hash)]
pub enum Yuv444pMsbFramePlane {
    Y,
    U,
    V,
}

impl Yuv444pMsbFramePlane {
    /// The plane's name, as the frame's error messages print it.
    pub fn as_str(&self) -> (r: &'static str)
        ensures
            r@ == (match self {
                Yuv444pMsbFramePlane::Y => "Y"@,
                Yuv444pMsbFramePlane::U => "U"@,
                Yuv444pMsbFramePlane::V => "V"@,
            }),
    {
        match self {
            Yuv444pMsbFramePlane::Y => "Y",
            Yuv444pMsbFramePlane::U => "U",
            Yuv444pMsbFramePlane::V => "V",
        }
    }
}

/// An active YUV 4:4:4 MSB sample with a low bit set: its plane, its
/// element index in that plane, and its value in the frame's byte order.
#[derive(Debug, Clone, Copy, PartialEq, Eq, Hash)]
pub struct Yuv444pMsbStrayLowBits {
    pub plane: Yuv444pMsbFramePlane,
    pub index: usize,
    pub value: u16,
}

impl Yuv444pMsbStrayLowBits {
    pub fn new(plane: Yuv444pMsbFramePlane, index: usize, value: u16) -> (r: Self)
        ensures
            r == (Yuv444pMsbStrayLowBits { plane, index, value }),
    {
        Yuv444pMsbStrayLowBits { plane, index, value }
    }

    pub fn plane(&self) -> (r: Yuv444pMsbFramePlane)
        ensures
            r == self.plane,
    {
        self.plane
    }

    pub fn index(&self) -> (r: usize)
        ensures
            r == self.index,
    {
        self.index
    }

    pub fn value(&self) -> (r: u16)
        ensures
            r == self.value,
    {
        self.value
    }
}

/// The index of a YUV 4:4:4 MSB plane in scan order.
pub open spec fn yuv444p_msb_plane_index(p: Yuv444pMsbFramePlane) -> int {
    match p {
        Yuv444pMsbFramePlane::Y => 0,
        Yuv444pMsbFramePlane::U => 1,
        Yuv444pMsbFramePlane::V => 2,
    }
}

/// `e` reports the first active sample, scanning Y, U then V row by row,
/// with a bit of `low_mask` set.
pub open spec fn yuv444p_msb_stray(
    area: ScanArea,
    be: bool,
    low_mask: u16,
    e: Yuv444pMsbFrameError,
) -> bool {
    match e {
        Yuv444pMsbFrameError::StrayLowBits(p) => area.first_break_in(
            be,
            SampleRule::ClearBits(low_mask),
            yuv444p_msb_plane_index(p.plane),
            p.index,
            p.value,
        ),
        _ => false,
    }
}

/// Errors returned by `Yuv444pMsbFrame::try_new` and
/// `Yuv444pMsbFrame::try_new_checked`.
#[derive(Debug, Clone, Copy, PartialEq, Eq, Hash)]
#[non_exhaustive]
pub enum Yuv444pMsbFrameError {
    /// `width` or `height` was zero.
    ZeroDimension(ZeroDimension),
    /// `y_stride < width`.
    InsufficientYStride(InsufficientStride),
    /// `u_stride < width`.
    InsufficientUStride(InsufficientStride),
    /// `v_stride < width`.
    InsufficientVStride(InsufficientStride),
    /// The Y plane is shorter than `y_stride * height` samples.
    InsufficientYPlane(InsufficientPlane),
    /// The U plane is shorter than `u_stride * height` samples.
    InsufficientUPlane(InsufficientPlane),
    /// The V plane is shorter than `v_stride * height` samples.
    InsufficientVPlane(InsufficientPlane),
    /// `stride * height` overflows `usize`.
    GeometryOverflow(GeometryOverflow),
    /// An active sample has one of its low `16 - BITS` bits set (`try_new_checked` only).
    StrayLowBits(Yuv444pMsbStrayLowBits),
}

/// What `Yuv444pMsbFrame::try_new` decides.
pub open spec fn yuv444p_msb_check(
    y_len: int,
    u_len: int,
    v_len: int,
    width: u32,
    height: u32,
    y_stride: u32,
    u_stride: u32,
    v_stride: u32,
) -> Result<(), Yuv444pMsbFrameError> {
    if width == 0 || height == 0 {
        Err(Yuv444pMsbFrameError::ZeroDimension(ZeroDimension { width, height }))
    } else if y_stride < width {
        Err(Yuv444pMsbFrameError::InsufficientYStride(short_stride(y_stride, width)))
    } else if u_stride < width {
        Err(Yuv444pMsbFrameError::InsufficientUStride(short_stride(u_stride, width)))
    } else if v_stride < width {
        Err(Yuv444pMsbFrameError::InsufficientVStride(short_stride(v_stride, width)))
    } else if !plane_fits(y_stride, height) {
        Err(Yuv444pMsbFrameError::GeometryOverflow(overflow(y_stride, height)))
    } else if y_len < plane_need(y_stride, height) {
        Err(Yuv444pMsbFrameError::InsufficientYPlane(short_plane(y_stride, height, y_len)))
    } else if !plane_fits(u_stride, height) {
        Err(Yuv444pMsbFrameError::GeometryOverflow(overflow(u_stride, height)))
    } else if u_len < plane_need(u_stride, height) {
        Err(Yuv444pMsbFrameError::InsufficientUPlane(short_plane(u_stride, height, u_len)))
    } else if !plane_fits(v_stride, height) {
        Err(Yuv444pMsbFrameError::GeometryOverflow(overflow(v_stride, height)))
    } else if v_len < plane_need(v_stride, height) {
        Err(Yuv444pMsbFrameError::InsufficientVPlane(short_plane(v_stride, height, v_len)))
    } else {
        Ok(())
    }
}

/// The inputs that `Yuv444pMsbFrame::try_new` accepts, stated directly: non-zero
/// dimensions, each stride covering a row of its plane, each plane
/// holding its rows; a rejection reports the offending values.
pub proof fn lemma_yuv444p_msb_accepts(
    y_len: int,
    u_len: int,
    v_len: int,
    width: u32,
    height: u32,
    y_stride: u32,
    u_stride: u32,
    v_stride: u32,
)
    ensures
        ({
            let check = yuv444p_msb_check(
                y_len,
                u_len,
                v_len,
                width,
                height,
                y_stride,
                u_stride,
                v_stride,
            );
            &&& check is Ok <==> {
                &&& width > 0 && height > 0
                &&& y_stride >= width
                &&& u_stride >= width
                &&& v_stride >= width
                &&& y_stride * height <= usize::MAX
                &&& y_len >= y_stride * height
                &&& u_stride * height <= usize::MAX
                &&& u_len >= u_stride * height
                &&& v_stride * height <= usize::MAX
                &&& v_len >= v_stride * height
            }
            &&& check matches Err(Yuv444pMsbFrameError::ZeroDimension(e)) ==> {
                &&& e.width == width
                &&& e.height == height
            }
            &&& check matches Err(Yuv444pMsbFrameError::InsufficientYStride(e)) ==> {
                &&& e.stride == y_stride
                &&& e.min_stride == width
                &&& y_stride < width
            }
            &&& check matches Err(Yuv444pMsbFrameError::InsufficientUStride(e)) ==> {
                &&& e.stride == u_stride
                &&& e.min_stride == width
                &&& u_stride < width
            }
            &&& check matches Err(Yuv444pMsbFrameError::InsufficientVStride(e)) ==> {
                &&& e.stride == v_stride
                &&& e.min_stride == width
                &&& v_stride < width
            }
            &&& check matches Err(Yuv444pMsbFrameError::InsufficientYPlane(e)) ==> {
                &&& e.expected == y_stride * height
                &&& y_len < y_stride * height
            }
            &&& check matches Err(Yuv444pMsbFrameError::InsufficientUPlane(e)) ==> {
                &&& e.expected == u_stride * height
                &&& u_len < u_stride * height
            }
            &&& check matches Err(Yuv444pMsbFrameError::InsufficientVPlane(e)) ==> {
                &&& e.expected == v_stride * height
                &&& v_len < v_stride * height
            }
        }),
{
}

/// A validated planar 4:4:4 YUV frame with `BITS` (10 or 12) significant
/// bits in the high end of each `u16` sample (FFmpeg `yuv444p10msb`,
/// `yuv444p12msb`); the low `16 - BITS` bits of a valid sample are zero.
#[derive(Debug, Clone, Copy)]
pub struct Yuv444pMsbFrame<'a, const BITS: u32, const BE: bool> {
    y: &'a [u16],
    u: &'a [u16],
    v: &'a [u16],
    width: u32,
    height: u32,
    y_stride: u32,
    u_stride: u32,
    v_stride: u32,
}

/// 10-bit MSB-packed 4:4:4 YUV.
pub type Yuv444p10MsbFrame<'a, const BE: bool> = Yuv444pMsbFrame<'a, 10, BE>;
/// `AV_PIX_FMT_YUV444P10MSBLE`.
pub type Yuv444p10MsbLeFrame<'a> = Yuv444pMsbFrame<'a, 10, false>;
/// `AV_PIX_FMT_YUV444P10MSBBE`.
pub type Yuv444p10MsbBeFrame<'a> = Yuv444pMsbFrame<'a, 10, true>;
/// 12-bit MSB-packed 4:4:4 YUV.
pub type Yuv444p12MsbFrame<'a, const BE: bool> = Yuv444pMsbFrame<'a, 12, BE>;
/// `AV_PIX_FMT_YUV444P12MSBLE`.
pub type Yuv444p12MsbLeFrame<'a> = Yuv444pMsbFrame<'a, 12, false>;
/// `AV_PIX_FMT_YUV444P12MSBBE`.
pub type Yuv444p12MsbBeFrame<'a> = Yuv444pMsbFrame<'a, 12, true>;

impl<'a, const BITS: u32, const BE: bool> View for Yuv444pMsbFrame<'a, BITS, BE> {
    type V = FrameView<u16>;

    closed spec fn view(&self) -> FrameView<u16> {
        three_planes(
            self.width,
            self.height,
            self.y@,
            self.u@,
            self.v@,
            self.y_stride,
            self.u_stride,
            self.v_stride,
        )
    }
}

/// `v` is the view of a `Yuv444pMsbFrame` that `try_new` accepts: every frame
/// of the type has such a view.
pub open spec fn yuv444p_msb_valid(v: FrameView<u16>) -> bool {
    &&& v.planes.len() == 3
    &&& v.strides.len() == 3
    &&& yuv444p_msb_check(
        v.planes[0].len() as int,
        v.planes[1].len() as int,
        v.planes[2].len() as int,
        v.width,
        v.height,
        v.strides[0],
        v.strides[1],
        v.strides[2],
    ) is Ok
}

impl<'a, const BITS: u32, const BE: bool> Yuv444pMsbFrame<'a, BITS, BE> {
    #[verifier::type_invariant]
    closed spec fn wf(&self) -> bool {
        yuv444p_msb_check(
            self.y@.len() as int,
            self.u@.len() as int,
            self.v@.len() as int,
            self.width,
            self.height,
            self.y_stride,
            self.u_stride,
            self.v_stride,
        ) is Ok
    }

    /// Constructs a new frame, validating dimensions, strides and plane
    /// lengths; reports the first check that fails.
    pub fn try_new(
        y: &'a [u16],
        u: &'a [u16],
        v: &'a [u16],
        width: u32,
        height: u32,
        y_stride: u32,
        u_stride: u32,
        v_stride: u32,
    ) -> (res: Result<Self, Yuv444pMsbFrameError>)
        requires
            BITS == 10 || BITS == 12,
        ensures
            outcome(res) == yuv444p_msb_check(
                y@.len() as int,
                u@.len() as int,
                v@.len() as int,
                width,
                height,
                y_stride,
                u_stride,
                v_stride,
            ),
            res is Ok <==> ({
                &&& width > 0 && height > 0
                &&& y_stride >= width
                &&& u_stride >= width
                &&& v_stride >= width
                &&& y_stride * height <= usize::MAX
                &&& y@.len() >= y_stride * height
                &&& u_stride * height <= usize::MAX
                &&& u@.len() >= u_stride * height
                &&& v_stride * height <= usize::MAX
                &&& v@.len() >= v_stride * height
            }),
            res matches Ok(f) ==> f@ == three_planes(
                width,
                height,
                y@,
                u@,
                v@,
                y_stride,
                u_stride,
                v_stride,
            ),
    {
        proof {
            lemma_yuv444p_msb_accepts(
                y@.len() as int,
                u@.len() as int,
                v@.len() as int,
                width,
                height,
                y_stride,
                u_stride,
                v_stride,
            );
        }
        if width == 0 || height == 0 {
            return Err(Yuv444pMsbFrameError::ZeroDimension(ZeroDimension::new(width, height)));
        }
        if y_stride < width {
            return Err(
                Yuv444pMsbFrameError::InsufficientYStride(InsufficientStride::new(y_stride, width)),
            );
        }
        if u_stride < width {
            return Err(
                Yuv444pMsbFrameError::InsufficientUStride(InsufficientStride::new(u_stride, width)),
            );
        }
        if v_stride < width {
            return Err(
                Yuv444pMsbFrameError::InsufficientVStride(InsufficientStride::new(v_stride, width)),
            );
        }
        let y_min = match (y_stride as usize).checked_mul(height as usize) {
            Some(v) => v,
            None => {
                return Err(
                    Yuv444pMsbFrameError::GeometryOverflow(GeometryOverflow::new(y_stride, height)),
                );
            },
        };
        if y.len() < y_min {
            return Err(
                Yuv444pMsbFrameError::InsufficientYPlane(InsufficientPlane::new(y_min, y.len())),
            );
        }
        let u_min = match (u_stride as usize).checked_mul(height as usize) {
            Some(v) => v,
            None => {
                return Err(
                    Yuv444pMsbFrameError::GeometryOverflow(GeometryOverflow::new(u_stride, height)),
                );
            },
        };
        if u.len() < u_min {
            return Err(
                Yuv444pMsbFrameError::InsufficientUPlane(InsufficientPlane::new(u_min, u.len())),
            );
        }
        let v_min = match (v_stride as usize).checked_mul(height as usize) {
            Some(v) => v,
            None => {
                return Err(
                    Yuv444pMsbFrameError::GeometryOverflow(GeometryOverflow::new(v_stride, height)),
                );
            },
        };
        if v.len() < v_min {
            return Err(
                Yuv444pMsbFrameError::InsufficientVPlane(InsufficientPlane::new(v_min, v.len())),
            );
        }
        Ok(Yuv444pMsbFrame { y, u, v, width, height, y_stride, u_stride, v_stride })
    }

    /// Constructs a new frame from inputs that `try_new` accepts.
    pub fn new(
        y: &'a [u16],
        u: &'a [u16],
        v: &'a [u16],
        width: u32,
        height: u32,
        y_stride: u32,
        u_stride: u32,
        v_stride: u32,
    ) -> (res: Self)
        requires
            BITS == 10 || BITS == 12,
            yuv444p_msb_check(
                y@.len() as int,
                u@.len() as int,
                v@.len() as int,
                width,
                height,
                y_stride,
                u_stride,
                v_stride,
            ) is Ok,
        ensures
            res@ == three_planes(width, height, y@, u@, v@, y_stride, u_stride, v_stride),
    {
        Self::try_new(y, u, v, width, height, y_stride, u_stride, v_stride).expect(
            "invalid Yuv444pMsbFrame dimensions or plane lengths",
        )
    }

    /// Like `try_new`, and also checks that every active sample of the Y, U
    /// and V planes (scanned in that order, row by row) has its low
    /// `16 - BITS` bits clear, as an MSB-packed sample must.
    #[verifier::rlimit(20)]
    pub fn try_new_checked(
        y: &'a [u16],
        u: &'a [u16],
        v: &'a [u16],
        width: u32,
        height: u32,
        y_stride: u32,
        u_stride: u32,
        v_stride: u32,
    ) -> (res: Result<Self, Yuv444pMsbFrameError>)
        requires
            BITS == 10 || BITS == 12,
        ensures
            ({
                let check = yuv444p_msb_check(
                    y@.len() as int,
                    u@.len() as int,
                    v@.len() as int,
                    width,
                    height,
                    y_stride,
                    u_stride,
                    v_stride,
                );
                let area = yuv444p_area(y@, u@, v@, width, height, y_stride, u_stride, v_stride);
                let view = three_planes(width, height, y@, u@, v@, y_stride, u_stride, v_stride);
                &&& check is Err ==> outcome(res) == check
                &&& check is Ok ==> match res {
                    Ok(f) => {
                        &&& area.keeps(BE, SampleRule::ClearBits(msb_low_mask(BITS)), 3)
                        &&& f@ == view
                    },
                    Err(e) => yuv444p_msb_stray(area, BE, msb_low_mask(BITS), e),
                }
            }),
    {
        let frame = match Self::try_new(y, u, v, width, height, y_stride, u_stride, v_stride) {
            Ok(f) => f,
            Err(e) => {
                return Err(e);
            },
        };
        let ghost area = yuv444p_area(y@, u@, v@, width, height, y_stride, u_stride, v_stride);
        let low_mask = low_bits_mask(BITS);
        let rule = SampleRule::ClearBits(low_mask);
        if let Some((index, value)) = first_breaking_sample(
            y,
            y_stride,
            width,
            height,
            BE,
            rule,
        ) {
            return Err(
                Yuv444pMsbFrameError::StrayLowBits(
                    Yuv444pMsbStrayLowBits::new(Yuv444pMsbFramePlane::Y, index, value),
                ),
            );
        }
        assert(area.keeps(BE, rule, 1));
        if let Some((index, value)) = first_breaking_sample(
            u,
            u_stride,
            width,
            height,
            BE,
            rule,
        ) {
            return Err(
                Yuv444pMsbFrameError::StrayLowBits(
                    Yuv444pMsbStrayLowBits::new(Yuv444pMsbFramePlane::U, index, value),
                ),
            );
        }
        assert(area.keeps(BE, rule, 2));
        if let Some((index, value)) = first_breaking_sample(
            v,
            v_stride,
            width,
            height,
            BE,
            rule,
        ) {
            return Err(
                Yuv444pMsbFrameError::StrayLowBits(
                    Yuv444pMsbStrayLowBits::new(Yuv444pMsbFramePlane::V, index, value),
                ),
            );
        }
        assert(area.keeps(BE, rule, 3));
        Ok(frame)
    }

    /// Y (luma) plane. Row `r` starts at element `r * y_stride()`.
    pub fn y(&self) -> (r: &'a [u16])
        ensures
            r@ == self@.planes[0],
            yuv444p_msb_valid(self@),
    {
        proof {
            use_type_invariant(self);
        }
        self.y
    }

    /// U (Cb) plane. Row `r` starts at element `r * u_stride()`.
    pub fn u(&self) -> (r: &'a [u16])
        ensures
            r@ == self@.planes[1],
            yuv444p_msb_valid(self@),
    {
        proof {
            use_type_invariant(self);
        }
        self.u
    }

    /// V (Cr) plane. Row `r` starts at element `r * v_stride()`.
    pub fn v(&self) -> (r: &'a [u16])
        ensures
            r@ == self@.planes[2],
            yuv444p_msb_valid(self@),
    {
        proof {
            use_type_invariant(self);
        }
        self.v
    }

    /// Frame width in pixels.
    pub fn width(&self) -> (r: u32)
        ensures
            r == self@.width,
            yuv444p_msb_valid(self@),
    {
        proof {
            use_type_invariant(self);
        }
        self.width
    }

    /// Frame height in pixels.
    pub fn height(&self) -> (r: u32)
        ensures
            r == self@.height,
            yuv444p_msb_valid(self@),
    {
        proof {
            use_type_invariant(self);
        }
        self.height
    }

    /// Stride of the Y plane in elements.
    pub fn y_stride(&self) -> (r: u32)
        ensures
            r == self@.strides[0],
            yuv444p_msb_valid(self@),
    {
        proof {
            use_type_invariant(self);
        }
        self.y_stride
    }

    /// Stride of the U plane in elements.
    pub fn u_stride(&self) -> (r: u32)
        ensures
            r == self@.strides[1],
            yuv444p_msb_valid(self@),
    {
        proof {
            use_type_invariant(self);
        }
        self.u_stride
    }

    /// Stride of the V plane in elements.
    pub fn v_stride(&self) -> (r: u32)
        ensures
            r == self@.strides[2],
            yuv444p_msb_valid(self@),
    {
        proof {
            use_type_invariant(self);
        }
        self.v_stride
    }

    /// The bit depth `BITS`.
    pub fn bits(&self) -> (r: u32)
        ensures
            r == BITS,
    {
        BITS
    }

    /// Whether the stored samples are big-endian (`BE`).
    pub fn is_be(&self) -> (r: bool)
        ensures
            r == BE,
    {
        BE
    }
}

/// Errors returned by `Yuv440pFrame16`'s constructors.
pub type Yuv440pFrame16Error = Yuv420pFrame16Error;

/// The active areas of a 4:4:0 frame: Y at full size, U and V at full
/// width and half height (rounded up).
pub open spec fn yuv440p_area(
    y: Seq<u16>,
    u: Seq<u16>,
    v: Seq<u16>,
    width: u32,
    height: u32,
    y_stride: u32,
    u_stride: u32,
    v_stride: u32,
) -> ScanArea {
    ScanArea {
        planes: seq![y, u, v],
        strides: seq![y_stride, u_stride, v_stride],
        widths: seq![width, width, width],
        rows: seq![height, half_up(height), half_up(height)],
    }
}

/// What `Yuv440pFrame16::try_new` decides.
pub open spec fn yuv440p_check(
    y_len: int,
    u_len: int,
    v_len: int,
    width: u32,
    height: u32,
    y_stride: u32,
    u_stride: u32,
    v_stride: u32,
    bits: u32,
) -> Result<(), Yuv420pFrame16Error> {
    if !(bits == 10 || bits == 12) {
        Err(Yuv420pFrame16Error::UnsupportedBits(UnsupportedBits { bits }))
    } else if width == 0 || height == 0 {
        Err(Yuv420pFrame16Error::ZeroDimension(ZeroDimension { width, height }))
    } else if y_stride < width {
        Err(Yuv420pFrame16Error::InsufficientYStride(short_stride(y_stride, width)))
    } else if u_stride < width {
        Err(Yuv420pFrame16Error::InsufficientUStride(short_stride(u_stride, width)))
    } else if v_stride < width {
        Err(Yuv420pFrame16Error::InsufficientVStride(short_stride(v_stride, width)))
    } else if !plane_fits(y_stride, height) {
        Err(Yuv420pFrame16Error::GeometryOverflow(overflow(y_stride, height)))
    } else if y_len < plane_need(y_stride, height) {
        Err(Yuv420pFrame16Error::InsufficientYPlane(short_plane(y_stride, height, y_len)))
    } else if !plane_fits(u_stride, half_up(height)) {
        Err(Yuv420pFrame16Error::GeometryOverflow(overflow(u_stride, half_up(height))))
    } else if u_len < plane_need(u_stride, half_up(height)) {
        Err(Yuv420pFrame16Error::InsufficientUPlane(short_plane(u_stride, half_up(height), u_len)))
    } else if !plane_fits(v_stride, half_up(height)) {
        Err(Yuv420pFrame16Error::GeometryOverflow(overflow(v_stride, half_up(height))))
    } else if v_len < plane_need(v_stride, half_up(height)) {
        Err(Yuv420pFrame16Error::InsufficientVPlane(short_plane(v_stride, half_up(height), v_len)))
    } else {
        Ok(())
    }
}

/// The inputs that `Yuv440pFrame16::try_new` accepts, stated directly: non-zero
/// dimensions, each stride covering a row of its plane, each plane
/// holding its rows; a rejection reports the offending values.
pub proof fn lemma_yuv440p_accepts(
    y_len: int,
    u_len: int,
    v_len: int,
    width: u32,
    height: u32,
    y_stride: u32,
    u_stride: u32,
    v_stride: u32,
    bits: u32,
)
    ensures
        ({
            let check = yuv440p_check(
                y_len,
                u_len,
                v_len,
                width,
                height,
                y_stride,
                u_stride,
                v_stride,
                bits,
            );
            &&& check is Ok <==> {
                &&& (bits == 10 || bits == 12)
                &&& width > 0 && height > 0
                &&& y_stride >= width
                &&& u_stride >= width
                &&& v_stride >= width
                &&& y_stride * height <= usize::MAX
                &&& y_len >= y_stride * height
                &&& u_stride * ((height + 1) / 2) <= usize::MAX
                &&& u_len >= u_stride * ((height + 1) / 2)
                &&& v_stride * ((height + 1) / 2) <= usize::MAX
                &&& v_len >= v_stride * ((height + 1) / 2)
            }
            &&& check matches Err(Yuv420pFrame16Error::ZeroDimension(e)) ==> {
                &&& e.width == width
                &&& e.height == height
            }
            &&& check matches Err(Yuv420pFrame16Error::InsufficientYStride(e)) ==> {
                &&& e.stride == y_stride
                &&& e.min_stride == width
                &&& y_stride < width
            }
            &&& check matches Err(Yuv420pFrame16Error::InsufficientUStride(e)) ==> {
                &&& e.stride == u_stride
                &&& e.min_stride == width
                &&& u_stride < width
            }
            &&& check matches Err(Yuv420pFrame16Error::InsufficientVStride(e)) ==> {
                &&& e.stride == v_stride
                &&& e.min_stride == width
                &&& v_stride < width
            }
            &&& check matches Err(Yuv420pFrame16Error::InsufficientYPlane(e)) ==> {
                &&& e.expected == y_stride * height
                &&& y_len < y_stride * height
            }
            &&& check matches Err(Yuv420pFrame16Error::InsufficientUPlane(e)) ==> {
                &&& e.expected == u_stride * ((height + 1) / 2)
                &&& u_len < u_stride * ((height + 1) / 2)
            }
            &&& check matches Err(Yuv420pFrame16Error::InsufficientVPlane(e)) ==> {
                &&& e.expected == v_stride * ((height + 1) / 2)
                &&& v_len < v_stride * ((height + 1) / 2)
            }
        }),
{
    assert(half_up(height) == (height + 1) / 2);
}

/// A validated planar 4:4:0 YUV frame with `BITS` (10 or 12) active low bits
/// per `u16` sample (FFmpeg `yuv440p10`, `yuv440p12`). U and V are full
/// width and half height (rounded up).
#[derive(Debug, Clone, Copy)]
pub struct Yuv440pFrame16<'a, const BITS: u32, const BE: bool> {
    y: &'a [u16],
    u: &'a [u16],
    v: &'a [u16],
    width: u32,
    height: u32,
    y_stride: u32,
    u_stride: u32,
    v_stride: u32,
}

/// 10-bit little-endian `Yuv440pFrame16`.
pub type Yuv440p10Frame<'a> = Yuv440pFrame16<'a, 10, false>;
/// 12-bit little-endian `Yuv440pFrame16`.
pub type Yuv440p12Frame<'a> = Yuv440pFrame16<'a, 12, false>;
/// `AV_PIX_FMT_YUV440P10LE`.
pub type Yuv440p10LeFrame<'a> = Yuv440pFrame16<'a, 10, false>;
/// `AV_PIX_FMT_YUV440P10BE`.
pub type Yuv440p10BeFrame<'a> = Yuv440pFrame16<'a, 10, true>;
/// `AV_PIX_FMT_YUV440P12LE`.
pub type Yuv440p12LeFrame<'a> = Yuv440pFrame16<'a, 12, false>;
/// `AV_PIX_FMT_YUV440P12BE`.
pub type Yuv440p12BeFrame<'a> = Yuv440pFrame16<'a, 12, true>;

impl<'a, const BITS: u32, const BE: bool> View for Yuv440pFrame16<'a, BITS, BE> {
    type V = FrameView<u16>;

    closed spec fn view(&self) -> FrameView<u16> {
        three_planes(
            self.width,
            self.height,
            self.y@,
            self.u@,
            self.v@,
            self.y_stride,
            self.u_stride,
            self.v_stride,
        )
    }
}

/// `v` is the view of a `Yuv440pFrame16` that `try_new` accepts: every frame
/// of the type has such a view.
pub open spec fn yuv440p_valid(v: FrameView<u16>, bits: u32) -> bool {
    &&& v.planes.len() == 3
    &&& v.strides.len() == 3
    &&& yuv440p_check(
        v.planes[0].len() as int,
        v.planes[1].len() as int,
        v.planes[2].len() as int,
        v.width,
        v.height,
        v.strides[0],
        v.strides[1],
        v.strides[2],
        bits,
    ) is Ok
}

impl<'a, const BITS: u32, const BE: bool> Yuv440pFrame16<'a, BITS, BE> {
    #[verifier::type_invariant]
    closed spec fn wf(&self) -> bool {
        yuv440p_check(
            self.y@.len() as int,
            self.u@.len() as int,
            self.v@.len() as int,
            self.width,
            self.height,
            self.y_stride,
            self.u_stride,
            self.v_stride,
            BITS,
        ) is Ok
    }

    /// Constructs a new frame, validating dimensions, strides and plane
    /// lengths; reports the first check that fails.
    pub fn try_new(
        y: &'a [u16],
        u: &'a [u16],
        v: &'a [u16],
        width: u32,
        height: u32,
        y_stride: u32,
        u_stride: u32,
        v_stride: u32,
    ) -> (res: Result<Self, Yuv420pFrame16Error>)
        ensures
            outcome(res) == yuv440p_check(
                y@.len() as int,
                u@.len() as int,
                v@.len() as int,
                width,
                height,
                y_stride,
                u_stride,
                v_stride,
                BITS,
            ),
            res is Ok <==> ({
                &&& (BITS == 10 || BITS == 12)
                &&& width > 0 && height > 0
                &&& y_stride >= width
                &&& u_stride >= width
                &&& v_stride >= width
                &&& y_stride * height <= usize::MAX
                &&& y@.len() >= y_stride * height
                &&& u_stride * ((height + 1) / 2) <= usize::MAX
                &&& u@.len() >= u_stride * ((height + 1) / 2)
                &&& v_stride * ((height + 1) / 2) <= usize::MAX
                &&& v@.len() >= v_stride * ((height + 1) / 2)
            }),
            res matches Ok(f) ==> f@ == three_planes(
                width,
                height,
                y@,
                u@,
                v@,
                y_stride,
                u_stride,
                v_stride,
            ),
    {
        proof {
            lemma_yuv440p_accepts(
                y@.len() as int,
                u@.len() as int,
                v@.len() as int,
                width,
                height,
                y_stride,
                u_stride,
                v_stride,
                BITS,
            );
        }
        if BITS != 10 && BITS != 12 {
            return Err(Yuv420pFrame16Error::UnsupportedBits(UnsupportedBits::new(BITS)));
        }
        if width == 0 || height == 0 {
            return Err(Yuv420pFrame16Error::ZeroDimension(ZeroDimension::new(width, height)));
        }
        if y_stride < width {
            return Err(
                Yuv420pFrame16Error::InsufficientYStride(InsufficientStride::new(y_stride, width)),
            );
        }
        if u_stride < width {
            return Err(
                Yuv420pFrame16Error::InsufficientUStride(InsufficientStride::new(u_stride, width)),
            );
        }
        if v_stride < width {
            return Err(
                Yuv420pFrame16Error::InsufficientVStride(InsufficientStride::new(v_stride, width)),
            );
        }
        let y_min = match (y_stride as usize).checked_mul(height as usize) {
            Some(v) => v,
            None => {
                return Err(
                    Yuv420pFrame16Error::GeometryOverflow(GeometryOverflow::new(y_stride, height)),
                );
            },
        };
        if y.len() < y_min {
            return Err(
                Yuv420pFrame16Error::InsufficientYPlane(InsufficientPlane::new(y_min, y.len())),
            );
        }
        let chroma_height = div_ceil2(height);
        let u_min = match (u_stride as usize).checked_mul(chroma_height as usize) {
            Some(v) => v,
            None => {
                return Err(
                    Yuv420pFrame16Error::GeometryOverflow(
                        GeometryOverflow::new(u_stride, chroma_height),
                    ),
                );
            },
        };
        if u.len() < u_min {
            return Err(
                Yuv420pFrame16Error::InsufficientUPlane(InsufficientPlane::new(u_min, u.len())),
            );
        }
        let v_min = match (v_stride as usize).checked_mul(chroma_height as usize) {
            Some(v) => v,
            None => {
                return Err(
                    Yuv420pFrame16Error::GeometryOverflow(
                        GeometryOverflow::new(v_stride, chroma_height),
                    ),
                );
            },
        };
        if v.len() < v_min {
            return Err(
                Yuv420pFrame16Error::InsufficientVPlane(InsufficientPlane::new(v_min, v.len())),
            );
        }
        Ok(Yuv440pFrame16 { y, u, v, width, height, y_stride, u_stride, v_stride })
    }

    /// Constructs a new frame from inputs that `try_new` accepts.
    pub fn new(
        y: &'a [u16],
        u: &'a [u16],
        v: &'a [u16],
        width: u32,
        height: u32,
        y_stride: u32,
        u_stride: u32,
        v_stride: u32,
    ) -> (res: Self)
        requires
            yuv440p_check(
                y@.len() as int,
                u@.len() as int,
                v@.len() as int,
                width,
                height,
                y_stride,
                u_stride,
                v_stride,
                BITS,
            ) is Ok,
        ensures
            res@ == three_planes(width, height, y@, u@, v@, y_stride, u_stride, v_stride),
    {
        Self::try_new(y, u, v, width, height, y_stride, u_stride, v_stride).expect(
            "invalid Yuv440pFrame16 dimensions or plane lengths",
        )
    }

    /// Like `try_new`, and also checks that no active sample of the Y, U and
    /// V planes (scanned in that order, row by row) exceeds `(1 << BITS) - 1`.
    #[verifier::rlimit(20)]
    pub fn try_new_checked(
        y: &'a [u16],
        u: &'a [u16],
        v: &'a [u16],
        width: u32,
        height: u32,
        y_stride: u32,
        u_stride: u32,
        v_stride: u32,
    ) -> (res: Result<Self, Yuv420pFrame16Error>)
        ensures
            ({
                let check = yuv440p_check(
                    y@.len() as int,
                    u@.len() as int,
                    v@.len() as int,
                    width,
                    height,
                    y_stride,
                    u_stride,
                    v_stride,
                    BITS,
                );
                let area = yuv440p_area(y@, u@, v@, width, height, y_stride, u_stride, v_stride);
                let view = three_planes(width, height, y@, u@, v@, y_stride, u_stride, v_stride);
                &&& check is Err ==> outcome(res) == check
                &&& check is Ok ==> match res {
                    Ok(f) => {
                        &&& area.keeps(BE, SampleRule::AtMost(max_sample(BITS)), 3)
                        &&& f@ == view
                    },
                    Err(e) => yuv_out_of_range(area, BE, max_sample(BITS), e),
                }
            }),
    {
        let frame = match Self::try_new(y, u, v, width, height, y_stride, u_stride, v_stride) {
            Ok(f) => f,
            Err(e) => {
                return Err(e);
            },
        };
        let ghost area = yuv440p_area(y@, u@, v@, width, height, y_stride, u_stride, v_stride);
        let max_valid = max_sample_value(BITS);
        let rule = SampleRule::AtMost(max_valid);
        if let Some((index, value)) = first_breaking_sample(
            y,
            y_stride,
            width,
            height,
            BE,
            rule,
        ) {
            return Err(
                Yuv420pFrame16Error::SampleOutOfRange(
                    Yuv420pFrame16SampleOutOfRange::new(
                        Yuv420pFrame16Plane::Y,
                        index,
                        value,
                        max_valid,
                    ),
                ),
            );
        }
        assert(area.keeps(BE, rule, 1));
        if let Some((index, value)) = first_breaking_sample(
            u,
            u_stride,
            width,
            div_ceil2(height),
            BE,
            rule,
        ) {
            return Err(
                Yuv420pFrame16Error::SampleOutOfRange(
                    Yuv420pFrame16SampleOutOfRange::new(
                        Yuv420pFrame16Plane::U,
                        index,
                        value,
                        max_valid,
                    ),
                ),
            );
        }
        assert(area.keeps(BE, rule, 2));
        if let Some((index, value)) = first_breaking_sample(
            v,
            v_stride,
            width,
            div_ceil2(height),
            BE,
            rule,
        ) {
            return Err(
                Yuv420pFrame16Error::SampleOutOfRange(
                    Yuv420pFrame16SampleOutOfRange::new(
                        Yuv420pFrame16Plane::V,
                        index,
                        value,
                        max_valid,
                    ),
                ),
            );
        }
        assert(area.keeps(BE, rule, 3));
        Ok(frame)
    }

    /// Y (luma) plane. Row `r` starts at element `r * y_stride()`.
    pub fn y(&self) -> (r: &'a [u16])
        ensures
            r@ == self@.planes[0],
            yuv440p_valid(self@, BITS),
    {
        proof {
            use_type_invariant(self);
        }
        self.y
    }

    /// U (Cb) plane. Row `r` starts at element `r * u_stride()`.
    pub fn u(&self) -> (r: &'a [u16])
        ensures
            r@ == self@.planes[1],
            yuv440p_valid(self@, BITS),
    {
        proof {
            use_type_invariant(self);
        }
        self.u
    }

    /// V (Cr) plane. Row `r` starts at element `r * v_stride()`.
    pub fn v(&self) -> (r: &'a [u16])
        ensures
            r@ == self@.planes[2],
            yuv440p_valid(self@, BITS),
    {
        proof {
            use_type_invariant(self);
        }
        self.v
    }

    /// Frame width in pixels.
    pub fn width(&self) -> (r: u32)
        ensures
            r == self@.width,
            yuv440p_valid(self@, BITS),
    {
        proof {
            use_type_invariant(self);
        }
        self.width
    }

    /// Frame height in pixels.
    pub fn height(&self) -> (r: u32)
        ensures
            r == self@.height,
            yuv440p_valid(self@, BITS),
    {
        proof {
            use_type_invariant(self);
        }
        self.height
    }

    /// Stride of the Y plane in elements.
    pub fn y_stride(&self) -> (r: u32)
        ensures
            r == self@.strides[0],
            yuv440p_valid(self@, BITS),
    {
        proof {
            use_type_invariant(self);
        }
        self.y_stride
    }

    /// Stride of the U plane in elements.
    pub fn u_stride(&self) -> (r: u32)
        ensures
            r == self@.strides[1],
            yuv440p_valid(self@, BITS),
    {
        proof {
            use_type_invariant(self);
        }
        self.u_stride
    }

    /// Stride of the V plane in elements.
    pub fn v_stride(&self) -> (r: u32)
        ensures
            r == self@.strides[2],
            yuv440p_valid(self@, BITS),
    {
        proof {
            use_type_invariant(self);
        }
        self.v_stride
    }

    /// The bit depth `BITS`.
    pub fn bits(&self) -> (r: u32)
        ensures
            r == BITS,
    {
        BITS
    }

    /// Whether the stored samples are big-endian (`BE`).
    pub fn is_be(&self) -> (r: bool)
        ensures
            r == BE,
    {
        BE
    }
}

} // verus!
