//! Sample-level validation shared by the `try_new_checked`
//! constructors: loading a stored `u16` sample in the plane's byte
//! order, and scanning the active area of a plane for the first sample
//! that breaks a rule.

use vstd::endian::{endianness, Endian};
use vstd::arithmetic::power2::{lemma2_to64, lemma_pow2_strictly_increases, pow2};
use vstd::bits::{
    lemma_u16_pow2_no_overflow, lemma_u16_shl_is_mul, lemma_u32_pow2_no_overflow,
    lemma_u32_shl_is_mul,
};
use vstd::prelude::*;

verus! {

/// `s` with its two bytes exchanged.
pub open spec fn swap16(s: u16) -> u16 {
    (s >> 8u16) | (s << 8u16)
}

/// Loading a sample stored in byte order `be` (`true` for big-endian)
/// swaps its bytes exactly when the machine's byte order differs.
pub open spec fn host_swaps(be: bool) -> bool {
    if be {
        endianness() is Little
    } else {
        endianness() is Big
    }
}

/// The value of a sample stored as `s` in byte order `be`.
pub open spec fn logical_sample(s: u16, be: bool) -> u16 {
    if host_swaps(be) {
        swap16(s)
    } else {
        s
    }
}

/// Exchanging the bytes of a sample twice gives the sample back.
pub proof fn lemma_swap16_involutive(s: u16)
    ensures
        swap16(swap16(s)) == s,
{
    assert(((((s >> 8u16) | (s << 8u16)) >> 8u16) | (((s >> 8u16) | (s << 8u16)) << 8u16)) == s)
        by (bit_vector);
}

/// Exchanging the bytes of a sample moves its low byte up and its high
/// byte down.
pub proof fn lemma_swap16_bytes(s: u16)
    ensures
        swap16(s) == (s % 256) * 256 + s / 256,
{
    assert(((s >> 8u16) | (s << 8u16)) == (s % 256) * 256 + s / 256) by (bit_vector);
}

/// A value stored in byte order `be` (which is the same conversion as
/// reading it) reads back as the value itself: encoding a sample for a
/// plane and loading it again are inverse.
pub proof fn lemma_logical_sample_round_trip(v: u16, be: bool)
    ensures
        logical_sample(logical_sample(v, be), be) == v,
{
    lemma_swap16_involutive(v);
}

/// `u16::from_be`. std documents it as a no-op on a big-endian machine
/// and a byte swap on a little-endian one; that is all this claims.
#[verifier::external_body]
fn u16_from_be(x: u16) -> (r: u16)
    ensures
        r == (if endianness() is Big { x } else { swap16(x) }),
{
    u16::from_be(x)
}

/// `u16::from_le`. std documents it as a no-op on a little-endian
/// machine and a byte swap on a big-endian one; that is all this claims.
#[verifier::external_body]
fn u16_from_le(x: u16) -> (r: u16)
    ensures
        r == (if endianness() is Little { x } else { swap16(x) }),
{
    u16::from_le(x)
}

/// Reads the value of a sample stored as `s` in byte order `be`.
pub fn load_sample(s: u16, be: bool) -> (r: u16)
    ensures
        r == logical_sample(s, be),
{
    if be {
        u16_from_be(s)
    } else {
        u16_from_le(s)
    }
}

/// What a valid sample must satisfy.
#[derive(Debug, Clone, Copy, PartialEq, Eq, Hash)]
pub enum SampleRule {
    /// None of the bits of the mask may be set.
    ClearBits(u16),
    /// The value may not exceed the bound.
    AtMost(u16),
}

/// Sample value `v` breaks `rule`.
pub open spec fn breaks(v: u16, rule: SampleRule) -> bool {
    match rule {
        SampleRule::ClearBits(mask) => v & mask != 0,
        SampleRule::AtMost(max) => v > max,
    }
}

/// Tests whether sample value `v` breaks `rule`.
pub fn sample_breaks(v: u16, rule: SampleRule) -> (r: bool)
    ensures
        r == breaks(v, rule),
{
    match rule {
        SampleRule::ClearBits(mask) => v & mask != 0,
        SampleRule::AtMost(max) => v > max,
    }
}

/// The value of the sample at (`row`, `col`) of a plane laid out with
/// `stride` elements per row and stored in byte order `be`.
pub open spec fn sample_at(plane: Seq<u16>, stride: u32, row: int, col: int, be: bool) -> u16 {
    logical_sample(plane[row * stride + col], be)
}

/// Every active sample (column below `width`) of the first `rows` rows
/// keeps `rule`.
pub open spec fn rows_keep(
    plane: Seq<u16>,
    stride: u32,
    width: u32,
    rows: int,
    be: bool,
    rule: SampleRule,
) -> bool {
    forall|r: int, c: int|
        0 <= r < rows && 0 <= c < width ==> !breaks(
            #[trigger] sample_at(plane, stride, r, c, be),
            rule,
        )
}

/// The first active sample of the plane, in row-major order, that breaks
/// `rule` is at (`row`, `col`).
pub open spec fn first_break_at(
    plane: Seq<u16>,
    stride: u32,
    width: u32,
    rows: u32,
    be: bool,
    rule: SampleRule,
    row: int,
    col: int,
) -> bool {
    &&& 0 <= row < rows
    &&& 0 <= col < width
    &&& breaks(sample_at(plane, stride, row, col, be), rule)
    &&& rows_keep(plane, stride, width, row, be, rule)
    &&& forall|c: int|
        0 <= c < col ==> !breaks(#[trigger] sample_at(plane, stride, row, c, be), rule)
}

/// The first breaking sample is at element `index` of the plane and
/// reads as `value`.
pub open spec fn first_break_is(
    plane: Seq<u16>,
    stride: u32,
    width: u32,
    rows: u32,
    be: bool,
    rule: SampleRule,
    index: usize,
    value: u16,
) -> bool {
    exists|row: int, col: int|
        #![trigger sample_at(plane, stride, row, col, be)]
        first_break_at(plane, stride, width, rows, be, rule, row, col)
            && index == row * stride + col
            && value == sample_at(plane, stride, row, col, be)
}

/// The plane's rows fit the plane: `rows` rows of `stride` elements,
/// of which the first `width` are active.
pub open spec fn scan_fits(plane_len: int, stride: u32, width: u32, rows: u32) -> bool {
    width <= stride && stride * rows <= plane_len
}

/// The active areas of a frame's planes, in scan order: for plane `q`,
/// its elements, its stride, its active width and its row count.
pub struct ScanArea {
    pub planes: Seq<Seq<u16>>,
    pub strides: Seq<u32>,
    pub widths: Seq<u32>,
    pub rows: Seq<u32>,
}

impl ScanArea {
    /// Every active sample of the first `count` planes keeps `rule`.
    pub open spec fn keeps(self, be: bool, rule: SampleRule, count: int) -> bool {
        forall|q: int|
            0 <= q < count ==> #[trigger] rows_keep(
                self.planes[q],
                self.strides[q],
                self.widths[q],
                self.rows[q] as int,
                be,
                rule,
            )
    }

    /// Scanning the planes in order, the first sample that breaks `rule`
    /// is in plane `q`, at element `index`, and reads as `value`.
    pub open spec fn first_break_in(
        self,
        be: bool,
        rule: SampleRule,
        q: int,
        index: usize,
        value: u16,
    ) -> bool {
        &&& 0 <= q < self.planes.len()
        &&& self.keeps(be, rule, q)
        &&& first_break_is(
            self.planes[q],
            self.strides[q],
            self.widths[q],
            self.rows[q],
            be,
            rule,
            index,
            value,
        )
    }
}

/// The bits below the top `bits` of a 16-bit sample: the bits an
/// MSB-packed `bits`-bit sample leaves clear.
pub open spec fn msb_low_mask(bits: u32) -> u16 {
    ((1u16 << ((16 - bits) as u16)) - 1) as u16
}

/// The largest value of a `bits`-bit sample, `(1 << bits) - 1`.
pub open spec fn max_sample(bits: u32) -> u16 {
    ((1u32 << bits) - 1) as u16
}

/// The largest `bits`-bit sample is one less than `2^bits`.
pub proof fn lemma_max_sample_is_pow2(bits: u32)
    requires
        1 <= bits <= 16,
    ensures
        max_sample(bits) + 1 == pow2(bits as nat),
{
    lemma_u32_pow2_no_overflow(bits as nat);
    lemma_u32_shl_is_mul(1u32, bits);
    if bits < 16 {
        lemma_pow2_strictly_increases(bits as nat, 16);
    }
    lemma2_to64();
}

/// A sample value is in range for `bits` bits exactly when it is below
/// `2^bits`.
pub proof fn lemma_sample_in_range(bits: u32, v: u16)
    requires
        1 <= bits <= 16,
    ensures
        !breaks(v, SampleRule::AtMost(max_sample(bits))) <==> v < pow2(bits as nat),
{
    lemma_max_sample_is_pow2(bits);
}

/// The low mask of an MSB-packed `bits`-bit sample is one less than
/// `2^(16 - bits)`.
pub proof fn lemma_msb_low_mask_is_pow2(bits: u32)
    requires
        1 <= bits <= 16,
    ensures
        msb_low_mask(bits) + 1 == pow2((16 - bits) as nat),
{
    let shift = (16 - bits) as u16;
    lemma_u16_pow2_no_overflow(shift as nat);
    lemma_u16_shl_is_mul(1u16, shift);
}

/// An MSB-packed `bits`-bit sample has its low bits clear exactly when
/// its value is a multiple of `2^(16 - bits)`.
pub proof fn lemma_msb_sample_clear(bits: u32, v: u16)
    requires
        1 <= bits <= 16,
    ensures
        !breaks(v, SampleRule::ClearBits(msb_low_mask(bits))) <==> (v as nat) % pow2(
            (16 - bits) as nat,
        ) == 0,
{
    let shift = (16 - bits) as u16;
    lemma_msb_low_mask_is_pow2(bits);
    lemma_u16_pow2_no_overflow(shift as nat);
    lemma_u16_shl_is_mul(1u16, shift);
    assert((v & (((1u16 << shift) - 1) as u16) == 0) == (v % (1u16 << shift) == 0)) by (bit_vector)
        requires
            shift < 16,
    ;
}

/// Computes `msb_low_mask(bits)`.
pub fn low_bits_mask(bits: u32) -> (r: u16)
    requires
        1 <= bits <= 16,
    ensures
        r == msb_low_mask(bits),
{
    let shift = (16 - bits) as u16;
    assert(1u16 << shift >= 1u16) by (bit_vector)
        requires
            shift < 16,
    ;
    (1u16 << shift) - 1
}

/// Computes `max_sample(bits)`.
pub fn max_sample_value(bits: u32) -> (r: u16)
    requires
        1 <= bits <= 16,
    ensures
        r == max_sample(bits),
{
    assert(1u32 << bits >= 1u32) by (bit_vector)
        requires
            bits <= 16,
    ;
    ((1u32 << bits) - 1) as u16
}

proof fn lemma_row_end_in_plane(stride: u32, rows: u32, row: int, plane_len: int)
    requires
        0 <= row < rows,
        stride * rows <= plane_len,
    ensures
        row * stride + stride <= plane_len,
{
    assert(row * stride + stride <= rows * stride) by (nonlinear_arith)
        requires
            0 <= row < rows,
            stride >= 0,
    ;
}

/// Scans the active area of a plane, row by row, for the first sample
/// that breaks `rule`. Returns its element index and value, or `None`
/// when every active sample keeps the rule.
pub fn first_breaking_sample(
    plane: &[u16],
    stride: u32,
    width: u32,
    rows: u32,
    be: bool,
    rule: SampleRule,
) -> (r: Option<(usize, u16)>)
    requires
        scan_fits(plane@.len() as int, stride, width, rows),
    ensures
        r is None <==> rows_keep(plane@, stride, width, rows as int, be, rule),
        r matches Some((index, value)) ==> first_break_is(
            plane@,
            stride,
            width,
            rows,
            be,
            rule,
            index,
            value,
        ),
{
    let ghost p = plane@;
    let plane_len = plane.len();
    let mut row: u32 = 0;
    while row < rows
        invariant
            row <= rows,
            p == plane@,
            plane_len == p.len(),
            scan_fits(p.len() as int, stride, width, rows),
            rows_keep(p, stride, width, row as int, be, rule),
        decreases rows - row,
    {
        proof {
            lemma_row_end_in_plane(stride, rows, row as int, p.len() as int);
        }
        let start = (row as usize) * (stride as usize);
        let mut col: u32 = 0;
        while col < width
            invariant
                row < rows,
                col <= width,
                p == plane@,
                plane_len == p.len(),
                scan_fits(p.len() as int, stride, width, rows),
                start == row * stride,
                start + stride <= p.len(),
                rows_keep(p, stride, width, row as int, be, rule),
                forall|c: int|
                    0 <= c < col ==> !breaks(
                        #[trigger] sample_at(p, stride, row as int, c, be),
                        rule,
                    ),
            decreases width - col,
        {
            let index = start + col as usize;
            let value = load_sample(plane[index], be);
            if sample_breaks(value, rule) {
                assert(first_break_at(p, stride, width, rows, be, rule, row as int, col as int));
                assert(value == sample_at(p, stride, row as int, col as int, be));
                return Some((index, value));
            }
            col = col + 1;
        }
        assert forall|r: int, c: int|
            0 <= r < row + 1 && 0 <= c < width implies !breaks(
            #[trigger] sample_at(p, stride, r, c, be),
            rule,
        ) by {
            if r < row {
            } else {
            }
        }
        row = row + 1;
    }
    None
}

} // verus!
