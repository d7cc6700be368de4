//! Pixel format identifier: FFmpeg's `AVPixelFormat` vocabulary plus
//! Bayer mosaic formats.
//!
//! Each variant's name (`as_str`) is the lowercase FFmpeg name where one
//! exists (`yuv420p`, `nv12`, `p010le`, ...). The stable wire form is a
//! `u32` code: `PixelFormat::to_u32` gives each known variant its code and
//! carries an `Unknown` value's own code through; `PixelFormat::from_u32`
//! decodes a code, mapping every unassigned code to `Unknown` with that
//! code, so that no wire value is lost.

use vstd::prelude::*;

verus! {

/// Pixel format identifier covering FFmpeg and Bayer formats.
#[derive(Debug, Clone, Copy, PartialEq, Eq, Hash)]
#[non_exhaustive]
pub enum PixelFormat {
    /// Unknown / unset format. The wrapped `u32` is the original
    /// wire value passed to [`PixelFormat::from_u32`] — preserved so
    /// round-tripping unknown values is lossless.
    Unknown(u32),

    // Planar YUV 8-bit
    /// Planar 4:2:0 YUV, 8-bit (`AV_PIX_FMT_YUV420P`).
    Yuv420p,
    /// Planar 4:2:2 YUV, 8-bit.
    Yuv422p,
    /// Planar 4:4:0 YUV, 8-bit (vertically subsampled chroma).
    Yuv440p,
    /// Planar 4:4:4 YUV, 8-bit.
    Yuv444p,
    /// Planar 4:1:1 YUV, 8-bit.
    Yuv411p,
    /// Planar 4:1:0 YUV, 8-bit.
    Yuv410p,

    // Deprecated full-range YUV aliases (yuvj-family)
    /// Deprecated full-range alias of [`Self::Yuv411p`] (FFmpeg keeps for
    /// backward compat; downstream should prefer [`Self::Yuv411p`] +
    /// `DynamicRange::Full`).
    Yuvj411p,
    /// Deprecated full-range alias of [`Self::Yuv420p`] (FFmpeg keeps for
    /// backward compat; downstream should prefer [`Self::Yuv420p`] +
    /// `DynamicRange::Full`).
    Yuvj420p,
    /// Deprecated full-range alias of [`Self::Yuv422p`] (FFmpeg keeps for
    /// backward compat; downstream should prefer [`Self::Yuv422p`] +
    /// `DynamicRange::Full`).
    Yuvj422p,
    /// Deprecated full-range alias of [`Self::Yuv440p`] (FFmpeg keeps for
    /// backward compat; downstream should prefer [`Self::Yuv440p`] +
    /// `DynamicRange::Full`).
    Yuvj440p,
    /// Deprecated full-range alias of [`Self::Yuv444p`] (FFmpeg keeps for
    /// backward compat; downstream should prefer [`Self::Yuv444p`] +
    /// `DynamicRange::Full`).
    Yuvj444p,

    // Planar YUV high-bit-depth (4:2:0)
    /// Planar 4:2:0 YUV, 9-bit little-endian.
    Yuv420p9Le,
    /// Planar 4:2:0 YUV, 9-bit big-endian.
    Yuv420p9Be,
    /// Planar 4:2:0 YUV, 10-bit little-endian.
    Yuv420p10Le,
    /// Planar 4:2:0 YUV, 10-bit big-endian.
    Yuv420p10Be,
    /// Planar 4:2:0 YUV, 12-bit little-endian.
    Yuv420p12Le,
    /// Planar 4:2:0 YUV, 12-bit big-endian.
    Yuv420p12Be,
    /// Planar 4:2:0 YUV, 14-bit little-endian.
    Yuv420p14Le,
    /// Planar 4:2:0 YUV, 14-bit big-endian.
    Yuv420p14Be,
    /// Planar 4:2:0 YUV, 16-bit little-endian.
    Yuv420p16Le,
    /// Planar 4:2:0 YUV, 16-bit big-endian.
    Yuv420p16Be,

    // Planar YUV high-bit-depth (4:2:2)
    /// Planar 4:2:2 YUV, 9-bit little-endian.
    Yuv422p9Le,
    /// Planar 4:2:2 YUV, 9-bit big-endian.
    Yuv422p9Be,
    /// Planar 4:2:2 YUV, 10-bit little-endian.
    Yuv422p10Le,
    /// Planar 4:2:2 YUV, 10-bit big-endian.
    Yuv422p10Be,
    /// Planar 4:2:2 YUV, 12-bit little-endian.
    Yuv422p12Le,
    /// Planar 4:2:2 YUV, 12-bit big-endian.
    Yuv422p12Be,
    /// Planar 4:2:2 YUV, 14-bit little-endian.
    Yuv422p14Le,
    /// Planar 4:2:2 YUV, 14-bit big-endian.
    Yuv422p14Be,
    /// Planar 4:2:2 YUV, 16-bit little-endian.
    Yuv422p16Le,
    /// Planar 4:2:2 YUV, 16-bit big-endian.
    Yuv422p16Be,

    // Planar YUV high-bit-depth (4:4:0)
    /// Planar 4:4:0 YUV, 10-bit little-endian.
    Yuv440p10Le,
    /// Planar 4:4:0 YUV, 10-bit big-endian.
    Yuv440p10Be,
    /// Planar 4:4:0 YUV, 12-bit little-endian.
    Yuv440p12Le,
    /// Planar 4:4:0 YUV, 12-bit big-endian.
    Yuv440p12Be,

    // Planar YUV high-bit-depth (4:4:4)
    /// Planar 4:4:4 YUV, 9-bit little-endian.
    Yuv444p9Le,
    /// Planar 4:4:4 YUV, 9-bit big-endian.
    Yuv444p9Be,
    /// Planar 4:4:4 YUV, 10-bit little-endian.
    Yuv444p10Le,
    /// Planar 4:4:4 YUV, 10-bit big-endian.
    Yuv444p10Be,
    /// Planar 4:4:4 YUV, 12-bit little-endian.
    Yuv444p12Le,
    /// Planar 4:4:4 YUV, 12-bit big-endian.
    Yuv444p12Be,
    /// Planar 4:4:4 YUV, 14-bit little-endian.
    Yuv444p14Le,
    /// Planar 4:4:4 YUV, 14-bit big-endian.
    Yuv444p14Be,
    /// Planar 4:4:4 YUV, 16-bit little-endian.
    Yuv444p16Le,
    /// Planar 4:4:4 YUV, 16-bit big-endian.
    Yuv444p16Be,

    // MSB-packed YUV (4:4:4)
    /// Planar 4:4:4 YUV, 10-bit MSB-packed, little-endian.
    Yuv444p10MsbLe,
    /// Planar 4:4:4 YUV, 10-bit MSB-packed, big-endian.
    Yuv444p10MsbBe,
    /// Planar 4:4:4 YUV, 12-bit MSB-packed, little-endian.
    Yuv444p12MsbLe,
    /// Planar 4:4:4 YUV, 12-bit MSB-packed, big-endian.
    Yuv444p12MsbBe,

    // Planar YUVA (with alpha)
    /// Planar 4:2:0 YUVA, 8-bit.
    Yuva420p,
    /// Planar 4:2:2 YUVA, 8-bit.
    Yuva422p,
    /// Planar 4:4:4 YUVA, 8-bit.
    Yuva444p,
    /// Planar 4:2:0 YUVA, 9-bit little-endian.
    Yuva420p9Le,
    /// Planar 4:2:0 YUVA, 9-bit big-endian.
    Yuva420p9Be,
    /// Planar 4:2:2 YUVA, 9-bit little-endian.
    Yuva422p9Le,
    /// Planar 4:2:2 YUVA, 9-bit big-endian.
    Yuva422p9Be,
    /// Planar 4:4:4 YUVA, 9-bit little-endian.
    Yuva444p9Le,
    /// Planar 4:4:4 YUVA, 9-bit big-endian.
    Yuva444p9Be,
    /// Planar 4:2:0 YUVA, 10-bit little-endian.
    Yuva420p10Le,
    /// Planar 4:2:0 YUVA, 10-bit big-endian.
    Yuva420p10Be,
    /// Planar 4:2:2 YUVA, 10-bit little-endian.
    Yuva422p10Le,
    /// Planar 4:2:2 YUVA, 10-bit big-endian.
    Yuva422p10Be,
    /// Planar 4:4:4 YUVA, 10-bit little-endian.
    Yuva444p10Le,
    /// Planar 4:4:4 YUVA, 10-bit big-endian.
    Yuva444p10Be,
    /// Planar 4:2:0 YUVA, 12-bit little-endian
    /// (`AV_PIX_FMT_YUVA420P12LE`). Discriminant placed after
    /// the 16-bit block because the 12-bit slot in the original
    /// 200-series numbering (between 10Le at 206 and the 4:2:2
    /// 12Le at 209) was already taken by the 4:2:2 / 4:4:4
    /// 12Le forms; adding a new tail slot keeps existing
    /// discriminants stable. Surfaced by WebCodecs as the
    /// `I420AP12` `VideoPixelFormat`.
    Yuva420p12Le,
    /// Planar 4:2:2 YUVA, 12-bit little-endian.
    Yuva422p12Le,
    /// Planar 4:2:2 YUVA, 12-bit big-endian.
    Yuva422p12Be,
    /// Planar 4:4:4 YUVA, 12-bit little-endian.
    Yuva444p12Le,
    /// Planar 4:4:4 YUVA, 12-bit big-endian.
    Yuva444p12Be,
    /// Planar 4:4:4 YUVA, 14-bit little-endian.
    Yuva444p14Le,
    /// Planar 4:2:0 YUVA, 16-bit little-endian.
    Yuva420p16Le,
    /// Planar 4:2:0 YUVA, 16-bit big-endian.
    Yuva420p16Be,
    /// Planar 4:2:2 YUVA, 16-bit little-endian.
    Yuva422p16Le,
    /// Planar 4:2:2 YUVA, 16-bit big-endian.
    Yuva422p16Be,
    /// Planar 4:4:4 YUVA, 16-bit little-endian.
    Yuva444p16Le,
    /// Planar 4:4:4 YUVA, 16-bit big-endian.
    Yuva444p16Be,

    // Semi-planar YUV (NV-family) — 8-bit
    /// 4:2:0 semi-planar Y plane + interleaved Cb/Cr (`AV_PIX_FMT_NV12`).
    Nv12,
    /// 4:2:0 semi-planar Y + interleaved Cr/Cb (`AV_PIX_FMT_NV21`).
    Nv21,
    /// 4:2:2 semi-planar Y + interleaved Cb/Cr.
    Nv16,
    /// 4:4:4 semi-planar Y + interleaved Cb/Cr.
    Nv24,
    /// 4:4:4 semi-planar Y + interleaved Cr/Cb.
    Nv42,
    /// 10-bit semi-planar 4:2:2 YUV (8 channels in 5 16-bit words), little-endian.
    Nv20Le,
    /// 10-bit semi-planar 4:2:2 YUV (8 channels in 5 16-bit words), big-endian.
    Nv20Be,

    // Semi-planar YUV high-bit-depth (P0xx / P2xx / P4xx)
    /// 4:2:0 semi-planar 10-bit, little-endian (`AV_PIX_FMT_P010LE`).
    P010Le,
    /// 4:2:0 semi-planar 10-bit, big-endian.
    P010Be,
    /// 4:2:0 semi-planar 12-bit, little-endian.
    P012Le,
    /// 4:2:0 semi-planar 12-bit, big-endian.
    P012Be,
    /// 4:2:0 semi-planar 16-bit, little-endian.
    P016Le,
    /// 4:2:0 semi-planar 16-bit, big-endian.
    P016Be,
    /// 4:2:2 semi-planar 10-bit, little-endian.
    P210Le,
    /// 4:2:2 semi-planar 10-bit, big-endian.
    P210Be,
    /// 4:2:2 semi-planar 12-bit, little-endian (FFmpeg 5.1+).
    P212Le,
    /// 4:2:2 semi-planar 12-bit, big-endian (FFmpeg 5.1+).
    P212Be,
    /// 4:2:2 semi-planar 16-bit, little-endian.
    P216Le,
    /// 4:2:2 semi-planar 16-bit, big-endian.
    P216Be,
    /// 4:4:4 semi-planar 10-bit, little-endian.
    P410Le,
    /// 4:4:4 semi-planar 10-bit, big-endian.
    P410Be,
    /// 4:4:4 semi-planar 12-bit, little-endian (FFmpeg 5.1+).
    P412Le,
    /// 4:4:4 semi-planar 12-bit, big-endian (FFmpeg 5.1+).
    P412Be,
    /// 4:4:4 semi-planar 16-bit, little-endian.
    P416Le,
    /// 4:4:4 semi-planar 16-bit, big-endian.
    P416Be,

    // Packed YUV 8-bit
    /// 4:2:2 packed YUV: Y0 U Y1 V (`AV_PIX_FMT_YUYV422`).
    Yuyv422,
    /// 4:2:2 packed YUV: U Y0 V Y1 (`AV_PIX_FMT_UYVY422`).
    Uyvy422,
    /// 4:2:2 packed YUV: Y0 V Y1 U (`AV_PIX_FMT_YVYU422`).
    Yvyu422,
    /// Packed YUV 4:1:1, 12bpp (`AV_PIX_FMT_UYYVYY411`).
    Uyyvyy411,

    // Packed YUV high-bit-depth
    /// 4:2:2 packed YUV 10-bit, little-endian (`AV_PIX_FMT_Y210LE`).
    Y210Le,
    /// 4:2:2 packed YUV 10-bit, big-endian.
    Y210Be,
    /// 4:2:2 packed YUV 12-bit, little-endian (`AV_PIX_FMT_Y212LE`).
    Y212Le,
    /// 4:2:2 packed YUV 12-bit, big-endian.
    Y212Be,
    /// 4:2:2 packed YUV 16-bit, little-endian (`AV_PIX_FMT_Y216LE`).
    Y216Le,
    /// 4:2:2 packed YUV 16-bit, big-endian.
    Y216Be,
    /// 4:2:2 packed 10-bit, 3 samples per 32-bit word (`AV_PIX_FMT_V210`).
    V210,
    /// 4:4:4 packed 10-bit, one 32-bit word per sample (`AV_PIX_FMT_V410LE`).
    V410Le,
    /// 4:4:4 packed 10-bit, alternative layout (`AV_PIX_FMT_XV30LE`),
    /// little-endian.
    Xv30Le,
    /// 4:4:4 packed 10-bit, alternative layout (`AV_PIX_FMT_XV30BE`),
    /// big-endian.
    Xv30Be,
    /// 4:4:4 packed 10-bit, alternative layout (`AV_PIX_FMT_V30XLE`),
    /// little-endian (distinct slug from `xv30le`).
    V30xLe,
    /// 4:4:4 packed 10-bit, alternative layout (`AV_PIX_FMT_V30XBE`),
    /// big-endian (distinct slug from `xv30be`).
    V30xBe,
    /// 4:4:4 packed 12-bit, one 16-bit word per channel (`AV_PIX_FMT_XV36LE`),
    /// little-endian.
    Xv36Le,
    /// 4:4:4 packed 12-bit, one 16-bit word per channel (`AV_PIX_FMT_XV36BE`),
    /// big-endian.
    Xv36Be,
    /// 4:4:4 packed 16-bit, little-endian (`AV_PIX_FMT_XV48LE`).
    Xv48Le,
    /// 4:4:4 packed 16-bit, big-endian (`AV_PIX_FMT_XV48BE`).
    Xv48Be,
    /// 4:4:4 packed 8-bit byte quadruple V, U, Y, A (`AV_PIX_FMT_VUYA`).
    Vuya,
    /// 4:4:4 packed 8-bit V, U, Y, X (alpha-as-padding).
    Vuyx,
    /// Packed AYUV 4:4:4, 32bpp (8-bit; distinct from [`Self::Ayuv64Le`]/[`Self::Ayuv64Be`]).
    Ayuv,
    /// 4:4:4 packed 16-bit word quadruple A, Y, U, V (`AV_PIX_FMT_AYUV64LE`),
    /// little-endian.
    Ayuv64Le,
    /// 4:4:4 packed 16-bit word quadruple A, Y, U, V (`AV_PIX_FMT_AYUV64BE`),
    /// big-endian.
    Ayuv64Be,
    /// Packed UYVA 4:4:4, 32bpp.
    Uyva,
    /// Packed VYU 4:4:4 8-bit (3 bytes per pixel).
    Vyu444,

    // XYZ color space
    /// Packed XYZ 4:4:4, 36bpp (12 bits each), little-endian.
    Xyz12Le,
    /// Packed XYZ 4:4:4, 36bpp (12 bits each), big-endian.
    Xyz12Be,

    // Packed RGB 8-bit
    /// 24-bit packed RGB (`AV_PIX_FMT_RGB24`).
    Rgb24,
    /// 24-bit packed BGR.
    Bgr24,
    /// 32-bit packed RGBA.
    Rgba,
    /// 32-bit packed BGRA.
    Bgra,
    /// 32-bit packed ARGB.
    Argb,
    /// 32-bit packed ABGR.
    Abgr,
    /// 32-bit packed RGB with X (unused) byte.
    /// FFmpeg slug uses `rgb0`-suffix; Rust variant uses `X` because
    /// identifiers can't start with a digit.
    Rgbx,
    /// 32-bit packed BGR with X (unused) byte.
    /// FFmpeg slug uses `bgr0`-suffix; Rust variant uses `X` because
    /// identifiers can't start with a digit.
    Bgrx,
    /// 32-bit packed XRGB (X unused, then RGB).
    /// FFmpeg slug uses `0rgb`-prefix; Rust variant uses `X` because
    /// identifiers can't start with a digit.
    Xrgb,
    /// 32-bit packed XBGR.
    /// FFmpeg slug uses `0bgr`-prefix; Rust variant uses `X` because
    /// identifiers can't start with a digit.
    Xbgr,
    /// 32-bit RGB10 in low bits, 2 bits unused (`AV_PIX_FMT_X2RGB10LE`),
    /// little-endian.
    X2Rgb10Le,
    /// 32-bit RGB10 in low bits, 2 bits unused, big-endian.
    X2Rgb10Be,
    /// 32-bit BGR10 in low bits, 2 bits unused, little-endian.
    X2Bgr10Le,
    /// 32-bit BGR10 in low bits, 2 bits unused, big-endian.
    X2Bgr10Be,
    /// Packed GBR 24bpp (distinct from planar [`Self::Gbrp`]).
    Gbr24p,

    // Packed RGB low-bit (4-bit and 8-bit)
    /// 1+1+1+1-bit packed RGB.
    Rgb4,
    /// Same data as [`Self::Rgb4`], 1 byte per pixel.
    Rgb4Byte,
    /// 3+3+2-bit packed RGB.
    Rgb8,
    /// 1+1+1+1-bit packed BGR.
    Bgr4,
    /// Same data as [`Self::Bgr4`], 1 byte per pixel.
    Bgr4Byte,
    /// 3+3+2-bit packed BGR.
    Bgr8,

    // Packed RGB low-bit (16-bit)
    /// 16-bit packed RGB, 4 bits per channel + 4 unused, little-endian.
    Rgb444Le,
    /// 16-bit packed RGB, 4 bits per channel + 4 unused, big-endian.
    Rgb444Be,
    /// 16-bit packed BGR, 4 bits per channel + 4 unused, little-endian.
    Bgr444Le,
    /// 16-bit packed BGR, 4 bits per channel + 4 unused, big-endian.
    Bgr444Be,
    /// 16-bit packed RGB, 5/5/5 layout, little-endian.
    Rgb555Le,
    /// 16-bit packed RGB, 5/5/5 layout, big-endian.
    Rgb555Be,
    /// 16-bit packed BGR, 5/5/5 layout, little-endian.
    Bgr555Le,
    /// 16-bit packed BGR, 5/5/5 layout, big-endian.
    Bgr555Be,
    /// 16-bit packed RGB, 5/6/5 layout, little-endian.
    Rgb565Le,
    /// 16-bit packed RGB, 5/6/5 layout, big-endian.
    Rgb565Be,
    /// 16-bit packed BGR, 5/6/5 layout, little-endian.
    Bgr565Le,
    /// 16-bit packed BGR, 5/6/5 layout, big-endian.
    Bgr565Be,

    // Packed RGB high-bit-depth
    /// 48-bit packed RGB, 16 bits per channel, little-endian.
    Rgb48Le,
    /// 48-bit packed RGB, 16 bits per channel, big-endian.
    Rgb48Be,
    /// 48-bit packed BGR, 16 bits per channel, little-endian.
    Bgr48Le,
    /// 48-bit packed BGR, 16 bits per channel, big-endian.
    Bgr48Be,
    /// 64-bit packed RGBA, 16 bits per channel, little-endian.
    Rgba64Le,
    /// 64-bit packed RGBA, 16 bits per channel, big-endian.
    Rgba64Be,
    /// 64-bit packed BGRA, 16 bits per channel, little-endian.
    Bgra64Le,
    /// 64-bit packed BGRA, 16 bits per channel, big-endian.
    Bgra64Be,

    // Packed RGB 96-bit / 128-bit (new in n8.1)
    /// 96-bit packed RGB, 32 bits per channel, little-endian.
    Rgb96Le,
    /// 96-bit packed RGB, 32 bits per channel, big-endian.
    Rgb96Be,
    /// 128-bit packed RGBA, 32 bits per channel, little-endian.
    Rgba128Le,
    /// 128-bit packed RGBA, 32 bits per channel, big-endian.
    Rgba128Be,

    // Packed RGB float / half-float
    /// 48-bit packed RGB, 16-bit half-float per channel, little-endian.
    Rgbf16Le,
    /// 48-bit packed RGB, 16-bit half-float per channel, big-endian.
    Rgbf16Be,
    /// 96-bit packed RGB, 32-bit float per channel, little-endian.
    Rgbf32Le,
    /// 96-bit packed RGB, 32-bit float per channel, big-endian.
    Rgbf32Be,
    /// 64-bit packed RGBA, 16-bit half-float per channel, little-endian.
    Rgbaf16Le,
    /// 64-bit packed RGBA, 16-bit half-float per channel, big-endian.
    Rgbaf16Be,
    /// 128-bit packed RGBA, 32-bit float per channel, little-endian.
    Rgbaf32Le,
    /// 128-bit packed RGBA, 32-bit float per channel, big-endian.
    Rgbaf32Be,

    // Planar GBR 8-bit
    /// Planar 4:4:4 G/B/R, 8-bit.
    Gbrp,
    /// Planar 4:4:4 G/B/R, 9-bit little-endian.
    Gbrp9Le,
    /// Planar 4:4:4 G/B/R, 9-bit big-endian.
    Gbrp9Be,
    /// Planar 4:4:4 G/B/R, 10-bit little-endian.
    Gbrp10Le,
    /// Planar 4:4:4 G/B/R, 10-bit big-endian.
    Gbrp10Be,
    /// Planar 4:4:4 G/B/R, 10-bit MSB-packed, little-endian.
    Gbrp10MsbLe,
    /// Planar 4:4:4 G/B/R, 10-bit MSB-packed, big-endian.
    Gbrp10MsbBe,
    /// Planar 4:4:4 G/B/R, 12-bit little-endian.
    Gbrp12Le,
    /// Planar 4:4:4 G/B/R, 12-bit big-endian.
    Gbrp12Be,
    /// Planar 4:4:4 G/B/R, 12-bit MSB-packed, little-endian.
    Gbrp12MsbLe,
    /// Planar 4:4:4 G/B/R, 12-bit MSB-packed, big-endian.
    Gbrp12MsbBe,
    /// Planar 4:4:4 G/B/R, 14-bit little-endian.
    Gbrp14Le,
    /// Planar 4:4:4 G/B/R, 14-bit big-endian.
    Gbrp14Be,
    /// Planar 4:4:4 G/B/R, 16-bit little-endian.
    Gbrp16Le,
    /// Planar 4:4:4 G/B/R, 16-bit big-endian.
    Gbrp16Be,
    /// Planar 4:4:4 G/B/R, 16-bit half-float, little-endian.
    Gbrpf16Le,
    /// Planar 4:4:4 G/B/R, 16-bit half-float, big-endian.
    Gbrpf16Be,
    /// Planar 4:4:4 G/B/R, 32-bit float, little-endian.
    Gbrpf32Le,
    /// Planar 4:4:4 G/B/R, 32-bit float, big-endian.
    Gbrpf32Be,

    // Planar GBRA (with alpha)
    /// Planar 4:4:4 G/B/R/A, 8-bit.
    Gbrap,
    /// Planar 4:4:4 G/B/R/A, 10-bit little-endian.
    Gbrap10Le,
    /// Planar 4:4:4 G/B/R/A, 10-bit big-endian.
    Gbrap10Be,
    /// Planar 4:4:4 G/B/R/A, 12-bit little-endian.
    Gbrap12Le,
    /// Planar 4:4:4 G/B/R/A, 12-bit big-endian.
    Gbrap12Be,
    /// Planar 4:4:4 G/B/R/A, 14-bit little-endian.
    Gbrap14Le,
    /// Planar 4:4:4 G/B/R/A, 14-bit big-endian.
    Gbrap14Be,
    /// Planar 4:4:4 G/B/R/A, 16-bit little-endian.
    Gbrap16Le,
    /// Planar 4:4:4 G/B/R/A, 16-bit big-endian.
    Gbrap16Be,
    /// Planar 4:4:4 G/B/R/A, 32-bit integer, little-endian.
    Gbrap32Le,
    /// Planar 4:4:4 G/B/R/A, 32-bit integer, big-endian.
    Gbrap32Be,
    /// Planar 4:4:4 G/B/R/A, 16-bit half-float, little-endian.
    Gbrapf16Le,
    /// Planar 4:4:4 G/B/R/A, 16-bit half-float, big-endian.
    Gbrapf16Be,
    /// Planar 4:4:4 G/B/R/A, 32-bit float, little-endian.
    Gbrapf32Le,
    /// Planar 4:4:4 G/B/R/A, 32-bit float, big-endian.
    Gbrapf32Be,

    // Greyscale
    /// 8-bit greyscale (`AV_PIX_FMT_GRAY8`).
    Gray8,
    /// 8-bit greyscale — FFmpeg `AV_PIX_FMT_GRAY8A` alias of [`Self::Ya8`];
    /// preserved as a separate variant since mediaframe's wire format is
    /// discriminant-independent.
    Gray8a,
    /// 9-bit greyscale, little-endian.
    Gray9Le,
    /// 9-bit greyscale, big-endian.
    Gray9Be,
    /// 10-bit greyscale, little-endian.
    Gray10Le,
    /// 10-bit greyscale, big-endian.
    Gray10Be,
    /// 12-bit greyscale, little-endian.
    Gray12Le,
    /// 12-bit greyscale, big-endian.
    Gray12Be,
    /// 14-bit greyscale, little-endian.
    Gray14Le,
    /// 14-bit greyscale, big-endian.
    Gray14Be,
    /// 16-bit greyscale, little-endian.
    Gray16Le,
    /// 16-bit greyscale, big-endian.
    Gray16Be,
    /// 32-bit integer greyscale, little-endian.
    Gray32Le,
    /// 32-bit integer greyscale, big-endian.
    Gray32Be,
    /// 32-bit float greyscale, little-endian.
    Grayf32Le,
    /// 32-bit float greyscale, big-endian.
    Grayf32Be,
    /// 16-bit half-float greyscale, little-endian.
    Grayf16Le,
    /// 16-bit half-float greyscale, big-endian.
    Grayf16Be,
    /// 16-bit greyscale-with-alpha.
    Ya8,
    /// FFmpeg `AV_PIX_FMT_Y400A` alias of [`Self::Ya8`]; preserved as a separate
    /// variant since mediaframe's wire format is discriminant-independent.
    Y400a,
    /// 32-bit greyscale-with-alpha, little-endian.
    Ya16Le,
    /// 32-bit greyscale-with-alpha, big-endian.
    Ya16Be,
    /// 16-bit half-float greyscale-with-alpha, little-endian.
    Yaf16Le,
    /// 16-bit half-float greyscale-with-alpha, big-endian.
    Yaf16Be,
    /// 64-bit float greyscale-with-alpha, little-endian.
    Yaf32Le,
    /// 64-bit float greyscale-with-alpha, big-endian.
    Yaf32Be,

    // Monochrome 1-bit
    /// 1-bit monochrome, white = 0 (`AV_PIX_FMT_MONOWHITE`).
    Monowhite,
    /// 1-bit monochrome, black = 0 (`AV_PIX_FMT_MONOBLACK`).
    Monoblack,

    // Paletted
    /// Paletted 8-bit (`AV_PIX_FMT_PAL8`).
    Pal8,

    // Bayer
    /// Bayer BGGR pattern, 8-bit.
    BayerBggr8,
    /// Bayer RGGB pattern, 8-bit.
    BayerRggb8,
    /// Bayer GBRG pattern, 8-bit.
    BayerGbrg8,
    /// Bayer GRBG pattern, 8-bit.
    BayerGrbg8,
    /// Bayer BGGR pattern, 10-bit little-endian (low-packed in u16).
    BayerBggr10Le,
    /// Bayer RGGB pattern, 10-bit little-endian.
    BayerRggb10Le,
    /// Bayer GBRG pattern, 10-bit little-endian.
    BayerGbrg10Le,
    /// Bayer GRBG pattern, 10-bit little-endian.
    BayerGrbg10Le,
    /// Bayer BGGR pattern, 12-bit little-endian.
    BayerBggr12Le,
    /// Bayer RGGB pattern, 12-bit little-endian.
    BayerRggb12Le,
    /// Bayer GBRG pattern, 12-bit little-endian.
    BayerGbrg12Le,
    /// Bayer GRBG pattern, 12-bit little-endian.
    BayerGrbg12Le,
    /// Bayer BGGR pattern, 14-bit little-endian.
    BayerBggr14Le,
    /// Bayer RGGB pattern, 14-bit little-endian.
    BayerRggb14Le,
    /// Bayer GBRG pattern, 14-bit little-endian.
    BayerGbrg14Le,
    /// Bayer GRBG pattern, 14-bit little-endian.
    BayerGrbg14Le,
    /// Bayer BGGR pattern, 16-bit little-endian.
    BayerBggr16Le,
    /// Bayer BGGR pattern, 16-bit big-endian.
    BayerBggr16Be,
    /// Bayer RGGB pattern, 16-bit little-endian.
    BayerRggb16Le,
    /// Bayer RGGB pattern, 16-bit big-endian.
    BayerRggb16Be,
    /// Bayer GBRG pattern, 16-bit little-endian.
    BayerGbrg16Le,
    /// Bayer GBRG pattern, 16-bit big-endian.
    BayerGbrg16Be,
    /// Bayer GRBG pattern, 16-bit little-endian.
    BayerGrbg16Le,
    /// Bayer GRBG pattern, 16-bit big-endian.
    BayerGrbg16Be,
}

/// The wire code of a pixel format.
pub open spec fn format_code(p: PixelFormat) -> u32 {
    match p {
        PixelFormat::Yuv420p => 100,
        PixelFormat::Yuv422p => 101,
        PixelFormat::Yuv440p => 102,
        PixelFormat::Yuv444p => 103,
        PixelFormat::Yuv411p => 104,
        PixelFormat::Yuv410p => 105,
        PixelFormat::Yuvj411p => 106,
        PixelFormat::Yuvj420p => 107,
        PixelFormat::Yuvj422p => 108,
        PixelFormat::Yuvj440p => 109,
        PixelFormat::Yuvj444p => 110,
        PixelFormat::Yuv420p9Le => 111,
        PixelFormat::Yuv420p9Be => 112,
        PixelFormat::Yuv420p10Le => 113,
        PixelFormat::Yuv420p10Be => 114,
        PixelFormat::Yuv420p12Le => 115,
        PixelFormat::Yuv420p12Be => 116,
        PixelFormat::Yuv420p14Le => 117,
        PixelFormat::Yuv420p14Be => 118,
        PixelFormat::Yuv420p16Le => 119,
        PixelFormat::Yuv420p16Be => 120,
        PixelFormat::Yuv422p9Le => 121,
        PixelFormat::Yuv422p9Be => 122,
        PixelFormat::Yuv422p10Le => 123,
        PixelFormat::Yuv422p10Be => 124,
        PixelFormat::Yuv422p12Le => 125,
        PixelFormat::Yuv422p12Be => 126,
        PixelFormat::Yuv422p14Le => 127,
        PixelFormat::Yuv422p14Be => 128,
        PixelFormat::Yuv422p16Le => 129,
        PixelFormat::Yuv422p16Be => 130,
        PixelFormat::Yuv440p10Le => 131,
        PixelFormat::Yuv440p10Be => 132,
        PixelFormat::Yuv440p12Le => 133,
        PixelFormat::Yuv440p12Be => 134,
        PixelFormat::Yuv444p9Le => 140,
        PixelFormat::Yuv444p9Be => 141,
        PixelFormat::Yuv444p10Le => 142,
        PixelFormat::Yuv444p10Be => 143,
        PixelFormat::Yuv444p12Le => 144,
        PixelFormat::Yuv444p12Be => 145,
        PixelFormat::Yuv444p14Le => 146,
        PixelFormat::Yuv444p14Be => 147,
        PixelFormat::Yuv444p16Le => 148,
        PixelFormat::Yuv444p16Be => 149,
        PixelFormat::Yuv444p10MsbLe => 150,
        PixelFormat::Yuv444p10MsbBe => 151,
        PixelFormat::Yuv444p12MsbLe => 152,
        PixelFormat::Yuv444p12MsbBe => 153,
        PixelFormat::Yuva420p => 200,
        PixelFormat::Yuva422p => 201,
        PixelFormat::Yuva444p => 202,
        PixelFormat::Yuva420p9Le => 203,
        PixelFormat::Yuva420p9Be => 216,
        PixelFormat::Yuva422p9Le => 204,
        PixelFormat::Yuva422p9Be => 217,
        PixelFormat::Yuva444p9Le => 205,
        PixelFormat::Yuva444p9Be => 218,
        PixelFormat::Yuva420p10Le => 206,
        PixelFormat::Yuva420p10Be => 219,
        PixelFormat::Yuva422p10Le => 207,
        PixelFormat::Yuva422p10Be => 220,
        PixelFormat::Yuva444p10Le => 208,
        PixelFormat::Yuva444p10Be => 221,
        PixelFormat::Yuva420p12Le => 215,
        PixelFormat::Yuva422p12Le => 209,
        PixelFormat::Yuva422p12Be => 222,
        PixelFormat::Yuva444p12Le => 210,
        PixelFormat::Yuva444p12Be => 223,
        PixelFormat::Yuva444p14Le => 211,
        PixelFormat::Yuva420p16Le => 212,
        PixelFormat::Yuva420p16Be => 224,
        PixelFormat::Yuva422p16Le => 213,
        PixelFormat::Yuva422p16Be => 225,
        PixelFormat::Yuva444p16Le => 214,
        PixelFormat::Yuva444p16Be => 226,
        PixelFormat::Nv12 => 300,
        PixelFormat::Nv21 => 301,
        PixelFormat::Nv16 => 302,
        PixelFormat::Nv24 => 303,
        PixelFormat::Nv42 => 304,
        PixelFormat::Nv20Le => 305,
        PixelFormat::Nv20Be => 306,
        PixelFormat::P010Le => 310,
        PixelFormat::P010Be => 311,
        PixelFormat::P012Le => 312,
        PixelFormat::P012Be => 320,
        PixelFormat::P016Le => 313,
        PixelFormat::P016Be => 321,
        PixelFormat::P210Le => 314,
        PixelFormat::P210Be => 322,
        PixelFormat::P212Le => 315,
        PixelFormat::P212Be => 323,
        PixelFormat::P216Le => 316,
        PixelFormat::P216Be => 324,
        PixelFormat::P410Le => 317,
        PixelFormat::P410Be => 325,
        PixelFormat::P412Le => 318,
        PixelFormat::P412Be => 326,
        PixelFormat::P416Le => 319,
        PixelFormat::P416Be => 327,
        PixelFormat::Yuyv422 => 400,
        PixelFormat::Uyvy422 => 401,
        PixelFormat::Yvyu422 => 402,
        PixelFormat::Uyyvyy411 => 403,
        PixelFormat::Y210Le => 410,
        PixelFormat::Y210Be => 420,
        PixelFormat::Y212Le => 411,
        PixelFormat::Y212Be => 421,
        PixelFormat::Y216Le => 412,
        PixelFormat::Y216Be => 422,
        PixelFormat::V210 => 413,
        PixelFormat::V410Le => 414,
        PixelFormat::Xv30Le => 415,
        PixelFormat::Xv30Be => 423,
        PixelFormat::V30xLe => 433,
        PixelFormat::V30xBe => 434,
        PixelFormat::Xv36Le => 416,
        PixelFormat::Xv36Be => 424,
        PixelFormat::Xv48Le => 425,
        PixelFormat::Xv48Be => 426,
        PixelFormat::Vuya => 417,
        PixelFormat::Vuyx => 418,
        PixelFormat::Ayuv => 427,
        PixelFormat::Ayuv64Le => 419,
        PixelFormat::Ayuv64Be => 428,
        PixelFormat::Uyva => 429,
        PixelFormat::Vyu444 => 430,
        PixelFormat::Xyz12Le => 431,
        PixelFormat::Xyz12Be => 432,
        PixelFormat::Rgb24 => 500,
        PixelFormat::Bgr24 => 501,
        PixelFormat::Rgba => 502,
        PixelFormat::Bgra => 503,
        PixelFormat::Argb => 504,
        PixelFormat::Abgr => 505,
        PixelFormat::Rgbx => 506,
        PixelFormat::Bgrx => 507,
        PixelFormat::Xrgb => 508,
        PixelFormat::Xbgr => 509,
        PixelFormat::X2Rgb10Le => 510,
        PixelFormat::X2Rgb10Be => 512,
        PixelFormat::X2Bgr10Le => 511,
        PixelFormat::X2Bgr10Be => 513,
        PixelFormat::Gbr24p => 514,
        PixelFormat::Rgb4 => 515,
        PixelFormat::Rgb4Byte => 516,
        PixelFormat::Rgb8 => 517,
        PixelFormat::Bgr4 => 518,
        PixelFormat::Bgr4Byte => 519,
        PixelFormat::Bgr8 => 560,
        PixelFormat::Rgb444Le => 520,
        PixelFormat::Rgb444Be => 561,
        PixelFormat::Bgr444Le => 521,
        PixelFormat::Bgr444Be => 562,
        PixelFormat::Rgb555Le => 522,
        PixelFormat::Rgb555Be => 563,
        PixelFormat::Bgr555Le => 523,
        PixelFormat::Bgr555Be => 564,
        PixelFormat::Rgb565Le => 524,
        PixelFormat::Rgb565Be => 565,
        PixelFormat::Bgr565Le => 525,
        PixelFormat::Bgr565Be => 566,
        PixelFormat::Rgb48Le => 530,
        PixelFormat::Rgb48Be => 567,
        PixelFormat::Bgr48Le => 531,
        PixelFormat::Bgr48Be => 568,
        PixelFormat::Rgba64Le => 532,
        PixelFormat::Rgba64Be => 569,
        PixelFormat::Bgra64Le => 533,
        PixelFormat::Bgra64Be => 570,
        PixelFormat::Rgb96Le => 571,
        PixelFormat::Rgb96Be => 572,
        PixelFormat::Rgba128Le => 573,
        PixelFormat::Rgba128Be => 574,
        PixelFormat::Rgbf16Le => 540,
        PixelFormat::Rgbf16Be => 541,
        PixelFormat::Rgbf32Le => 542,
        PixelFormat::Rgbf32Be => 543,
        PixelFormat::Rgbaf16Le => 544,
        PixelFormat::Rgbaf16Be => 545,
        PixelFormat::Rgbaf32Le => 546,
        PixelFormat::Rgbaf32Be => 547,
        PixelFormat::Gbrp => 600,
        PixelFormat::Gbrp9Le => 601,
        PixelFormat::Gbrp9Be => 608,
        PixelFormat::Gbrp10Le => 602,
        PixelFormat::Gbrp10Be => 609,
        PixelFormat::Gbrp10MsbLe => 630,
        PixelFormat::Gbrp10MsbBe => 631,
        PixelFormat::Gbrp12Le => 603,
        PixelFormat::Gbrp12Be => 610,
        PixelFormat::Gbrp12MsbLe => 632,
        PixelFormat::Gbrp12MsbBe => 633,
        PixelFormat::Gbrp14Le => 604,
        PixelFormat::Gbrp14Be => 611,
        PixelFormat::Gbrp16Le => 605,
        PixelFormat::Gbrp16Be => 612,
        PixelFormat::Gbrpf16Le => 606,
        PixelFormat::Gbrpf16Be => 613,
        PixelFormat::Gbrpf32Le => 607,
        PixelFormat::Gbrpf32Be => 614,
        PixelFormat::Gbrap => 620,
        PixelFormat::Gbrap10Le => 621,
        PixelFormat::Gbrap10Be => 634,
        PixelFormat::Gbrap12Le => 622,
        PixelFormat::Gbrap12Be => 635,
        PixelFormat::Gbrap14Le => 623,
        PixelFormat::Gbrap14Be => 636,
        PixelFormat::Gbrap16Le => 624,
        PixelFormat::Gbrap16Be => 637,
        PixelFormat::Gbrap32Le => 638,
        PixelFormat::Gbrap32Be => 639,
        PixelFormat::Gbrapf16Le => 625,
        PixelFormat::Gbrapf16Be => 640,
        PixelFormat::Gbrapf32Le => 626,
        PixelFormat::Gbrapf32Be => 641,
        PixelFormat::Gray8 => 700,
        PixelFormat::Gray8a => 701,
        PixelFormat::Gray9Le => 702,
        PixelFormat::Gray9Be => 712,
        PixelFormat::Gray10Le => 703,
        PixelFormat::Gray10Be => 713,
        PixelFormat::Gray12Le => 704,
        PixelFormat::Gray12Be => 714,
        PixelFormat::Gray14Le => 705,
        PixelFormat::Gray14Be => 715,
        PixelFormat::Gray16Le => 706,
        PixelFormat::Gray16Be => 716,
        PixelFormat::Gray32Le => 717,
        PixelFormat::Gray32Be => 718,
        PixelFormat::Grayf32Le => 707,
        PixelFormat::Grayf32Be => 719,
        PixelFormat::Grayf16Le => 720,
        PixelFormat::Grayf16Be => 721,
        PixelFormat::Ya8 => 730,
        PixelFormat::Y400a => 731,
        PixelFormat::Ya16Le => 732,
        PixelFormat::Ya16Be => 733,
        PixelFormat::Yaf16Le => 734,
        PixelFormat::Yaf16Be => 735,
        PixelFormat::Yaf32Le => 736,
        PixelFormat::Yaf32Be => 737,
        PixelFormat::Monowhite => 740,
        PixelFormat::Monoblack => 741,
        PixelFormat::Pal8 => 800,
        PixelFormat::BayerBggr8 => 900,
        PixelFormat::BayerRggb8 => 901,
        PixelFormat::BayerGbrg8 => 902,
        PixelFormat::BayerGrbg8 => 903,
        PixelFormat::BayerBggr10Le => 910,
        PixelFormat::BayerRggb10Le => 911,
        PixelFormat::BayerGbrg10Le => 912,
        PixelFormat::BayerGrbg10Le => 913,
        PixelFormat::BayerBggr12Le => 920,
        PixelFormat::BayerRggb12Le => 921,
        PixelFormat::BayerGbrg12Le => 922,
        PixelFormat::BayerGrbg12Le => 923,
        PixelFormat::BayerBggr14Le => 930,
        PixelFormat::BayerRggb14Le => 931,
        PixelFormat::BayerGbrg14Le => 932,
        PixelFormat::BayerGrbg14Le => 933,
        PixelFormat::BayerBggr16Le => 940,
        PixelFormat::BayerBggr16Be => 944,
        PixelFormat::BayerRggb16Le => 941,
        PixelFormat::BayerRggb16Be => 945,
        PixelFormat::BayerGbrg16Le => 942,
        PixelFormat::BayerGbrg16Be => 946,
        PixelFormat::BayerGrbg16Le => 943,
        PixelFormat::BayerGrbg16Be => 947,
        PixelFormat::Unknown(code) => code,
    }
}

/// The pixel format a wire code decodes to: the known format assigned
/// that code, or `Unknown` carrying the code.
pub open spec fn format_of_code(code: u32) -> PixelFormat {
    match code {
        100 => PixelFormat::Yuv420p,
        101 => PixelFormat::Yuv422p,
        102 => PixelFormat::Yuv440p,
        103 => PixelFormat::Yuv444p,
        104 => PixelFormat::Yuv411p,
        105 => PixelFormat::Yuv410p,
        106 => PixelFormat::Yuvj411p,
        107 => PixelFormat::Yuvj420p,
        108 => PixelFormat::Yuvj422p,
        109 => PixelFormat::Yuvj440p,
        110 => PixelFormat::Yuvj444p,
        111 => PixelFormat::Yuv420p9Le,
        112 => PixelFormat::Yuv420p9Be,
        113 => PixelFormat::Yuv420p10Le,
        114 => PixelFormat::Yuv420p10Be,
        115 => PixelFormat::Yuv420p12Le,
        116 => PixelFormat::Yuv420p12Be,
        117 => PixelFormat::Yuv420p14Le,
        118 => PixelFormat::Yuv420p14Be,
        119 => PixelFormat::Yuv420p16Le,
        120 => PixelFormat::Yuv420p16Be,
        121 => PixelFormat::Yuv422p9Le,
        122 => PixelFormat::Yuv422p9Be,
        123 => PixelFormat::Yuv422p10Le,
        124 => PixelFormat::Yuv422p10Be,
        125 => PixelFormat::Yuv422p12Le,
        126 => PixelFormat::Yuv422p12Be,
        127 => PixelFormat::Yuv422p14Le,
        128 => PixelFormat::Yuv422p14Be,
        129 => PixelFormat::Yuv422p16Le,
        130 => PixelFormat::Yuv422p16Be,
        131 => PixelFormat::Yuv440p10Le,
        132 => PixelFormat::Yuv440p10Be,
        133 => PixelFormat::Yuv440p12Le,
        134 => PixelFormat::Yuv440p12Be,
        140 => PixelFormat::Yuv444p9Le,
        141 => PixelFormat::Yuv444p9Be,
        142 => PixelFormat::Yuv444p10Le,
        143 => PixelFormat::Yuv444p10Be,
        144 => PixelFormat::Yuv444p12Le,
        145 => PixelFormat::Yuv444p12Be,
        146 => PixelFormat::Yuv444p14Le,
        147 => PixelFormat::Yuv444p14Be,
        148 => PixelFormat::Yuv444p16Le,
        149 => PixelFormat::Yuv444p16Be,
        150 => PixelFormat::Yuv444p10MsbLe,
        151 => PixelFormat::Yuv444p10MsbBe,
        152 => PixelFormat::Yuv444p12MsbLe,
        153 => PixelFormat::Yuv444p12MsbBe,
        200 => PixelFormat::Yuva420p,
        201 => PixelFormat::Yuva422p,
        202 => PixelFormat::Yuva444p,
        203 => PixelFormat::Yuva420p9Le,
        204 => PixelFormat::Yuva422p9Le,
        205 => PixelFormat::Yuva444p9Le,
        206 => PixelFormat::Yuva420p10Le,
        207 => PixelFormat::Yuva422p10Le,
        208 => PixelFormat::Yuva444p10Le,
        209 => PixelFormat::Yuva422p12Le,
        210 => PixelFormat::Yuva444p12Le,
        211 => PixelFormat::Yuva444p14Le,
        212 => PixelFormat::Yuva420p16Le,
        213 => PixelFormat::Yuva422p16Le,
        214 => PixelFormat::Yuva444p16Le,
        215 => PixelFormat::Yuva420p12Le,
        216 => PixelFormat::Yuva420p9Be,
        217 => PixelFormat::Yuva422p9Be,
        218 => PixelFormat::Yuva444p9Be,
        219 => PixelFormat::Yuva420p10Be,
        220 => PixelFormat::Yuva422p10Be,
        221 => PixelFormat::Yuva444p10Be,
        222 => PixelFormat::Yuva422p12Be,
        223 => PixelFormat::Yuva444p12Be,
        224 => PixelFormat::Yuva420p16Be,
        225 => PixelFormat::Yuva422p16Be,
        226 => PixelFormat::Yuva444p16Be,
        300 => PixelFormat::Nv12,
        301 => PixelFormat::Nv21,
        302 => PixelFormat::Nv16,
        303 => PixelFormat::Nv24,
        304 => PixelFormat::Nv42,
        305 => PixelFormat::Nv20Le,
        306 => PixelFormat::Nv20Be,
        310 => PixelFormat::P010Le,
        311 => PixelFormat::P010Be,
        312 => PixelFormat::P012Le,
        313 => PixelFormat::P016Le,
        314 => PixelFormat::P210Le,
        315 => PixelFormat::P212Le,
        316 => PixelFormat::P216Le,
        317 => PixelFormat::P410Le,
        318 => PixelFormat::P412Le,
        319 => PixelFormat::P416Le,
        320 => PixelFormat::P012Be,
        321 => PixelFormat::P016Be,
        322 => PixelFormat::P210Be,
        323 => PixelFormat::P212Be,
        324 => PixelFormat::P216Be,
        325 => PixelFormat::P410Be,
        326 => PixelFormat::P412Be,
        327 => PixelFormat::P416Be,
        400 => PixelFormat::Yuyv422,
        401 => PixelFormat::Uyvy422,
        402 => PixelFormat::Yvyu422,
        403 => PixelFormat::Uyyvyy411,
        410 => PixelFormat::Y210Le,
        411 => PixelFormat::Y212Le,
        412 => PixelFormat::Y216Le,
        413 => PixelFormat::V210,
        414 => PixelFormat::V410Le,
        415 => PixelFormat::Xv30Le,
        416 => PixelFormat::Xv36Le,
        417 => PixelFormat::Vuya,
        418 => PixelFormat::Vuyx,
        419 => PixelFormat::Ayuv64Le,
        420 => PixelFormat::Y210Be,
        421 => PixelFormat::Y212Be,
        422 => PixelFormat::Y216Be,
        423 => PixelFormat::Xv30Be,
        433 => PixelFormat::V30xLe,
        434 => PixelFormat::V30xBe,
        424 => PixelFormat::Xv36Be,
        425 => PixelFormat::Xv48Le,
        426 => PixelFormat::Xv48Be,
        427 => PixelFormat::Ayuv,
        428 => PixelFormat::Ayuv64Be,
        429 => PixelFormat::Uyva,
        430 => PixelFormat::Vyu444,
        431 => PixelFormat::Xyz12Le,
        432 => PixelFormat::Xyz12Be,
        500 => PixelFormat::Rgb24,
        501 => PixelFormat::Bgr24,
        502 => PixelFormat::Rgba,
        503 => PixelFormat::Bgra,
        504 => PixelFormat::Argb,
        505 => PixelFormat::Abgr,
        506 => PixelFormat::Rgbx,
        507 => PixelFormat::Bgrx,
        508 => PixelFormat::Xrgb,
        509 => PixelFormat::Xbgr,
        510 => PixelFormat::X2Rgb10Le,
        511 => PixelFormat::X2Bgr10Le,
        512 => PixelFormat::X2Rgb10Be,
        513 => PixelFormat::X2Bgr10Be,
        514 => PixelFormat::Gbr24p,
        515 => PixelFormat::Rgb4,
        516 => PixelFormat::Rgb4Byte,
        517 => PixelFormat::Rgb8,
        518 => PixelFormat::Bgr4,
        519 => PixelFormat::Bgr4Byte,
        560 => PixelFormat::Bgr8,
        520 => PixelFormat::Rgb444Le,
        521 => PixelFormat::Bgr444Le,
        522 => PixelFormat::Rgb555Le,
        523 => PixelFormat::Bgr555Le,
        524 => PixelFormat::Rgb565Le,
        525 => PixelFormat::Bgr565Le,
        561 => PixelFormat::Rgb444Be,
        562 => PixelFormat::Bgr444Be,
        563 => PixelFormat::Rgb555Be,
        564 => PixelFormat::Bgr555Be,
        565 => PixelFormat::Rgb565Be,
        566 => PixelFormat::Bgr565Be,
        530 => PixelFormat::Rgb48Le,
        531 => PixelFormat::Bgr48Le,
        532 => PixelFormat::Rgba64Le,
        533 => PixelFormat::Bgra64Le,
        567 => PixelFormat::Rgb48Be,
        568 => PixelFormat::Bgr48Be,
        569 => PixelFormat::Rgba64Be,
        570 => PixelFormat::Bgra64Be,
        571 => PixelFormat::Rgb96Le,
        572 => PixelFormat::Rgb96Be,
        573 => PixelFormat::Rgba128Le,
        574 => PixelFormat::Rgba128Be,
        540 => PixelFormat::Rgbf16Le,
        541 => PixelFormat::Rgbf16Be,
        542 => PixelFormat::Rgbf32Le,
        543 => PixelFormat::Rgbf32Be,
        544 => PixelFormat::Rgbaf16Le,
        545 => PixelFormat::Rgbaf16Be,
        546 => PixelFormat::Rgbaf32Le,
        547 => PixelFormat::Rgbaf32Be,
        600 => PixelFormat::Gbrp,
        601 => PixelFormat::Gbrp9Le,
        602 => PixelFormat::Gbrp10Le,
        603 => PixelFormat::Gbrp12Le,
        604 => PixelFormat::Gbrp14Le,
        605 => PixelFormat::Gbrp16Le,
        606 => PixelFormat::Gbrpf16Le,
        607 => PixelFormat::Gbrpf32Le,
        608 => PixelFormat::Gbrp9Be,
        609 => PixelFormat::Gbrp10Be,
        610 => PixelFormat::Gbrp12Be,
        611 => PixelFormat::Gbrp14Be,
        612 => PixelFormat::Gbrp16Be,
        613 => PixelFormat::Gbrpf16Be,
        614 => PixelFormat::Gbrpf32Be,
        630 => PixelFormat::Gbrp10MsbLe,
        631 => PixelFormat::Gbrp10MsbBe,
        632 => PixelFormat::Gbrp12MsbLe,
        633 => PixelFormat::Gbrp12MsbBe,
        620 => PixelFormat::Gbrap,
        621 => PixelFormat::Gbrap10Le,
        622 => PixelFormat::Gbrap12Le,
        623 => PixelFormat::Gbrap14Le,
        624 => PixelFormat::Gbrap16Le,
        625 => PixelFormat::Gbrapf16Le,
        626 => PixelFormat::Gbrapf32Le,
        634 => PixelFormat::Gbrap10Be,
        635 => PixelFormat::Gbrap12Be,
        636 => PixelFormat::Gbrap14Be,
        637 => PixelFormat::Gbrap16Be,
        638 => PixelFormat::Gbrap32Le,
        639 => PixelFormat::Gbrap32Be,
        640 => PixelFormat::Gbrapf16Be,
        641 => PixelFormat::Gbrapf32Be,
        700 => PixelFormat::Gray8,
        701 => PixelFormat::Gray8a,
        702 => PixelFormat::Gray9Le,
        703 => PixelFormat::Gray10Le,
        704 => PixelFormat::Gray12Le,
        705 => PixelFormat::Gray14Le,
        706 => PixelFormat::Gray16Le,
        707 => PixelFormat::Grayf32Le,
        712 => PixelFormat::Gray9Be,
        713 => PixelFormat::Gray10Be,
        714 => PixelFormat::Gray12Be,
        715 => PixelFormat::Gray14Be,
        716 => PixelFormat::Gray16Be,
        717 => PixelFormat::Gray32Le,
        718 => PixelFormat::Gray32Be,
        719 => PixelFormat::Grayf32Be,
        720 => PixelFormat::Grayf16Le,
        721 => PixelFormat::Grayf16Be,
        730 => PixelFormat::Ya8,
        731 => PixelFormat::Y400a,
        732 => PixelFormat::Ya16Le,
        733 => PixelFormat::Ya16Be,
        734 => PixelFormat::Yaf16Le,
        735 => PixelFormat::Yaf16Be,
        736 => PixelFormat::Yaf32Le,
        737 => PixelFormat::Yaf32Be,
        740 => PixelFormat::Monowhite,
        741 => PixelFormat::Monoblack,
        800 => PixelFormat::Pal8,
        900 => PixelFormat::BayerBggr8,
        901 => PixelFormat::BayerRggb8,
        902 => PixelFormat::BayerGbrg8,
        903 => PixelFormat::BayerGrbg8,
        910 => PixelFormat::BayerBggr10Le,
        911 => PixelFormat::BayerRggb10Le,
        912 => PixelFormat::BayerGbrg10Le,
        913 => PixelFormat::BayerGrbg10Le,
        920 => PixelFormat::BayerBggr12Le,
        921 => PixelFormat::BayerRggb12Le,
        922 => PixelFormat::BayerGbrg12Le,
        923 => PixelFormat::BayerGrbg12Le,
        930 => PixelFormat::BayerBggr14Le,
        931 => PixelFormat::BayerRggb14Le,
        932 => PixelFormat::BayerGbrg14Le,
        933 => PixelFormat::BayerGrbg14Le,
        940 => PixelFormat::BayerBggr16Le,
        941 => PixelFormat::BayerRggb16Le,
        942 => PixelFormat::BayerGbrg16Le,
        943 => PixelFormat::BayerGrbg16Le,
        944 => PixelFormat::BayerBggr16Be,
        945 => PixelFormat::BayerRggb16Be,
        946 => PixelFormat::BayerGbrg16Be,
        947 => PixelFormat::BayerGrbg16Be,
        _ => PixelFormat::Unknown(code),
    }
}

/// A known format is assigned `code`.
pub open spec fn is_known_code(code: u32) -> bool {
    !(format_of_code(code) is Unknown)
}

/// The lowercase FFmpeg-style name of a pixel format.
pub open spec fn format_name(p: PixelFormat) -> Seq<char> {
    match p {
        PixelFormat::Unknown(_) => "unknown"@,
        PixelFormat::Yuv420p => "yuv420p"@,
        PixelFormat::Yuv422p => "yuv422p"@,
        PixelFormat::Yuv440p => "yuv440p"@,
        PixelFormat::Yuv444p => "yuv444p"@,
        PixelFormat::Yuv411p => "yuv411p"@,
        PixelFormat::Yuv410p => "yuv410p"@,
        PixelFormat::Yuvj411p => "yuvj411p"@,
        PixelFormat::Yuvj420p => "yuvj420p"@,
        PixelFormat::Yuvj422p => "yuvj422p"@,
        PixelFormat::Yuvj440p => "yuvj440p"@,
        PixelFormat::Yuvj444p => "yuvj444p"@,
        PixelFormat::Yuv420p9Le => "yuv420p9le"@,
        PixelFormat::Yuv420p9Be => "yuv420p9be"@,
        PixelFormat::Yuv420p10Le => "yuv420p10le"@,
        PixelFormat::Yuv420p10Be => "yuv420p10be"@,
        PixelFormat::Yuv420p12Le => "yuv420p12le"@,
        PixelFormat::Yuv420p12Be => "yuv420p12be"@,
        PixelFormat::Yuv420p14Le => "yuv420p14le"@,
        PixelFormat::Yuv420p14Be => "yuv420p14be"@,
        PixelFormat::Yuv420p16Le => "yuv420p16le"@,
        PixelFormat::Yuv420p16Be => "yuv420p16be"@,
        PixelFormat::Yuv422p9Le => "yuv422p9le"@,
        PixelFormat::Yuv422p9Be => "yuv422p9be"@,
        PixelFormat::Yuv422p10Le => "yuv422p10le"@,
        PixelFormat::Yuv422p10Be => "yuv422p10be"@,
        PixelFormat::Yuv422p12Le => "yuv422p12le"@,
        PixelFormat::Yuv422p12Be => "yuv422p12be"@,
        PixelFormat::Yuv422p14Le => "yuv422p14le"@,
        PixelFormat::Yuv422p14Be => "yuv422p14be"@,
        PixelFormat::Yuv422p16Le => "yuv422p16le"@,
        PixelFormat::Yuv422p16Be => "yuv422p16be"@,
        PixelFormat::Yuv440p10Le => "yuv440p10le"@,
        PixelFormat::Yuv440p10Be => "yuv440p10be"@,
        PixelFormat::Yuv440p12Le => "yuv440p12le"@,
        PixelFormat::Yuv440p12Be => "yuv440p12be"@,
        PixelFormat::Yuv444p9Le => "yuv444p9le"@,
        PixelFormat::Yuv444p9Be => "yuv444p9be"@,
        PixelFormat::Yuv444p10Le => "yuv444p10le"@,
        PixelFormat::Yuv444p10Be => "yuv444p10be"@,
        PixelFormat::Yuv444p12Le => "yuv444p12le"@,
        PixelFormat::Yuv444p12Be => "yuv444p12be"@,
        PixelFormat::Yuv444p14Le => "yuv444p14le"@,
        PixelFormat::Yuv444p14Be => "yuv444p14be"@,
        PixelFormat::Yuv444p16Le => "yuv444p16le"@,
        PixelFormat::Yuv444p16Be => "yuv444p16be"@,
        PixelFormat::Yuv444p10MsbLe => "yuv444p10msble"@,
        PixelFormat::Yuv444p10MsbBe => "yuv444p10msbbe"@,
        PixelFormat::Yuv444p12MsbLe => "yuv444p12msble"@,
        PixelFormat::Yuv444p12MsbBe => "yuv444p12msbbe"@,
        PixelFormat::Yuva420p => "yuva420p"@,
        PixelFormat::Yuva422p => "yuva422p"@,
        PixelFormat::Yuva444p => "yuva444p"@,
        PixelFormat::Yuva420p9Le => "yuva420p9le"@,
        PixelFormat::Yuva420p9Be => "yuva420p9be"@,
        PixelFormat::Yuva422p9Le => "yuva422p9le"@,
        PixelFormat::Yuva422p9Be => "yuva422p9be"@,
        PixelFormat::Yuva444p9Le => "yuva444p9le"@,
        PixelFormat::Yuva444p9Be => "yuva444p9be"@,
        PixelFormat::Yuva420p10Le => "yuva420p10le"@,
        PixelFormat::Yuva420p10Be => "yuva420p10be"@,
        PixelFormat::Yuva422p10Le => "yuva422p10le"@,
        PixelFormat::Yuva422p10Be => "yuva422p10be"@,
        PixelFormat::Yuva444p10Le => "yuva444p10le"@,
        PixelFormat::Yuva444p10Be => "yuva444p10be"@,
        PixelFormat::Yuva420p12Le => "yuva420p12le"@,
        PixelFormat::Yuva422p12Le => "yuva422p12le"@,
        PixelFormat::Yuva422p12Be => "yuva422p12be"@,
        PixelFormat::Yuva444p12Le => "yuva444p12le"@,
        PixelFormat::Yuva444p12Be => "yuva444p12be"@,
        PixelFormat::Yuva444p14Le => "yuva444p14le"@,
        PixelFormat::Yuva420p16Le => "yuva420p16le"@,
        PixelFormat::Yuva420p16Be => "yuva420p16be"@,
        PixelFormat::Yuva422p16Le => "yuva422p16le"@,
        PixelFormat::Yuva422p16Be => "yuva422p16be"@,
        PixelFormat::Yuva444p16Le => "yuva444p16le"@,
        PixelFormat::Yuva444p16Be => "yuva444p16be"@,
        PixelFormat::Nv12 => "nv12"@,
        PixelFormat::Nv21 => "nv21"@,
        PixelFormat::Nv16 => "nv16"@,
        PixelFormat::Nv24 => "nv24"@,
        PixelFormat::Nv42 => "nv42"@,
        PixelFormat::Nv20Le => "nv20le"@,
        PixelFormat::Nv20Be => "nv20be"@,
        PixelFormat::P010Le => "p010le"@,
        PixelFormat::P010Be => "p010be"@,
        PixelFormat::P012Le => "p012le"@,
        PixelFormat::P012Be => "p012be"@,
        PixelFormat::P016Le => "p016le"@,
        PixelFormat::P016Be => "p016be"@,
        PixelFormat::P210Le => "p210le"@,
        PixelFormat::P210Be => "p210be"@,
        PixelFormat::P212Le => "p212le"@,
        PixelFormat::P212Be => "p212be"@,
        PixelFormat::P216Le => "p216le"@,
        PixelFormat::P216Be => "p216be"@,
        PixelFormat::P410Le => "p410le"@,
        PixelFormat::P410Be => "p410be"@,
        PixelFormat::P412Le => "p412le"@,
        PixelFormat::P412Be => "p412be"@,
        PixelFormat::P416Le => "p416le"@,
        PixelFormat::P416Be => "p416be"@,
        PixelFormat::Yuyv422 => "yuyv422"@,
        PixelFormat::Uyvy422 => "uyvy422"@,
        PixelFormat::Yvyu422 => "yvyu422"@,
        PixelFormat::Uyyvyy411 => "uyyvyy411"@,
        PixelFormat::Y210Le => "y210le"@,
        PixelFormat::Y210Be => "y210be"@,
        PixelFormat::Y212Le => "y212le"@,
        PixelFormat::Y212Be => "y212be"@,
        PixelFormat::Y216Le => "y216le"@,
        PixelFormat::Y216Be => "y216be"@,
        PixelFormat::V210 => "v210"@,
        PixelFormat::V410Le => "v410le"@,
        PixelFormat::Xv30Le => "xv30le"@,
        PixelFormat::Xv30Be => "xv30be"@,
        PixelFormat::V30xLe => "v30xle"@,
        PixelFormat::V30xBe => "v30xbe"@,
        PixelFormat::Xv36Le => "xv36le"@,
        PixelFormat::Xv36Be => "xv36be"@,
        PixelFormat::Xv48Le => "xv48le"@,
        PixelFormat::Xv48Be => "xv48be"@,
        PixelFormat::Vuya => "vuya"@,
        PixelFormat::Vuyx => "vuyx"@,
        PixelFormat::Ayuv => "ayuv"@,
        PixelFormat::Ayuv64Le => "ayuv64le"@,
        PixelFormat::Ayuv64Be => "ayuv64be"@,
        PixelFormat::Uyva => "uyva"@,
        PixelFormat::Vyu444 => "vyu444"@,
        PixelFormat::Xyz12Le => "xyz12le"@,
        PixelFormat::Xyz12Be => "xyz12be"@,
        PixelFormat::Rgb24 => "rgb24"@,
        PixelFormat::Bgr24 => "bgr24"@,
        PixelFormat::Rgba => "rgba"@,
        PixelFormat::Bgra => "bgra"@,
        PixelFormat::Argb => "argb"@,
        PixelFormat::Abgr => "abgr"@,
        PixelFormat::Rgbx => "rgb0"@,
        PixelFormat::Bgrx => "bgr0"@,
        PixelFormat::Xrgb => "0rgb"@,
        PixelFormat::Xbgr => "0bgr"@,
        PixelFormat::X2Rgb10Le => "x2rgb10le"@,
        PixelFormat::X2Rgb10Be => "x2rgb10be"@,
        PixelFormat::X2Bgr10Le => "x2bgr10le"@,
        PixelFormat::X2Bgr10Be => "x2bgr10be"@,
        PixelFormat::Gbr24p => "gbr24p"@,
        PixelFormat::Rgb4 => "rgb4"@,
        PixelFormat::Rgb4Byte => "rgb4_byte"@,
        PixelFormat::Rgb8 => "rgb8"@,
        PixelFormat::Bgr4 => "bgr4"@,
        PixelFormat::Bgr4Byte => "bgr4_byte"@,
        PixelFormat::Bgr8 => "bgr8"@,
        PixelFormat::Rgb444Le => "rgb444le"@,
        PixelFormat::Rgb444Be => "rgb444be"@,
        PixelFormat::Bgr444Le => "bgr444le"@,
        PixelFormat::Bgr444Be => "bgr444be"@,
        PixelFormat::Rgb555Le => "rgb555le"@,
        PixelFormat::Rgb555Be => "rgb555be"@,
        PixelFormat::Bgr555Le => "bgr555le"@,
        PixelFormat::Bgr555Be => "bgr555be"@,
        PixelFormat::Rgb565Le => "rgb565le"@,
        PixelFormat::Rgb565Be => "rgb565be"@,
        PixelFormat::Bgr565Le => "bgr565le"@,
        PixelFormat::Bgr565Be => "bgr565be"@,
        PixelFormat::Rgb48Le => "rgb48le"@,
        PixelFormat::Rgb48Be => "rgb48be"@,
        PixelFormat::Bgr48Le => "bgr48le"@,
        PixelFormat::Bgr48Be => "bgr48be"@,
        PixelFormat::Rgba64Le => "rgba64le"@,
        PixelFormat::Rgba64Be => "rgba64be"@,
        PixelFormat::Bgra64Le => "bgra64le"@,
        PixelFormat::Bgra64Be => "bgra64be"@,
        PixelFormat::Rgb96Le => "rgb96le"@,
        PixelFormat::Rgb96Be => "rgb96be"@,
        PixelFormat::Rgba128Le => "rgba128le"@,
        PixelFormat::Rgba128Be => "rgba128be"@,
        PixelFormat::Rgbf16Le => "rgbf16le"@,
        PixelFormat::Rgbf16Be => "rgbf16be"@,
        PixelFormat::Rgbf32Le => "rgbf32le"@,
        PixelFormat::Rgbf32Be => "rgbf32be"@,
        PixelFormat::Rgbaf16Le => "rgbaf16le"@,
        PixelFormat::Rgbaf16Be => "rgbaf16be"@,
        PixelFormat::Rgbaf32Le => "rgbaf32le"@,
        PixelFormat::Rgbaf32Be => "rgbaf32be"@,
        PixelFormat::Gbrp => "gbrp"@,
        PixelFormat::Gbrp9Le => "gbrp9le"@,
        PixelFormat::Gbrp9Be => "gbrp9be"@,
        PixelFormat::Gbrp10Le => "gbrp10le"@,
        PixelFormat::Gbrp10Be => "gbrp10be"@,
        PixelFormat::Gbrp10MsbLe => "gbrp10msble"@,
        PixelFormat::Gbrp10MsbBe => "gbrp10msbbe"@,
        PixelFormat::Gbrp12Le => "gbrp12le"@,
        PixelFormat::Gbrp12Be => "gbrp12be"@,
        PixelFormat::Gbrp12MsbLe => "gbrp12msble"@,
        PixelFormat::Gbrp12MsbBe => "gbrp12msbbe"@,
        PixelFormat::Gbrp14Le => "gbrp14le"@,
        PixelFormat::Gbrp14Be => "gbrp14be"@,
        PixelFormat::Gbrp16Le => "gbrp16le"@,
        PixelFormat::Gbrp16Be => "gbrp16be"@,
        PixelFormat::Gbrpf16Le => "gbrpf16le"@,
        PixelFormat::Gbrpf16Be => "gbrpf16be"@,
        PixelFormat::Gbrpf32Le => "gbrpf32le"@,
        PixelFormat::Gbrpf32Be => "gbrpf32be"@,
        PixelFormat::Gbrap => "gbrap"@,
        PixelFormat::Gbrap10Le => "gbrap10le"@,
        PixelFormat::Gbrap10Be => "gbrap10be"@,
        PixelFormat::Gbrap12Le => "gbrap12le"@,
        PixelFormat::Gbrap12Be => "gbrap12be"@,
        PixelFormat::Gbrap14Le => "gbrap14le"@,
        PixelFormat::Gbrap14Be => "gbrap14be"@,
        PixelFormat::Gbrap16Le => "gbrap16le"@,
        PixelFormat::Gbrap16Be => "gbrap16be"@,
        PixelFormat::Gbrap32Le => "gbrap32le"@,
        PixelFormat::Gbrap32Be => "gbrap32be"@,
        PixelFormat::Gbrapf16Le => "gbrapf16le"@,
        PixelFormat::Gbrapf16Be => "gbrapf16be"@,
        PixelFormat::Gbrapf32Le => "gbrapf32le"@,
        PixelFormat::Gbrapf32Be => "gbrapf32be"@,
        PixelFormat::Gray8 => "gray8"@,
        PixelFormat::Gray8a => "gray8a"@,
        PixelFormat::Gray9Le => "gray9le"@,
        PixelFormat::Gray9Be => "gray9be"@,
        PixelFormat::Gray10Le => "gray10le"@,
        PixelFormat::Gray10Be => "gray10be"@,
        PixelFormat::Gray12Le => "gray12le"@,
        PixelFormat::Gray12Be => "gray12be"@,
        PixelFormat::Gray14Le => "gray14le"@,
        PixelFormat::Gray14Be => "gray14be"@,
        PixelFormat::Gray16Le => "gray16le"@,
        PixelFormat::Gray16Be => "gray16be"@,
        PixelFormat::Gray32Le => "gray32le"@,
        PixelFormat::Gray32Be => "gray32be"@,
        PixelFormat::Grayf32Le => "grayf32le"@,
        PixelFormat::Grayf32Be => "grayf32be"@,
        PixelFormat::Grayf16Le => "grayf16le"@,
        PixelFormat::Grayf16Be => "grayf16be"@,
        PixelFormat::Ya8 => "ya8"@,
        PixelFormat::Y400a => "y400a"@,
        PixelFormat::Ya16Le => "ya16le"@,
        PixelFormat::Ya16Be => "ya16be"@,
        PixelFormat::Yaf16Le => "yaf16le"@,
        PixelFormat::Yaf16Be => "yaf16be"@,
        PixelFormat::Yaf32Le => "yaf32le"@,
        PixelFormat::Yaf32Be => "yaf32be"@,
        PixelFormat::Monowhite => "monowhite"@,
        PixelFormat::Monoblack => "monoblack"@,
        PixelFormat::Pal8 => "pal8"@,
        PixelFormat::BayerBggr8 => "bayer_bggr8"@,
        PixelFormat::BayerRggb8 => "bayer_rggb8"@,
        PixelFormat::BayerGbrg8 => "bayer_gbrg8"@,
        PixelFormat::BayerGrbg8 => "bayer_grbg8"@,
        PixelFormat::BayerBggr10Le => "bayer_bggr10le"@,
        PixelFormat::BayerRggb10Le => "bayer_rggb10le"@,
        PixelFormat::BayerGbrg10Le => "bayer_gbrg10le"@,
        PixelFormat::BayerGrbg10Le => "bayer_grbg10le"@,
        PixelFormat::BayerBggr12Le => "bayer_bggr12le"@,
        PixelFormat::BayerRggb12Le => "bayer_rggb12le"@,
        PixelFormat::BayerGbrg12Le => "bayer_gbrg12le"@,
        PixelFormat::BayerGrbg12Le => "bayer_grbg12le"@,
        PixelFormat::BayerBggr14Le => "bayer_bggr14le"@,
        PixelFormat::BayerRggb14Le => "bayer_rggb14le"@,
        PixelFormat::BayerGbrg14Le => "bayer_gbrg14le"@,
        PixelFormat::BayerGrbg14Le => "bayer_grbg14le"@,
        PixelFormat::BayerBggr16Le => "bayer_bggr16le"@,
        PixelFormat::BayerBggr16Be => "bayer_bggr16be"@,
        PixelFormat::BayerRggb16Le => "bayer_rggb16le"@,
        PixelFormat::BayerRggb16Be => "bayer_rggb16be"@,
        PixelFormat::BayerGbrg16Le => "bayer_gbrg16le"@,
        PixelFormat::BayerGbrg16Be => "bayer_gbrg16be"@,
        PixelFormat::BayerGrbg16Le => "bayer_grbg16le"@,
        PixelFormat::BayerGrbg16Be => "bayer_grbg16be"@,
    }
}

/// `p` is a Bayer mosaic format (any pattern, any bit depth).
pub open spec fn is_bayer_format(p: PixelFormat) -> bool {
    match p {
        PixelFormat::BayerBggr8
            | PixelFormat::BayerRggb8
            | PixelFormat::BayerGbrg8
            | PixelFormat::BayerGrbg8
            | PixelFormat::BayerBggr10Le
            | PixelFormat::BayerRggb10Le
            | PixelFormat::BayerGbrg10Le
            | PixelFormat::BayerGrbg10Le
            | PixelFormat::BayerBggr12Le
            | PixelFormat::BayerRggb12Le
            | PixelFormat::BayerGbrg12Le
            | PixelFormat::BayerGrbg12Le
            | PixelFormat::BayerBggr14Le
            | PixelFormat::BayerRggb14Le
            | PixelFormat::BayerGbrg14Le
            | PixelFormat::BayerGrbg14Le
            | PixelFormat::BayerBggr16Le
            | PixelFormat::BayerBggr16Be
            | PixelFormat::BayerRggb16Le
            | PixelFormat::BayerRggb16Be
            | PixelFormat::BayerGbrg16Le
            | PixelFormat::BayerGbrg16Be
            | PixelFormat::BayerGrbg16Le
            | PixelFormat::BayerGrbg16Be => true,
        _ => false,
    }
}

impl Default for PixelFormat {
    /// `Unknown(0)`.
    fn default() -> (r: Self)
        ensures
            r == PixelFormat::Unknown(0),
    {
        PixelFormat::Unknown(0)
    }
}

impl PixelFormat {
    /// The stable wire code. A known variant returns its assigned code;
    /// `Unknown` returns the code it carries.
    pub fn to_u32(self) -> (r: u32)
        ensures
            r == format_code(self),
    {
        match self {
            PixelFormat::Yuv420p => 100,
            PixelFormat::Yuv422p => 101,
            PixelFormat::Yuv440p => 102,
            PixelFormat::Yuv444p => 103,
            PixelFormat::Yuv411p => 104,
            PixelFormat::Yuv410p => 105,
            PixelFormat::Yuvj411p => 106,
            PixelFormat::Yuvj420p => 107,
            PixelFormat::Yuvj422p => 108,
            PixelFormat::Yuvj440p => 109,
            PixelFormat::Yuvj444p => 110,
            PixelFormat::Yuv420p9Le => 111,
            PixelFormat::Yuv420p9Be => 112,
            PixelFormat::Yuv420p10Le => 113,
            PixelFormat::Yuv420p10Be => 114,
            PixelFormat::Yuv420p12Le => 115,
            PixelFormat::Yuv420p12Be => 116,
            PixelFormat::Yuv420p14Le => 117,
            PixelFormat::Yuv420p14Be => 118,
            PixelFormat::Yuv420p16Le => 119,
            PixelFormat::Yuv420p16Be => 120,
            PixelFormat::Yuv422p9Le => 121,
            PixelFormat::Yuv422p9Be => 122,
            PixelFormat::Yuv422p10Le => 123,
            PixelFormat::Yuv422p10Be => 124,
            PixelFormat::Yuv422p12Le => 125,
            PixelFormat::Yuv422p12Be => 126,
            PixelFormat::Yuv422p14Le => 127,
            PixelFormat::Yuv422p14Be => 128,
            PixelFormat::Yuv422p16Le => 129,
            PixelFormat::Yuv422p16Be => 130,
            PixelFormat::Yuv440p10Le => 131,
            PixelFormat::Yuv440p10Be => 132,
            PixelFormat::Yuv440p12Le => 133,
            PixelFormat::Yuv440p12Be => 134,
            PixelFormat::Yuv444p9Le => 140,
            PixelFormat::Yuv444p9Be => 141,
            PixelFormat::Yuv444p10Le => 142,
            PixelFormat::Yuv444p10Be => 143,
            PixelFormat::Yuv444p12Le => 144,
            PixelFormat::Yuv444p12Be => 145,
            PixelFormat::Yuv444p14Le => 146,
            PixelFormat::Yuv444p14Be => 147,
            PixelFormat::Yuv444p16Le => 148,
            PixelFormat::Yuv444p16Be => 149,
            PixelFormat::Yuv444p10MsbLe => 150,
            PixelFormat::Yuv444p10MsbBe => 151,
            PixelFormat::Yuv444p12MsbLe => 152,
            PixelFormat::Yuv444p12MsbBe => 153,
            PixelFormat::Yuva420p => 200,
            PixelFormat::Yuva422p => 201,
            PixelFormat::Yuva444p => 202,
            PixelFormat::Yuva420p9Le => 203,
            PixelFormat::Yuva420p9Be => 216,
            PixelFormat::Yuva422p9Le => 204,
            PixelFormat::Yuva422p9Be => 217,
            PixelFormat::Yuva444p9Le => 205,
            PixelFormat::Yuva444p9Be => 218,
            PixelFormat::Yuva420p10Le => 206,
            PixelFormat::Yuva420p10Be => 219,
            PixelFormat::Yuva422p10Le => 207,
            PixelFormat::Yuva422p10Be => 220,
            PixelFormat::Yuva444p10Le => 208,
            PixelFormat::Yuva444p10Be => 221,
            PixelFormat::Yuva420p12Le => 215,
            PixelFormat::Yuva422p12Le => 209,
            PixelFormat::Yuva422p12Be => 222,
            PixelFormat::Yuva444p12Le => 210,
            PixelFormat::Yuva444p12Be => 223,
            PixelFormat::Yuva444p14Le => 211,
            PixelFormat::Yuva420p16Le => 212,
            PixelFormat::Yuva420p16Be => 224,
            PixelFormat::Yuva422p16Le => 213,
            PixelFormat::Yuva422p16Be => 225,
            PixelFormat::Yuva444p16Le => 214,
            PixelFormat::Yuva444p16Be => 226,
            PixelFormat::Nv12 => 300,
            PixelFormat::Nv21 => 301,
            PixelFormat::Nv16 => 302,
            PixelFormat::Nv24 => 303,
            PixelFormat::Nv42 => 304,
            PixelFormat::Nv20Le => 305,
            PixelFormat::Nv20Be => 306,
            PixelFormat::P010Le => 310,
            PixelFormat::P010Be => 311,
            PixelFormat::P012Le => 312,
            PixelFormat::P012Be => 320,
            PixelFormat::P016Le => 313,
            PixelFormat::P016Be => 321,
            PixelFormat::P210Le => 314,
            PixelFormat::P210Be => 322,
            PixelFormat::P212Le => 315,
            PixelFormat::P212Be => 323,
            PixelFormat::P216Le => 316,
            PixelFormat::P216Be => 324,
            PixelFormat::P410Le => 317,
            PixelFormat::P410Be => 325,
            PixelFormat::P412Le => 318,
            PixelFormat::P412Be => 326,
            PixelFormat::P416Le => 319,
            PixelFormat::P416Be => 327,
            PixelFormat::Yuyv422 => 400,
            PixelFormat::Uyvy422 => 401,
            PixelFormat::Yvyu422 => 402,
            PixelFormat::Uyyvyy411 => 403,
            PixelFormat::Y210Le => 410,
            PixelFormat::Y210Be => 420,
            PixelFormat::Y212Le => 411,
            PixelFormat::Y212Be => 421,
            PixelFormat::Y216Le => 412,
            PixelFormat::Y216Be => 422,
            PixelFormat::V210 => 413,
            PixelFormat::V410Le => 414,
            PixelFormat::Xv30Le => 415,
            PixelFormat::Xv30Be => 423,
            PixelFormat::V30xLe => 433,
            PixelFormat::V30xBe => 434,
            PixelFormat::Xv36Le => 416,
            PixelFormat::Xv36Be => 424,
            PixelFormat::Xv48Le => 425,
            PixelFormat::Xv48Be => 426,
            PixelFormat::Vuya => 417,
            PixelFormat::Vuyx => 418,
            PixelFormat::Ayuv => 427,
            PixelFormat::Ayuv64Le => 419,
            PixelFormat::Ayuv64Be => 428,
            PixelFormat::Uyva => 429,
            PixelFormat::Vyu444 => 430,
            PixelFormat::Xyz12Le => 431,
            PixelFormat::Xyz12Be => 432,
            PixelFormat::Rgb24 => 500,
            PixelFormat::Bgr24 => 501,
            PixelFormat::Rgba => 502,
            PixelFormat::Bgra => 503,
            PixelFormat::Argb => 504,
            PixelFormat::Abgr => 505,
            PixelFormat::Rgbx => 506,
            PixelFormat::Bgrx => 507,
            PixelFormat::Xrgb => 508,
            PixelFormat::Xbgr => 509,
            PixelFormat::X2Rgb10Le => 510,
            PixelFormat::X2Rgb10Be => 512,
            PixelFormat::X2Bgr10Le => 511,
            PixelFormat::X2Bgr10Be => 513,
            PixelFormat::Gbr24p => 514,
            PixelFormat::Rgb4 => 515,
            PixelFormat::Rgb4Byte => 516,
            PixelFormat::Rgb8 => 517,
            PixelFormat::Bgr4 => 518,
            PixelFormat::Bgr4Byte => 519,
            PixelFormat::Bgr8 => 560,
            PixelFormat::Rgb444Le => 520,
            PixelFormat::Rgb444Be => 561,
            PixelFormat::Bgr444Le => 521,
            PixelFormat::Bgr444Be => 562,
            PixelFormat::Rgb555Le => 522,
            PixelFormat::Rgb555Be => 563,
            PixelFormat::Bgr555Le => 523,
            PixelFormat::Bgr555Be => 564,
            PixelFormat::Rgb565Le => 524,
            PixelFormat::Rgb565Be => 565,
            PixelFormat::Bgr565Le => 525,
            PixelFormat::Bgr565Be => 566,
            PixelFormat::Rgb48Le => 530,
            PixelFormat::Rgb48Be => 567,
            PixelFormat::Bgr48Le => 531,
            PixelFormat::Bgr48Be => 568,
            PixelFormat::Rgba64Le => 532,
            PixelFormat::Rgba64Be => 569,
            PixelFormat::Bgra64Le => 533,
            PixelFormat::Bgra64Be => 570,
            PixelFormat::Rgb96Le => 571,
            PixelFormat::Rgb96Be => 572,
            PixelFormat::Rgba128Le => 573,
            PixelFormat::Rgba128Be => 574,
            PixelFormat::Rgbf16Le => 540,
            PixelFormat::Rgbf16Be => 541,
            PixelFormat::Rgbf32Le => 542,
            PixelFormat::Rgbf32Be => 543,
            PixelFormat::Rgbaf16Le => 544,
            PixelFormat::Rgbaf16Be => 545,
            PixelFormat::Rgbaf32Le => 546,
            PixelFormat::Rgbaf32Be => 547,
            PixelFormat::Gbrp => 600,
            PixelFormat::Gbrp9Le => 601,
            PixelFormat::Gbrp9Be => 608,
            PixelFormat::Gbrp10Le => 602,
            PixelFormat::Gbrp10Be => 609,
            PixelFormat::Gbrp10MsbLe => 630,
            PixelFormat::Gbrp10MsbBe => 631,
            PixelFormat::Gbrp12Le => 603,
            PixelFormat::Gbrp12Be => 610,
            PixelFormat::Gbrp12MsbLe => 632,
            PixelFormat::Gbrp12MsbBe => 633,
            PixelFormat::Gbrp14Le => 604,
            PixelFormat::Gbrp14Be => 611,
            PixelFormat::Gbrp16Le => 605,
            PixelFormat::Gbrp16Be => 612,
            PixelFormat::Gbrpf16Le => 606,
            PixelFormat::Gbrpf16Be => 613,
            PixelFormat::Gbrpf32Le => 607,
            PixelFormat::Gbrpf32Be => 614,
            PixelFormat::Gbrap => 620,
            PixelFormat::Gbrap10Le => 621,
            PixelFormat::Gbrap10Be => 634,
            PixelFormat::Gbrap12Le => 622,
            PixelFormat::Gbrap12Be => 635,
            PixelFormat::Gbrap14Le => 623,
            PixelFormat::Gbrap14Be => 636,
            PixelFormat::Gbrap16Le => 624,
            PixelFormat::Gbrap16Be => 637,
            PixelFormat::Gbrap32Le => 638,
            PixelFormat::Gbrap32Be => 639,
            PixelFormat::Gbrapf16Le => 625,
            PixelFormat::Gbrapf16Be => 640,
            PixelFormat::Gbrapf32Le => 626,
            PixelFormat::Gbrapf32Be => 641,
            PixelFormat::Gray8 => 700,
            PixelFormat::Gray8a => 701,
            PixelFormat::Gray9Le => 702,
            PixelFormat::Gray9Be => 712,
            PixelFormat::Gray10Le => 703,
            PixelFormat::Gray10Be => 713,
            PixelFormat::Gray12Le => 704,
            PixelFormat::Gray12Be => 714,
            PixelFormat::Gray14Le => 705,
            PixelFormat::Gray14Be => 715,
            PixelFormat::Gray16Le => 706,
            PixelFormat::Gray16Be => 716,
            PixelFormat::Gray32Le => 717,
            PixelFormat::Gray32Be => 718,
            PixelFormat::Grayf32Le => 707,
            PixelFormat::Grayf32Be => 719,
            PixelFormat::Grayf16Le => 720,
            PixelFormat::Grayf16Be => 721,
            PixelFormat::Ya8 => 730,
            PixelFormat::Y400a => 731,
            PixelFormat::Ya16Le => 732,
            PixelFormat::Ya16Be => 733,
            PixelFormat::Yaf16Le => 734,
            PixelFormat::Yaf16Be => 735,
            PixelFormat::Yaf32Le => 736,
            PixelFormat::Yaf32Be => 737,
            PixelFormat::Monowhite => 740,
            PixelFormat::Monoblack => 741,
            PixelFormat::Pal8 => 800,
            PixelFormat::BayerBggr8 => 900,
            PixelFormat::BayerRggb8 => 901,
            PixelFormat::BayerGbrg8 => 902,
            PixelFormat::BayerGrbg8 => 903,
            PixelFormat::BayerBggr10Le => 910,
            PixelFormat::BayerRggb10Le => 911,
            PixelFormat::BayerGbrg10Le => 912,
            PixelFormat::BayerGrbg10Le => 913,
            PixelFormat::BayerBggr12Le => 920,
            PixelFormat::BayerRggb12Le => 921,
            PixelFormat::BayerGbrg12Le => 922,
            PixelFormat::BayerGrbg12Le => 923,
            PixelFormat::BayerBggr14Le => 930,
            PixelFormat::BayerRggb14Le => 931,
            PixelFormat::BayerGbrg14Le => 932,
            PixelFormat::BayerGrbg14Le => 933,
            PixelFormat::BayerBggr16Le => 940,
            PixelFormat::BayerBggr16Be => 944,
            PixelFormat::BayerRggb16Le => 941,
            PixelFormat::BayerRggb16Be => 945,
            PixelFormat::BayerGbrg16Le => 942,
            PixelFormat::BayerGbrg16Be => 946,
            PixelFormat::BayerGrbg16Le => 943,
            PixelFormat::BayerGrbg16Be => 947,
            PixelFormat::Unknown(value) => value,
        }
    }

    /// Decodes a wire code produced by `to_u32`. Unassigned codes map to
    /// `Unknown` carrying the code.
    pub fn from_u32(value: u32) -> (r: Self)
        ensures
            r == format_of_code(value),
    {
        match value {
            100 => PixelFormat::Yuv420p,
            101 => PixelFormat::Yuv422p,
            102 => PixelFormat::Yuv440p,
            103 => PixelFormat::Yuv444p,
            104 => PixelFormat::Yuv411p,
            105 => PixelFormat::Yuv410p,
            106 => PixelFormat::Yuvj411p,
            107 => PixelFormat::Yuvj420p,
            108 => PixelFormat::Yuvj422p,
            109 => PixelFormat::Yuvj440p,
            110 => PixelFormat::Yuvj444p,
            111 => PixelFormat::Yuv420p9Le,
            112 => PixelFormat::Yuv420p9Be,
            113 => PixelFormat::Yuv420p10Le,
            114 => PixelFormat::Yuv420p10Be,
            115 => PixelFormat::Yuv420p12Le,
            116 => PixelFormat::Yuv420p12Be,
            117 => PixelFormat::Yuv420p14Le,
            118 => PixelFormat::Yuv420p14Be,
            119 => PixelFormat::Yuv420p16Le,
            120 => PixelFormat::Yuv420p16Be,
            121 => PixelFormat::Yuv422p9Le,
            122 => PixelFormat::Yuv422p9Be,
            123 => PixelFormat::Yuv422p10Le,
            124 => PixelFormat::Yuv422p10Be,
            125 => PixelFormat::Yuv422p12Le,
            126 => PixelFormat::Yuv422p12Be,
            127 => PixelFormat::Yuv422p14Le,
            128 => PixelFormat::Yuv422p14Be,
            129 => PixelFormat::Yuv422p16Le,
            130 => PixelFormat::Yuv422p16Be,
            131 => PixelFormat::Yuv440p10Le,
            132 => PixelFormat::Yuv440p10Be,
            133 => PixelFormat::Yuv440p12Le,
            134 => PixelFormat::Yuv440p12Be,
            140 => PixelFormat::Yuv444p9Le,
            141 => PixelFormat::Yuv444p9Be,
            142 => PixelFormat::Yuv444p10Le,
            143 => PixelFormat::Yuv444p10Be,
            144 => PixelFormat::Yuv444p12Le,
            145 => PixelFormat::Yuv444p12Be,
            146 => PixelFormat::Yuv444p14Le,
            147 => PixelFormat::Yuv444p14Be,
            148 => PixelFormat::Yuv444p16Le,
            149 => PixelFormat::Yuv444p16Be,
            150 => PixelFormat::Yuv444p10MsbLe,
            151 => PixelFormat::Yuv444p10MsbBe,
            152 => PixelFormat::Yuv444p12MsbLe,
            153 => PixelFormat::Yuv444p12MsbBe,
            200 => PixelFormat::Yuva420p,
            201 => PixelFormat::Yuva422p,
            202 => PixelFormat::Yuva444p,
            203 => PixelFormat::Yuva420p9Le,
            204 => PixelFormat::Yuva422p9Le,
            205 => PixelFormat::Yuva444p9Le,
            206 => PixelFormat::Yuva420p10Le,
            207 => PixelFormat::Yuva422p10Le,
            208 => PixelFormat::Yuva444p10Le,
            209 => PixelFormat::Yuva422p12Le,
            210 => PixelFormat::Yuva444p12Le,
            211 => PixelFormat::Yuva444p14Le,
            212 => PixelFormat::Yuva420p16Le,
            213 => PixelFormat::Yuva422p16Le,
            214 => PixelFormat::Yuva444p16Le,
            215 => PixelFormat::Yuva420p12Le,
            216 => PixelFormat::Yuva420p9Be,
            217 => PixelFormat::Yuva422p9Be,
            218 => PixelFormat::Yuva444p9Be,
            219 => PixelFormat::Yuva420p10Be,
            220 => PixelFormat::Yuva422p10Be,
            221 => PixelFormat::Yuva444p10Be,
            222 => PixelFormat::Yuva422p12Be,
            223 => PixelFormat::Yuva444p12Be,
            224 => PixelFormat::Yuva420p16Be,
            225 => PixelFormat::Yuva422p16Be,
            226 => PixelFormat::Yuva444p16Be,
            300 => PixelFormat::Nv12,
            301 => PixelFormat::Nv21,
            302 => PixelFormat::Nv16,
            303 => PixelFormat::Nv24,
            304 => PixelFormat::Nv42,
            305 => PixelFormat::Nv20Le,
            306 => PixelFormat::Nv20Be,
            310 => PixelFormat::P010Le,
            311 => PixelFormat::P010Be,
            312 => PixelFormat::P012Le,
            313 => PixelFormat::P016Le,
            314 => PixelFormat::P210Le,
            315 => PixelFormat::P212Le,
            316 => PixelFormat::P216Le,
            317 => PixelFormat::P410Le,
            318 => PixelFormat::P412Le,
            319 => PixelFormat::P416Le,
            320 => PixelFormat::P012Be,
            321 => PixelFormat::P016Be,
            322 => PixelFormat::P210Be,
            323 => PixelFormat::P212Be,
            324 => PixelFormat::P216Be,
            325 => PixelFormat::P410Be,
            326 => PixelFormat::P412Be,
            327 => PixelFormat::P416Be,
            400 => PixelFormat::Yuyv422,
            401 => PixelFormat::Uyvy422,
            402 => PixelFormat::Yvyu422,
            403 => PixelFormat::Uyyvyy411,
            410 => PixelFormat::Y210Le,
            411 => PixelFormat::Y212Le,
            412 => PixelFormat::Y216Le,
            413 => PixelFormat::V210,
            414 => PixelFormat::V410Le,
            415 => PixelFormat::Xv30Le,
            416 => PixelFormat::Xv36Le,
            417 => PixelFormat::Vuya,
            418 => PixelFormat::Vuyx,
            419 => PixelFormat::Ayuv64Le,
            420 => PixelFormat::Y210Be,
            421 => PixelFormat::Y212Be,
            422 => PixelFormat::Y216Be,
            423 => PixelFormat::Xv30Be,
            433 => PixelFormat::V30xLe,
            434 => PixelFormat::V30xBe,
            424 => PixelFormat::Xv36Be,
            425 => PixelFormat::Xv48Le,
            426 => PixelFormat::Xv48Be,
            427 => PixelFormat::Ayuv,
            428 => PixelFormat::Ayuv64Be,
            429 => PixelFormat::Uyva,
            430 => PixelFormat::Vyu444,
            431 => PixelFormat::Xyz12Le,
            432 => PixelFormat::Xyz12Be,
            500 => PixelFormat::Rgb24,
            501 => PixelFormat::Bgr24,
            502 => PixelFormat::Rgba,
            503 => PixelFormat::Bgra,
            504 => PixelFormat::Argb,
            505 => PixelFormat::Abgr,
            506 => PixelFormat::Rgbx,
            507 => PixelFormat::Bgrx,
            508 => PixelFormat::Xrgb,
            509 => PixelFormat::Xbgr,
            510 => PixelFormat::X2Rgb10Le,
            511 => PixelFormat::X2Bgr10Le,
            512 => PixelFormat::X2Rgb10Be,
            513 => PixelFormat::X2Bgr10Be,
            514 => PixelFormat::Gbr24p,
            515 => PixelFormat::Rgb4,
            516 => PixelFormat::Rgb4Byte,
            517 => PixelFormat::Rgb8,
            518 => PixelFormat::Bgr4,
            519 => PixelFormat::Bgr4Byte,
            560 => PixelFormat::Bgr8,
            520 => PixelFormat::Rgb444Le,
            521 => PixelFormat::Bgr444Le,
            522 => PixelFormat::Rgb555Le,
            523 => PixelFormat::Bgr555Le,
            524 => PixelFormat::Rgb565Le,
            525 => PixelFormat::Bgr565Le,
            561 => PixelFormat::Rgb444Be,
            562 => PixelFormat::Bgr444Be,
            563 => PixelFormat::Rgb555Be,
            564 => PixelFormat::Bgr555Be,
            565 => PixelFormat::Rgb565Be,
            566 => PixelFormat::Bgr565Be,
            530 => PixelFormat::Rgb48Le,
            531 => PixelFormat::Bgr48Le,
            532 => PixelFormat::Rgba64Le,
            533 => PixelFormat::Bgra64Le,
            567 => PixelFormat::Rgb48Be,
            568 => PixelFormat::Bgr48Be,
            569 => PixelFormat::Rgba64Be,
            570 => PixelFormat::Bgra64Be,
            571 => PixelFormat::Rgb96Le,
            572 => PixelFormat::Rgb96Be,
            573 => PixelFormat::Rgba128Le,
            574 => PixelFormat::Rgba128Be,
            540 => PixelFormat::Rgbf16Le,
            541 => PixelFormat::Rgbf16Be,
            542 => PixelFormat::Rgbf32Le,
            543 => PixelFormat::Rgbf32Be,
            544 => PixelFormat::Rgbaf16Le,
            545 => PixelFormat::Rgbaf16Be,
            546 => PixelFormat::Rgbaf32Le,
            547 => PixelFormat::Rgbaf32Be,
            600 => PixelFormat::Gbrp,
            601 => PixelFormat::Gbrp9Le,
            602 => PixelFormat::Gbrp10Le,
            603 => PixelFormat::Gbrp12Le,
            604 => PixelFormat::Gbrp14Le,
            605 => PixelFormat::Gbrp16Le,
            606 => PixelFormat::Gbrpf16Le,
            607 => PixelFormat::Gbrpf32Le,
            608 => PixelFormat::Gbrp9Be,
            609 => PixelFormat::Gbrp10Be,
            610 => PixelFormat::Gbrp12Be,
            611 => PixelFormat::Gbrp14Be,
            612 => PixelFormat::Gbrp16Be,
            613 => PixelFormat::Gbrpf16Be,
            614 => PixelFormat::Gbrpf32Be,
            630 => PixelFormat::Gbrp10MsbLe,
            631 => PixelFormat::Gbrp10MsbBe,
            632 => PixelFormat::Gbrp12MsbLe,
            633 => PixelFormat::Gbrp12MsbBe,
            620 => PixelFormat::Gbrap,
            621 => PixelFormat::Gbrap10Le,
            622 => PixelFormat::Gbrap12Le,
            623 => PixelFormat::Gbrap14Le,
            624 => PixelFormat::Gbrap16Le,
            625 => PixelFormat::Gbrapf16Le,
            626 => PixelFormat::Gbrapf32Le,
            634 => PixelFormat::Gbrap10Be,
            635 => PixelFormat::Gbrap12Be,
            636 => PixelFormat::Gbrap14Be,
            637 => PixelFormat::Gbrap16Be,
            638 => PixelFormat::Gbrap32Le,
            639 => PixelFormat::Gbrap32Be,
            640 => PixelFormat::Gbrapf16Be,
            641 => PixelFormat::Gbrapf32Be,
            700 => PixelFormat::Gray8,
            701 => PixelFormat::Gray8a,
            702 => PixelFormat::Gray9Le,
            703 => PixelFormat::Gray10Le,
            704 => PixelFormat::Gray12Le,
            705 => PixelFormat::Gray14Le,
            706 => PixelFormat::Gray16Le,
            707 => PixelFormat::Grayf32Le,
            712 => PixelFormat::Gray9Be,
            713 => PixelFormat::Gray10Be,
            714 => PixelFormat::Gray12Be,
            715 => PixelFormat::Gray14Be,
            716 => PixelFormat::Gray16Be,
            717 => PixelFormat::Gray32Le,
            718 => PixelFormat::Gray32Be,
            719 => PixelFormat::Grayf32Be,
            720 => PixelFormat::Grayf16Le,
            721 => PixelFormat::Grayf16Be,
            730 => PixelFormat::Ya8,
            731 => PixelFormat::Y400a,
            732 => PixelFormat::Ya16Le,
            733 => PixelFormat::Ya16Be,
            734 => PixelFormat::Yaf16Le,
            735 => PixelFormat::Yaf16Be,
            736 => PixelFormat::Yaf32Le,
            737 => PixelFormat::Yaf32Be,
            740 => PixelFormat::Monowhite,
            741 => PixelFormat::Monoblack,
            800 => PixelFormat::Pal8,
            900 => PixelFormat::BayerBggr8,
            901 => PixelFormat::BayerRggb8,
            902 => PixelFormat::BayerGbrg8,
            903 => PixelFormat::BayerGrbg8,
            910 => PixelFormat::BayerBggr10Le,
            911 => PixelFormat::BayerRggb10Le,
            912 => PixelFormat::BayerGbrg10Le,
            913 => PixelFormat::BayerGrbg10Le,
            920 => PixelFormat::BayerBggr12Le,
            921 => PixelFormat::BayerRggb12Le,
            922 => PixelFormat::BayerGbrg12Le,
            923 => PixelFormat::BayerGrbg12Le,
            930 => PixelFormat::BayerBggr14Le,
            931 => PixelFormat::BayerRggb14Le,
            932 => PixelFormat::BayerGbrg14Le,
            933 => PixelFormat::BayerGrbg14Le,
            940 => PixelFormat::BayerBggr16Le,
            941 => PixelFormat::BayerRggb16Le,
            942 => PixelFormat::BayerGbrg16Le,
            943 => PixelFormat::BayerGrbg16Le,
            944 => PixelFormat::BayerBggr16Be,
            945 => PixelFormat::BayerRggb16Be,
            946 => PixelFormat::BayerGbrg16Be,
            947 => PixelFormat::BayerGrbg16Be,
            _ => PixelFormat::Unknown(value),
        }
    }

    /// Whether this is a Bayer mosaic format (any pattern, any bit depth).
    /// Bayer frames carry undebayered sensor data.
    pub fn is_bayer(self) -> (r: bool)
        ensures
            r == is_bayer_format(self),
    {
        match self {
            PixelFormat::BayerBggr8
                | PixelFormat::BayerRggb8
                | PixelFormat::BayerGbrg8
                | PixelFormat::BayerGrbg8
                | PixelFormat::BayerBggr10Le
                | PixelFormat::BayerRggb10Le
                | PixelFormat::BayerGbrg10Le
                | PixelFormat::BayerGrbg10Le
                | PixelFormat::BayerBggr12Le
                | PixelFormat::BayerRggb12Le
                | PixelFormat::BayerGbrg12Le
                | PixelFormat::BayerGrbg12Le
                | PixelFormat::BayerBggr14Le
                | PixelFormat::BayerRggb14Le
                | PixelFormat::BayerGbrg14Le
                | PixelFormat::BayerGrbg14Le
                | PixelFormat::BayerBggr16Le
                | PixelFormat::BayerBggr16Be
                | PixelFormat::BayerRggb16Le
                | PixelFormat::BayerRggb16Be
                | PixelFormat::BayerGbrg16Le
                | PixelFormat::BayerGbrg16Be
                | PixelFormat::BayerGrbg16Le
                | PixelFormat::BayerGrbg16Be => true,
            _ => false,
        }
    }

    /// The lowercase FFmpeg-style name of this format (`"unknown"` for
    /// `Unknown`).
    pub fn as_str(&self) -> (r: &'static str)
        ensures
            r@ == format_name(*self),
    {
        match self {
            PixelFormat::Unknown(_) => "unknown",
            PixelFormat::Yuv420p => "yuv420p",
            PixelFormat::Yuv422p => "yuv422p",
            PixelFormat::Yuv440p => "yuv440p",
            PixelFormat::Yuv444p => "yuv444p",
            PixelFormat::Yuv411p => "yuv411p",
            PixelFormat::Yuv410p => "yuv410p",
            PixelFormat::Yuvj411p => "yuvj411p",
            PixelFormat::Yuvj420p => "yuvj420p",
            PixelFormat::Yuvj422p => "yuvj422p",
            PixelFormat::Yuvj440p => "yuvj440p",
            PixelFormat::Yuvj444p => "yuvj444p",
            PixelFormat::Yuv420p9Le => "yuv420p9le",
            PixelFormat::Yuv420p9Be => "yuv420p9be",
            PixelFormat::Yuv420p10Le => "yuv420p10le",
            PixelFormat::Yuv420p10Be => "yuv420p10be",
            PixelFormat::Yuv420p12Le => "yuv420p12le",
            PixelFormat::Yuv420p12Be => "yuv420p12be",
            PixelFormat::Yuv420p14Le => "yuv420p14le",
            PixelFormat::Yuv420p14Be => "yuv420p14be",
            PixelFormat::Yuv420p16Le => "yuv420p16le",
            PixelFormat::Yuv420p16Be => "yuv420p16be",
            PixelFormat::Yuv422p9Le => "yuv422p9le",
            PixelFormat::Yuv422p9Be => "yuv422p9be",
            PixelFormat::Yuv422p10Le => "yuv422p10le",
            PixelFormat::Yuv422p10Be => "yuv422p10be",
            PixelFormat::Yuv422p12Le => "yuv422p12le",
            PixelFormat::Yuv422p12Be => "yuv422p12be",
            PixelFormat::Yuv422p14Le => "yuv422p14le",
            PixelFormat::Yuv422p14Be => "yuv422p14be",
            PixelFormat::Yuv422p16Le => "yuv422p16le",
            PixelFormat::Yuv422p16Be => "yuv422p16be",
            PixelFormat::Yuv440p10Le => "yuv440p10le",
            PixelFormat::Yuv440p10Be => "yuv440p10be",
            PixelFormat::Yuv440p12Le => "yuv440p12le",
            PixelFormat::Yuv440p12Be => "yuv440p12be",
            PixelFormat::Yuv444p9Le => "yuv444p9le",
            PixelFormat::Yuv444p9Be => "yuv444p9be",
            PixelFormat::Yuv444p10Le => "yuv444p10le",
            PixelFormat::Yuv444p10Be => "yuv444p10be",
            PixelFormat::Yuv444p12Le => "yuv444p12le",
            PixelFormat::Yuv444p12Be => "yuv444p12be",
            PixelFormat::Yuv444p14Le => "yuv444p14le",
            PixelFormat::Yuv444p14Be => "yuv444p14be",
            PixelFormat::Yuv444p16Le => "yuv444p16le",
            PixelFormat::Yuv444p16Be => "yuv444p16be",
            PixelFormat::Yuv444p10MsbLe => "yuv444p10msble",
            PixelFormat::Yuv444p10MsbBe => "yuv444p10msbbe",
            PixelFormat::Yuv444p12MsbLe => "yuv444p12msble",
            PixelFormat::Yuv444p12MsbBe => "yuv444p12msbbe",
            PixelFormat::Yuva420p => "yuva420p",
            PixelFormat::Yuva422p => "yuva422p",
            PixelFormat::Yuva444p => "yuva444p",
            PixelFormat::Yuva420p9Le => "yuva420p9le",
            PixelFormat::Yuva420p9Be => "yuva420p9be",
            PixelFormat::Yuva422p9Le => "yuva422p9le",
            PixelFormat::Yuva422p9Be => "yuva422p9be",
            PixelFormat::Yuva444p9Le => "yuva444p9le",
            PixelFormat::Yuva444p9Be => "yuva444p9be",
            PixelFormat::Yuva420p10Le => "yuva420p10le",
            PixelFormat::Yuva420p10Be => "yuva420p10be",
            PixelFormat::Yuva422p10Le => "yuva422p10le",
            PixelFormat::Yuva422p10Be => "yuva422p10be",
            PixelFormat::Yuva444p10Le => "yuva444p10le",
            PixelFormat::Yuva444p10Be => "yuva444p10be",
            PixelFormat::Yuva420p12Le => "yuva420p12le",
            PixelFormat::Yuva422p12Le => "yuva422p12le",
            PixelFormat::Yuva422p12Be => "yuva422p12be",
            PixelFormat::Yuva444p12Le => "yuva444p12le",
            PixelFormat::Yuva444p12Be => "yuva444p12be",
            PixelFormat::Yuva444p14Le => "yuva444p14le",
            PixelFormat::Yuva420p16Le => "yuva420p16le",
            PixelFormat::Yuva420p16Be => "yuva420p16be",
            PixelFormat::Yuva422p16Le => "yuva422p16le",
            PixelFormat::Yuva422p16Be => "yuva422p16be",
            PixelFormat::Yuva444p16Le => "yuva444p16le",
            PixelFormat::Yuva444p16Be => "yuva444p16be",
            PixelFormat::Nv12 => "nv12",
            PixelFormat::Nv21 => "nv21",
            PixelFormat::Nv16 => "nv16",
            PixelFormat::Nv24 => "nv24",
            PixelFormat::Nv42 => "nv42",
            PixelFormat::Nv20Le => "nv20le",
            PixelFormat::Nv20Be => "nv20be",
            PixelFormat::P010Le => "p010le",
            PixelFormat::P010Be => "p010be",
            PixelFormat::P012Le => "p012le",
            PixelFormat::P012Be => "p012be",
            PixelFormat::P016Le => "p016le",
            PixelFormat::P016Be => "p016be",
            PixelFormat::P210Le => "p210le",
            PixelFormat::P210Be => "p210be",
            PixelFormat::P212Le => "p212le",
            PixelFormat::P212Be => "p212be",
            PixelFormat::P216Le => "p216le",
            PixelFormat::P216Be => "p216be",
            PixelFormat::P410Le => "p410le",
            PixelFormat::P410Be => "p410be",
            PixelFormat::P412Le => "p412le",
            PixelFormat::P412Be => "p412be",
            PixelFormat::P416Le => "p416le",
            PixelFormat::P416Be => "p416be",
            PixelFormat::Yuyv422 => "yuyv422",
            PixelFormat::Uyvy422 => "uyvy422",
            PixelFormat::Yvyu422 => "yvyu422",
            PixelFormat::Uyyvyy411 => "uyyvyy411",
            PixelFormat::Y210Le => "y210le",
            PixelFormat::Y210Be => "y210be",
            PixelFormat::Y212Le => "y212le",
            PixelFormat::Y212Be => "y212be",
            PixelFormat::Y216Le => "y216le",
            PixelFormat::Y216Be => "y216be",
            PixelFormat::V210 => "v210",
            PixelFormat::V410Le => "v410le",
            PixelFormat::Xv30Le => "xv30le",
            PixelFormat::Xv30Be => "xv30be",
            PixelFormat::V30xLe => "v30xle",
            PixelFormat::V30xBe => "v30xbe",
            PixelFormat::Xv36Le => "xv36le",
            PixelFormat::Xv36Be => "xv36be",
            PixelFormat::Xv48Le => "xv48le",
            PixelFormat::Xv48Be => "xv48be",
            PixelFormat::Vuya => "vuya",
            PixelFormat::Vuyx => "vuyx",
            PixelFormat::Ayuv => "ayuv",
            PixelFormat::Ayuv64Le => "ayuv64le",
            PixelFormat::Ayuv64Be => "ayuv64be",
            PixelFormat::Uyva => "uyva",
            PixelFormat::Vyu444 => "vyu444",
            PixelFormat::Xyz12Le => "xyz12le",
            PixelFormat::Xyz12Be => "xyz12be",
            PixelFormat::Rgb24 => "rgb24",
            PixelFormat::Bgr24 => "bgr24",
            PixelFormat::Rgba => "rgba",
            PixelFormat::Bgra => "bgra",
            PixelFormat::Argb => "argb",
            PixelFormat::Abgr => "abgr",
            PixelFormat::Rgbx => "rgb0",
            PixelFormat::Bgrx => "bgr0",
            PixelFormat::Xrgb => "0rgb",
            PixelFormat::Xbgr => "0bgr",
            PixelFormat::X2Rgb10Le => "x2rgb10le",
            PixelFormat::X2Rgb10Be => "x2rgb10be",
            PixelFormat::X2Bgr10Le => "x2bgr10le",
            PixelFormat::X2Bgr10Be => "x2bgr10be",
            PixelFormat::Gbr24p => "gbr24p",
            PixelFormat::Rgb4 => "rgb4",
            PixelFormat::Rgb4Byte => "rgb4_byte",
            PixelFormat::Rgb8 => "rgb8",
            PixelFormat::Bgr4 => "bgr4",
            PixelFormat::Bgr4Byte => "bgr4_byte",
            PixelFormat::Bgr8 => "bgr8",
            PixelFormat::Rgb444Le => "rgb444le",
            PixelFormat::Rgb444Be => "rgb444be",
            PixelFormat::Bgr444Le => "bgr444le",
            PixelFormat::Bgr444Be => "bgr444be",
            PixelFormat::Rgb555Le => "rgb555le",
            PixelFormat::Rgb555Be => "rgb555be",
            PixelFormat::Bgr555Le => "bgr555le",
            PixelFormat::Bgr555Be => "bgr555be",
            PixelFormat::Rgb565Le => "rgb565le",
            PixelFormat::Rgb565Be => "rgb565be",
            PixelFormat::Bgr565Le => "bgr565le",
            PixelFormat::Bgr565Be => "bgr565be",
            PixelFormat::Rgb48Le => "rgb48le",
            PixelFormat::Rgb48Be => "rgb48be",
            PixelFormat::Bgr48Le => "bgr48le",
            PixelFormat::Bgr48Be => "bgr48be",
            PixelFormat::Rgba64Le => "rgba64le",
            PixelFormat::Rgba64Be => "rgba64be",
            PixelFormat::Bgra64Le => "bgra64le",
            PixelFormat::Bgra64Be => "bgra64be",
            PixelFormat::Rgb96Le => "rgb96le",
            PixelFormat::Rgb96Be => "rgb96be",
            PixelFormat::Rgba128Le => "rgba128le",
            PixelFormat::Rgba128Be => "rgba128be",
            PixelFormat::Rgbf16Le => "rgbf16le",
            PixelFormat::Rgbf16Be => "rgbf16be",
            PixelFormat::Rgbf32Le => "rgbf32le",
            PixelFormat::Rgbf32Be => "rgbf32be",
            PixelFormat::Rgbaf16Le => "rgbaf16le",
            PixelFormat::Rgbaf16Be => "rgbaf16be",
            PixelFormat::Rgbaf32Le => "rgbaf32le",
            PixelFormat::Rgbaf32Be => "rgbaf32be",
            PixelFormat::Gbrp => "gbrp",
            PixelFormat::Gbrp9Le => "gbrp9le",
            PixelFormat::Gbrp9Be => "gbrp9be",
            PixelFormat::Gbrp10Le => "gbrp10le",
            PixelFormat::Gbrp10Be => "gbrp10be",
            PixelFormat::Gbrp10MsbLe => "gbrp10msble",
            PixelFormat::Gbrp10MsbBe => "gbrp10msbbe",
            PixelFormat::Gbrp12Le => "gbrp12le",
            PixelFormat::Gbrp12Be => "gbrp12be",
            PixelFormat::Gbrp12MsbLe => "gbrp12msble",
            PixelFormat::Gbrp12MsbBe => "gbrp12msbbe",
            PixelFormat::Gbrp14Le => "gbrp14le",
            PixelFormat::Gbrp14Be => "gbrp14be",
            PixelFormat::Gbrp16Le => "gbrp16le",
            PixelFormat::Gbrp16Be => "gbrp16be",
            PixelFormat::Gbrpf16Le => "gbrpf16le",
            PixelFormat::Gbrpf16Be => "gbrpf16be",
            PixelFormat::Gbrpf32Le => "gbrpf32le",
            PixelFormat::Gbrpf32Be => "gbrpf32be",
            PixelFormat::Gbrap => "gbrap",
            PixelFormat::Gbrap10Le => "gbrap10le",
            PixelFormat::Gbrap10Be => "gbrap10be",
            PixelFormat::Gbrap12Le => "gbrap12le",
            PixelFormat::Gbrap12Be => "gbrap12be",
            PixelFormat::Gbrap14Le => "gbrap14le",
            PixelFormat::Gbrap14Be => "gbrap14be",
            PixelFormat::Gbrap16Le => "gbrap16le",
            PixelFormat::Gbrap16Be => "gbrap16be",
            PixelFormat::Gbrap32Le => "gbrap32le",
            PixelFormat::Gbrap32Be => "gbrap32be",
            PixelFormat::Gbrapf16Le => "gbrapf16le",
            PixelFormat::Gbrapf16Be => "gbrapf16be",
            PixelFormat::Gbrapf32Le => "gbrapf32le",
            PixelFormat::Gbrapf32Be => "gbrapf32be",
            PixelFormat::Gray8 => "gray8",
            PixelFormat::Gray8a => "gray8a",
            PixelFormat::Gray9Le => "gray9le",
            PixelFormat::Gray9Be => "gray9be",
            PixelFormat::Gray10Le => "gray10le",
            PixelFormat::Gray10Be => "gray10be",
            PixelFormat::Gray12Le => "gray12le",
            PixelFormat::Gray12Be => "gray12be",
            PixelFormat::Gray14Le => "gray14le",
            PixelFormat::Gray14Be => "gray14be",
            PixelFormat::Gray16Le => "gray16le",
            PixelFormat::Gray16Be => "gray16be",
            PixelFormat::Gray32Le => "gray32le",
            PixelFormat::Gray32Be => "gray32be",
            PixelFormat::Grayf32Le => "grayf32le",
            PixelFormat::Grayf32Be => "grayf32be",
            PixelFormat::Grayf16Le => "grayf16le",
            PixelFormat::Grayf16Be => "grayf16be",
            PixelFormat::Ya8 => "ya8",
            PixelFormat::Y400a => "y400a",
            PixelFormat::Ya16Le => "ya16le",
            PixelFormat::Ya16Be => "ya16be",
            PixelFormat::Yaf16Le => "yaf16le",
            PixelFormat::Yaf16Be => "yaf16be",
            PixelFormat::Yaf32Le => "yaf32le",
            PixelFormat::Yaf32Be => "yaf32be",
            PixelFormat::Monowhite => "monowhite",
            PixelFormat::Monoblack => "monoblack",
            PixelFormat::Pal8 => "pal8",
            PixelFormat::BayerBggr8 => "bayer_bggr8",
            PixelFormat::BayerRggb8 => "bayer_rggb8",
            PixelFormat::BayerGbrg8 => "bayer_gbrg8",
            PixelFormat::BayerGrbg8 => "bayer_grbg8",
            PixelFormat::BayerBggr10Le => "bayer_bggr10le",
            PixelFormat::BayerRggb10Le => "bayer_rggb10le",
            PixelFormat::BayerGbrg10Le => "bayer_gbrg10le",
            PixelFormat::BayerGrbg10Le => "bayer_grbg10le",
            PixelFormat::BayerBggr12Le => "bayer_bggr12le",
            PixelFormat::BayerRggb12Le => "bayer_rggb12le",
            PixelFormat::BayerGbrg12Le => "bayer_gbrg12le",
            PixelFormat::BayerGrbg12Le => "bayer_grbg12le",
            PixelFormat::BayerBggr14Le => "bayer_bggr14le",
            PixelFormat::BayerRggb14Le => "bayer_rggb14le",
            PixelFormat::BayerGbrg14Le => "bayer_gbrg14le",
            PixelFormat::BayerGrbg14Le => "bayer_grbg14le",
            PixelFormat::BayerBggr16Le => "bayer_bggr16le",
            PixelFormat::BayerBggr16Be => "bayer_bggr16be",
            PixelFormat::BayerRggb16Le => "bayer_rggb16le",
            PixelFormat::BayerRggb16Be => "bayer_rggb16be",
            PixelFormat::BayerGbrg16Le => "bayer_gbrg16le",
            PixelFormat::BayerGbrg16Be => "bayer_gbrg16be",
            PixelFormat::BayerGrbg16Le => "bayer_grbg16le",
            PixelFormat::BayerGrbg16Be => "bayer_grbg16be",
        }
    }
}

/// Decoding the code of a format gives back the format, unless the format
/// is an `Unknown` carrying a code that a known format is assigned.
#[verifier::rlimit(100)]
pub proof fn lemma_from_code_of_format(p: PixelFormat)
    requires
        !(p matches PixelFormat::Unknown(code) && is_known_code(code)),
    ensures
        format_of_code(format_code(p)) == p,
{
}

/// Encoding the format that a code decodes to gives back the code, for
/// every code.
#[verifier::rlimit(100)]
pub proof fn lemma_code_of_decoded(code: u32)
    ensures
        format_code(format_of_code(code)) == code,
{
}

/// Two formats with the same code are the same format, unless one of them
/// is an `Unknown` carrying a code that a known format is assigned.
pub proof fn lemma_code_determines_format(p: PixelFormat, q: PixelFormat)
    requires
        !(p matches PixelFormat::Unknown(code) && is_known_code(code)),
        !(q matches PixelFormat::Unknown(code) && is_known_code(code)),
        format_code(p) == format_code(q),
    ensures
        p == q,
{
    lemma_from_code_of_format(p);
    lemma_from_code_of_format(q);
}

/// The FFmpeg name assigned to each wire code, listed by code; `None`
/// for a code that no known format is assigned.
pub open spec fn code_name(code: u32) -> Option<Seq<char>> {
    match code {
        100 => Some("yuv420p"@),
        101 => Some("yuv422p"@),
        102 => Some("yuv440p"@),
        103 => Some("yuv444p"@),
        104 => Some("yuv411p"@),
        105 => Some("yuv410p"@),
        106 => Some("yuvj411p"@),
        107 => Some("yuvj420p"@),
        108 => Some("yuvj422p"@),
        109 => Some("yuvj440p"@),
        110 => Some("yuvj444p"@),
        111 => Some("yuv420p9le"@),
        112 => Some("yuv420p9be"@),
        113 => Some("yuv420p10le"@),
        114 => Some("yuv420p10be"@),
        115 => Some("yuv420p12le"@),
        116 => Some("yuv420p12be"@),
        117 => Some("yuv420p14le"@),
        118 => Some("yuv420p14be"@),
        119 => Some("yuv420p16le"@),
        120 => Some("yuv420p16be"@),
        121 => Some("yuv422p9le"@),
        122 => Some("yuv422p9be"@),
        123 => Some("yuv422p10le"@),
        124 => Some("yuv422p10be"@),
        125 => Some("yuv422p12le"@),
        126 => Some("yuv422p12be"@),
        127 => Some("yuv422p14le"@),
        128 => Some("yuv422p14be"@),
        129 => Some("yuv422p16le"@),
        130 => Some("yuv422p16be"@),
        131 => Some("yuv440p10le"@),
        132 => Some("yuv440p10be"@),
        133 => Some("yuv440p12le"@),
        134 => Some("yuv440p12be"@),
        140 => Some("yuv444p9le"@),
        141 => Some("yuv444p9be"@),
        142 => Some("yuv444p10le"@),
        143 => Some("yuv444p10be"@),
        144 => Some("yuv444p12le"@),
        145 => Some("yuv444p12be"@),
        146 => Some("yuv444p14le"@),
        147 => Some("yuv444p14be"@),
        148 => Some("yuv444p16le"@),
        149 => Some("yuv444p16be"@),
        150 => Some("yuv444p10msble"@),
        151 => Some("yuv444p10msbbe"@),
        152 => Some("yuv444p12msble"@),
        153 => Some("yuv444p12msbbe"@),
        200 => Some("yuva420p"@),
        201 => Some("yuva422p"@),
        202 => Some("yuva444p"@),
        203 => Some("yuva420p9le"@),
        204 => Some("yuva422p9le"@),
        205 => Some("yuva444p9le"@),
        206 => Some("yuva420p10le"@),
        207 => Some("yuva422p10le"@),
        208 => Some("yuva444p10le"@),
        209 => Some("yuva422p12le"@),
        210 => Some("yuva444p12le"@),
        211 => Some("yuva444p14le"@),
        212 => Some("yuva420p16le"@),
        213 => Some("yuva422p16le"@),
        214 => Some("yuva444p16le"@),
        215 => Some("yuva420p12le"@),
        216 => Some("yuva420p9be"@),
        217 => Some("yuva422p9be"@),
        218 => Some("yuva444p9be"@),
        219 => Some("yuva420p10be"@),
        220 => Some("yuva422p10be"@),
        221 => Some("yuva444p10be"@),
        222 => Some("yuva422p12be"@),
        223 => Some("yuva444p12be"@),
        224 => Some("yuva420p16be"@),
        225 => Some("yuva422p16be"@),
        226 => Some("yuva444p16be"@),
        300 => Some("nv12"@),
        301 => Some("nv21"@),
        302 => Some("nv16"@),
        303 => Some("nv24"@),
        304 => Some("nv42"@),
        305 => Some("nv20le"@),
        306 => Some("nv20be"@),
        310 => Some("p010le"@),
        311 => Some("p010be"@),
        312 => Some("p012le"@),
        313 => Some("p016le"@),
        314 => Some("p210le"@),
        315 => Some("p212le"@),
        316 => Some("p216le"@),
        317 => Some("p410le"@),
        318 => Some("p412le"@),
        319 => Some("p416le"@),
        320 => Some("p012be"@),
        321 => Some("p016be"@),
        322 => Some("p210be"@),
        323 => Some("p212be"@),
        324 => Some("p216be"@),
        325 => Some("p410be"@),
        326 => Some("p412be"@),
        327 => Some("p416be"@),
        400 => Some("yuyv422"@),
        401 => Some("uyvy422"@),
        402 => Some("yvyu422"@),
        403 => Some("uyyvyy411"@),
        410 => Some("y210le"@),
        411 => Some("y212le"@),
        412 => Some("y216le"@),
        413 => Some("v210"@),
        414 => Some("v410le"@),
        415 => Some("xv30le"@),
        416 => Some("xv36le"@),
        417 => Some("vuya"@),
        418 => Some("vuyx"@),
        419 => Some("ayuv64le"@),
        420 => Some("y210be"@),
        421 => Some("y212be"@),
        422 => Some("y216be"@),
        423 => Some("xv30be"@),
        433 => Some("v30xle"@),
        434 => Some("v30xbe"@),
        424 => Some("xv36be"@),
        425 => Some("xv48le"@),
        426 => Some("xv48be"@),
        427 => Some("ayuv"@),
        428 => Some("ayuv64be"@),
        429 => Some("uyva"@),
        430 => Some("vyu444"@),
        431 => Some("xyz12le"@),
        432 => Some("xyz12be"@),
        500 => Some("rgb24"@),
        501 => Some("bgr24"@),
        502 => Some("rgba"@),
        503 => Some("bgra"@),
        504 => Some("argb"@),
        505 => Some("abgr"@),
        506 => Some("rgb0"@),
        507 => Some("bgr0"@),
        508 => Some("0rgb"@),
        509 => Some("0bgr"@),
        510 => Some("x2rgb10le"@),
        511 => Some("x2bgr10le"@),
        512 => Some("x2rgb10be"@),
        513 => Some("x2bgr10be"@),
        514 => Some("gbr24p"@),
        515 => Some("rgb4"@),
        516 => Some("rgb4_byte"@),
        517 => Some("rgb8"@),
        518 => Some("bgr4"@),
        519 => Some("bgr4_byte"@),
        560 => Some("bgr8"@),
        520 => Some("rgb444le"@),
        521 => Some("bgr444le"@),
        522 => Some("rgb555le"@),
        523 => Some("bgr555le"@),
        524 => Some("rgb565le"@),
        525 => Some("bgr565le"@),
        561 => Some("rgb444be"@),
        562 => Some("bgr444be"@),
        563 => Some("rgb555be"@),
        564 => Some("bgr555be"@),
        565 => Some("rgb565be"@),
        566 => Some("bgr565be"@),
        530 => Some("rgb48le"@),
        531 => Some("bgr48le"@),
        532 => Some("rgba64le"@),
        533 => Some("bgra64le"@),
        567 => Some("rgb48be"@),
        568 => Some("bgr48be"@),
        569 => Some("rgba64be"@),
        570 => Some("bgra64be"@),
        571 => Some("rgb96le"@),
        572 => Some("rgb96be"@),
        573 => Some("rgba128le"@),
        574 => Some("rgba128be"@),
        540 => Some("rgbf16le"@),
        541 => Some("rgbf16be"@),
        542 => Some("rgbf32le"@),
        543 => Some("rgbf32be"@),
        544 => Some("rgbaf16le"@),
        545 => Some("rgbaf16be"@),
        546 => Some("rgbaf32le"@),
        547 => Some("rgbaf32be"@),
        600 => Some("gbrp"@),
        601 => Some("gbrp9le"@),
        602 => Some("gbrp10le"@),
        603 => Some("gbrp12le"@),
        604 => Some("gbrp14le"@),
        605 => Some("gbrp16le"@),
        606 => Some("gbrpf16le"@),
        607 => Some("gbrpf32le"@),
        608 => Some("gbrp9be"@),
        609 => Some("gbrp10be"@),
        610 => Some("gbrp12be"@),
        611 => Some("gbrp14be"@),
        612 => Some("gbrp16be"@),
        613 => Some("gbrpf16be"@),
        614 => Some("gbrpf32be"@),
        630 => Some("gbrp10msble"@),
        631 => Some("gbrp10msbbe"@),
        632 => Some("gbrp12msble"@),
        633 => Some("gbrp12msbbe"@),
        620 => Some("gbrap"@),
        621 => Some("gbrap10le"@),
        622 => Some("gbrap12le"@),
        623 => Some("gbrap14le"@),
        624 => Some("gbrap16le"@),
        625 => Some("gbrapf16le"@),
        626 => Some("gbrapf32le"@),
        634 => Some("gbrap10be"@),
        635 => Some("gbrap12be"@),
        636 => Some("gbrap14be"@),
        637 => Some("gbrap16be"@),
        638 => Some("gbrap32le"@),
        639 => Some("gbrap32be"@),
        640 => Some("gbrapf16be"@),
        641 => Some("gbrapf32be"@),
        700 => Some("gray8"@),
        701 => Some("gray8a"@),
        702 => Some("gray9le"@),
        703 => Some("gray10le"@),
        704 => Some("gray12le"@),
        705 => Some("gray14le"@),
        706 => Some("gray16le"@),
        707 => Some("grayf32le"@),
        712 => Some("gray9be"@),
        713 => Some("gray10be"@),
        714 => Some("gray12be"@),
        715 => Some("gray14be"@),
        716 => Some("gray16be"@),
        717 => Some("gray32le"@),
        718 => Some("gray32be"@),
        719 => Some("grayf32be"@),
        720 => Some("grayf16le"@),
        721 => Some("grayf16be"@),
        730 => Some("ya8"@),
        731 => Some("y400a"@),
        732 => Some("ya16le"@),
        733 => Some("ya16be"@),
        734 => Some("yaf16le"@),
        735 => Some("yaf16be"@),
        736 => Some("yaf32le"@),
        737 => Some("yaf32be"@),
        740 => Some("monowhite"@),
        741 => Some("monoblack"@),
        800 => Some("pal8"@),
        900 => Some("bayer_bggr8"@),
        901 => Some("bayer_rggb8"@),
        902 => Some("bayer_gbrg8"@),
        903 => Some("bayer_grbg8"@),
        910 => Some("bayer_bggr10le"@),
        911 => Some("bayer_rggb10le"@),
        912 => Some("bayer_gbrg10le"@),
        913 => Some("bayer_grbg10le"@),
        920 => Some("bayer_bggr12le"@),
        921 => Some("bayer_rggb12le"@),
        922 => Some("bayer_gbrg12le"@),
        923 => Some("bayer_grbg12le"@),
        930 => Some("bayer_bggr14le"@),
        931 => Some("bayer_rggb14le"@),
        932 => Some("bayer_gbrg14le"@),
        933 => Some("bayer_grbg14le"@),
        940 => Some("bayer_bggr16le"@),
        941 => Some("bayer_rggb16le"@),
        942 => Some("bayer_gbrg16le"@),
        943 => Some("bayer_grbg16le"@),
        944 => Some("bayer_bggr16be"@),
        945 => Some("bayer_rggb16be"@),
        946 => Some("bayer_gbrg16be"@),
        947 => Some("bayer_grbg16be"@),
        _ => None,
    }
}

/// Names and codes agree: a code is assigned exactly when it has an FFmpeg
/// name, and the format it decodes to is named by that name.
#[verifier::rlimit(100)]
pub proof fn lemma_name_of_code(code: u32)
    ensures
        is_known_code(code) <==> code_name(code) is Some,
        code_name(code) matches Some(n) ==> format_name(format_of_code(code)) == n,
{
}

/// A known format's name is the FFmpeg name of its wire code.
#[verifier::rlimit(100)]
pub proof fn lemma_code_of_name(p: PixelFormat)
    requires
        !(p is Unknown),
    ensures
        code_name(format_code(p)) == Some(format_name(p)),
{
}

/// The Bayer formats are exactly the known formats whose codes lie in
/// `900..=947`.
#[verifier::rlimit(100)]
pub proof fn lemma_bayer_codes(code: u32)
    ensures
        is_bayer_format(format_of_code(code)) <==> (900 <= code <= 947 && is_known_code(code)),
{
}

/// A format is Bayer exactly when it is known and its code lies in
/// `900..=947`.
#[verifier::rlimit(100)]
pub proof fn lemma_bayer_format_code(p: PixelFormat)
    requires
        !(p matches PixelFormat::Unknown(code) && is_known_code(code)),
    ensures
        is_bayer_format(p) <==> (!(p is Unknown) && 900 <= format_code(p) <= 947),
{
    lemma_from_code_of_format(p);
    lemma_bayer_codes(format_code(p));
}

} // verus!
