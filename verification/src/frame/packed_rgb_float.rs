//! Geometry validation for the packed float RGB frames `Rgbf32Frame`
//! (3 `f32` per pixel) and `Rgbaf32Frame` (4 `f32` per pixel). The frames
//! hold floating-point planes and stand outside the verified library;
//! they validate through `rgbf32_geometry` and `rgbaf32_geometry`.

use super::{
    overflow, plane_fits, plane_need, short_plane, short_stride, GeometryOverflow,
    InsufficientPlane, InsufficientStride, WidthOverflow, ZeroDimension,
};
use vstd::prelude::*;

verus! {

/// Errors returned by `Rgbf32Frame::try_new`.
#[derive(Debug, Clone, Copy, PartialEq, Eq, Hash)]
#[non_exhaustive]
pub enum Rgbf32FrameError {
    /// `width` or `height` was zero.
    ZeroDimension(ZeroDimension),
    /// `stride < 3 * width`.
    InsufficientStride(InsufficientStride),
    /// The plane is shorter than `stride * height` elements.
    InsufficientPlane(InsufficientPlane),
    /// `stride * height` overflows `usize`.
    GeometryOverflow(GeometryOverflow),
    /// `3 * width` overflows `u32`.
    WidthOverflow(WidthOverflow),
}

/// What `Rgbf32Frame::try_new` decides.
pub open spec fn rgbf32_check(
    rgb_len: int,
    width: u32,
    height: u32,
    stride: u32,
) -> Result<(), Rgbf32FrameError> {
    if width == 0 || height == 0 {
        Err(Rgbf32FrameError::ZeroDimension(ZeroDimension { width, height }))
    } else if width * 3 > u32::MAX {
        Err(Rgbf32FrameError::WidthOverflow(WidthOverflow { width }))
    } else if stride < width * 3 {
        Err(Rgbf32FrameError::InsufficientStride(short_stride(stride, (width * 3) as u32)))
    } else if !plane_fits(stride, height) {
        Err(Rgbf32FrameError::GeometryOverflow(overflow(stride, height)))
    } else if rgb_len < plane_need(stride, height) {
        Err(Rgbf32FrameError::InsufficientPlane(short_plane(stride, height, rgb_len)))
    } else {
        Ok(())
    }
}

/// The inputs that `Rgbf32Frame::try_new` accepts, stated directly: non-zero
/// dimensions, each stride covering a row of its plane, each plane
/// holding its rows; a rejection reports the offending values.
pub proof fn lemma_rgbf32_accepts(rgb_len: int, width: u32, height: u32, stride: u32)
    ensures
        ({
            let check = rgbf32_check(rgb_len, width, height, stride);
            &&& check is Ok <==> {
                &&& width > 0 && height > 0
                &&& width * 3 <= u32::MAX
                &&& stride >= width * 3
                &&& stride * height <= usize::MAX
                &&& rgb_len >= stride * height
            }
            &&& check matches Err(Rgbf32FrameError::ZeroDimension(e)) ==> {
                &&& e.width == width
                &&& e.height == height
            }
            &&& check matches Err(Rgbf32FrameError::InsufficientStride(e)) ==> {
                &&& e.stride == stride
                &&& e.min_stride == width * 3
                &&& stride < width * 3
            }
            &&& check matches Err(Rgbf32FrameError::InsufficientPlane(e)) ==> {
                &&& e.expected == stride * height
                &&& rgb_len < stride * height
            }
        }),
{
}

/// Validates the geometry of a `Rgbf32Frame` whose plane holds the given
/// number of elements, in the order and with the errors of its constructor.
pub fn rgbf32_geometry(
    rgb_len: usize,
    width: u32,
    height: u32,
    stride: u32,
) -> (r: Result<(), Rgbf32FrameError>)
    ensures
        r == rgbf32_check(rgb_len as int, width, height, stride),
        r is Ok <==> ({
            &&& width > 0 && height > 0
            &&& width * 3 <= u32::MAX
            &&& stride >= width * 3
            &&& stride * height <= usize::MAX
            &&& rgb_len >= stride * height
        }),
{
    proof {
        lemma_rgbf32_accepts(rgb_len as int, width, height, stride);
    }
    if width == 0 || height == 0 {
        return Err(Rgbf32FrameError::ZeroDimension(ZeroDimension::new(width, height)));
    }
    let min_stride = match width.checked_mul(3) {
        Some(v) => v,
        None => {
            return Err(Rgbf32FrameError::WidthOverflow(WidthOverflow::new(width)));
        },
    };
    if stride < min_stride {
        return Err(
            Rgbf32FrameError::InsufficientStride(InsufficientStride::new(stride, min_stride)),
        );
    }
    let rgb_min = match (stride as usize).checked_mul(height as usize) {
        Some(v) => v,
        None => {
            return Err(
                Rgbf32FrameError::GeometryOverflow(GeometryOverflow::new(stride, height)),
            );
        },
    };
    if rgb_len < rgb_min {
        return Err(
            Rgbf32FrameError::InsufficientPlane(InsufficientPlane::new(rgb_min, rgb_len)),
        );
    }
    Ok(())
}

/// Errors returned by `Rgbaf32Frame::try_new`.
#[derive(Debug, Clone, Copy, PartialEq, Eq, Hash)]
#[non_exhaustive]
pub enum Rgbaf32FrameError {
    /// `width` or `height` was zero.
    ZeroDimension(ZeroDimension),
    /// `stride < 4 * width`.
    InsufficientStride(InsufficientStride),
    /// The plane is shorter than `stride * height` elements.
    InsufficientPlane(InsufficientPlane),
    /// `stride * height` overflows `usize`.
    GeometryOverflow(GeometryOverflow),
    /// `4 * width` overflows `u32`.
    WidthOverflow(WidthOverflow),
}

/// What `Rgbaf32Frame::try_new` decides.
pub open spec fn rgbaf32_check(
    rgba_len: int,
    width: u32,
    height: u32,
    stride: u32,
) -> Result<(), Rgbaf32FrameError> {
    if width == 0 || height == 0 {
        Err(Rgbaf32FrameError::ZeroDimension(ZeroDimension { width, height }))
    } else if width * 4 > u32::MAX {
        Err(Rgbaf32FrameError::WidthOverflow(WidthOverflow { width }))
    } else if stride < width * 4 {
        Err(Rgbaf32FrameError::InsufficientStride(short_stride(stride, (width * 4) as u32)))
    } else if !plane_fits(stride, height) {
        Err(Rgbaf32FrameError::GeometryOverflow(overflow(stride, height)))
    } else if rgba_len < plane_need(stride, height) {
        Err(Rgbaf32FrameError::InsufficientPlane(short_plane(stride, height, rgba_len)))
    } else {
        Ok(())
    }
}

/// The inputs that `Rgbaf32Frame::try_new` accepts, stated directly: non-zero
/// dimensions, each stride covering a row of its plane, each plane
/// holding its rows; a rejection reports the offending values.
pub proof fn lemma_rgbaf32_accepts(rgba_len: int, width: u32, height: u32, stride: u32)
    ensures
        ({
            let check = rgbaf32_check(rgba_len, width, height, stride);
            &&& check is Ok <==> {
                &&& width > 0 && height > 0
                &&& width * 4 <= u32::MAX
                &&& stride >= width * 4
                &&& stride * height <= usize::MAX
                &&& rgba_len >= stride * height
            }
            &&& check matches Err(Rgbaf32FrameError::ZeroDimension(e)) ==> {
                &&& e.width == width
                &&& e.height == height
            }
            &&& check matches Err(Rgbaf32FrameError::InsufficientStride(e)) ==> {
                &&& e.stride == stride
                &&& e.min_stride == width * 4
                &&& stride < width * 4
            }
            &&& check matches Err(Rgbaf32FrameError::InsufficientPlane(e)) ==> {
                &&& e.expected == stride * height
                &&& rgba_len < stride * height
            }
        }),
{
}

/// Validates the geometry of a `Rgbaf32Frame` whose plane holds the given
/// number of elements, in the order and with the errors of its constructor.
pub fn rgbaf32_geometry(
    rgba_len: usize,
    width: u32,
    height: u32,
    stride: u32,
) -> (r: Result<(), Rgbaf32FrameError>)
    ensures
        r == rgbaf32_check(rgba_len as int, width, height, stride),
        r is Ok <==> ({
            &&& width > 0 && height > 0
            &&& width * 4 <= u32::MAX
            &&& stride >= width * 4
            &&& stride * height <= usize::MAX
            &&& rgba_len >= stride * height
        }),
{
    proof {
        lemma_rgbaf32_accepts(rgba_len as int, width, height, stride);
    }
    if width == 0 || height == 0 {
        return Err(Rgbaf32FrameError::ZeroDimension(ZeroDimension::new(width, height)));
    }
    let min_stride = match width.checked_mul(4) {
        Some(v) => v,
        None => {
            return Err(Rgbaf32FrameError::WidthOverflow(WidthOverflow::new(width)));
        },
    };
    if stride < min_stride {
        return Err(
            Rgbaf32FrameError::InsufficientStride(InsufficientStride::new(stride, min_stride)),
        );
    }
    let rgba_min = match (stride as usize).checked_mul(height as usize) {
        Some(v) => v,
        None => {
            return Err(
                Rgbaf32FrameError::GeometryOverflow(GeometryOverflow::new(stride, height)),
            );
        },
    };
    if rgba_len < rgba_min {
        return Err(
            Rgbaf32FrameError::InsufficientPlane(InsufficientPlane::new(rgba_min, rgba_len)),
        );
    }
    Ok(())
}

} // verus!
