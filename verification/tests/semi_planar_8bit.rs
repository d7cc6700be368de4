use mediaframe::frame::{
    rgbaf32_geometry, rgbf32_geometry, InsufficientPlane, InsufficientStride, Nv12Frame,
    Nv12FrameError, Nv16Frame, Nv16FrameError, Nv21Frame, Nv21FrameError, Nv24Frame,
    Nv24FrameError, Nv42Frame, Nv42FrameError, Rgbaf32FrameError, Rgbf32FrameError,
    WidthAlignment, WidthOverflow, ZeroDimension,
};

#[test]
fn nv12_chroma_rows_round_up() {
    let y = [0u8; 12];
    let uv = [0u8; 8];
    let f = Nv12Frame::try_new(&y, &uv, 4, 3, 4, 4).unwrap();
    assert_eq!(f.width(), 4);
    assert_eq!(f.height(), 3);
    assert_eq!(f.uv_stride(), 4);
    assert_eq!(f.uv().len(), 8);
    assert_eq!(
        Nv12Frame::try_new(&y, &uv[..7], 4, 3, 4, 4).unwrap_err(),
        Nv12FrameError::InsufficientUvPlane(InsufficientPlane::new(8, 7))
    );
}

#[test]
fn nv12_errors_in_order() {
    let y = [0u8; 16];
    let uv = [0u8; 8];
    assert_eq!(
        Nv12Frame::try_new(&y, &uv, 0, 4, 4, 4).unwrap_err(),
        Nv12FrameError::ZeroDimension(ZeroDimension::new(0, 4))
    );
    assert_eq!(
        Nv12Frame::try_new(&y, &uv, 3, 4, 4, 4).unwrap_err(),
        Nv12FrameError::WidthAlignment(WidthAlignment::odd(3))
    );
    assert_eq!(
        Nv12Frame::try_new(&y, &uv, 4, 4, 2, 4).unwrap_err(),
        Nv12FrameError::InsufficientYStride(InsufficientStride::new(2, 4))
    );
    assert_eq!(
        Nv12Frame::try_new(&y, &uv, 4, 4, 4, 2).unwrap_err(),
        Nv12FrameError::InsufficientUvStride(InsufficientStride::new(2, 4))
    );
    assert_eq!(
        Nv12Frame::try_new(&y[..15], &uv, 4, 4, 4, 4).unwrap_err(),
        Nv12FrameError::InsufficientYPlane(InsufficientPlane::new(16, 15))
    );
}

#[test]
fn nv21_mirrors_nv12_with_vu_plane() {
    let y = [0u8; 16];
    let vu = [0u8; 8];
    let f = Nv21Frame::try_new(&y, &vu, 4, 4, 4, 4).unwrap();
    assert_eq!(f.vu().len(), 8);
    assert_eq!(f.vu_stride(), 4);
    assert_eq!(
        Nv21Frame::try_new(&y, &vu, 4, 4, 4, 3).unwrap_err(),
        Nv21FrameError::InsufficientVuStride(InsufficientStride::new(3, 4))
    );
    assert_eq!(
        Nv21Frame::try_new(&y, &vu[..6], 4, 4, 4, 4).unwrap_err(),
        Nv21FrameError::InsufficientVuPlane(InsufficientPlane::new(8, 6))
    );
}

#[test]
fn nv16_chroma_is_full_height() {
    let y = [0u8; 12];
    let uv = [0u8; 12];
    let f = Nv16Frame::try_new(&y, &uv, 4, 3, 4, 4).unwrap();
    assert_eq!(f.y_stride(), 4);
    assert_eq!(
        Nv16Frame::try_new(&y, &uv[..8], 4, 3, 4, 4).unwrap_err(),
        Nv16FrameError::InsufficientUvPlane(InsufficientPlane::new(12, 8))
    );
    assert_eq!(
        Nv16Frame::try_new(&y, &uv, 5, 3, 6, 6).unwrap_err(),
        Nv16FrameError::WidthAlignment(WidthAlignment::odd(5))
    );
}

#[test]
fn nv24_and_nv42_chroma_is_twice_width() {
    let y = [0u8; 6];
    let uv = [0u8; 12];
    let f = Nv24Frame::try_new(&y, &uv, 3, 2, 3, 6).unwrap();
    assert_eq!(f.uv_stride(), 6);
    assert_eq!(f.height(), 2);
    assert_eq!(
        Nv24Frame::try_new(&y, &uv, 3, 2, 3, 5).unwrap_err(),
        Nv24FrameError::InsufficientUvStride(InsufficientStride::new(5, 6))
    );
    assert_eq!(
        Nv24Frame::try_new(&y, &uv, 3, 2, 2, 6).unwrap_err(),
        Nv24FrameError::InsufficientYStride(InsufficientStride::new(2, 3))
    );
    let f = Nv42Frame::try_new(&y, &uv, 3, 2, 3, 6).unwrap();
    assert_eq!(f.vu().len(), 12);
    assert_eq!(
        Nv42Frame::try_new(&y, &uv[..11], 3, 2, 3, 6).unwrap_err(),
        Nv42FrameError::InsufficientVuPlane(InsufficientPlane::new(12, 11))
    );
    assert_eq!(
        Nv42Frame::try_new(&y, &uv, 3, 0, 3, 6).unwrap_err(),
        Nv42FrameError::ZeroDimension(ZeroDimension::new(3, 0))
    );
}

#[test]
fn float_rgb_geometry_checks() {
    assert_eq!(rgbf32_geometry(12, 2, 2, 6), Ok(()));
    assert_eq!(
        rgbf32_geometry(12, 2, 2, 5),
        Err(Rgbf32FrameError::InsufficientStride(InsufficientStride::new(5, 6)))
    );
    assert_eq!(
        rgbf32_geometry(11, 2, 2, 6),
        Err(Rgbf32FrameError::InsufficientPlane(InsufficientPlane::new(12, 11)))
    );
    assert_eq!(
        rgbf32_geometry(0, 0x6000_0000, 1, u32::MAX),
        Err(Rgbf32FrameError::WidthOverflow(WidthOverflow::new(0x6000_0000)))
    );
    assert_eq!(rgbaf32_geometry(16, 2, 2, 8), Ok(()));
    assert_eq!(
        rgbaf32_geometry(16, 2, 0, 8),
        Err(Rgbaf32FrameError::ZeroDimension(ZeroDimension::new(2, 0)))
    );
    assert_eq!(
        rgbaf32_geometry(16, 0x4000_0000, 1, 8),
        Err(Rgbaf32FrameError::WidthOverflow(WidthOverflow::new(0x4000_0000)))
    );
}
