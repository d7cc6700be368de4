use mediaframe::frame::{
    grayf16_geometry, grayf32_geometry, yaf16_geometry, yaf32_geometry, Gray10LeFrame,
    Gray12BeFrame, Gray16BeFrame, Gray16Frame, Gray16FrameError, Gray16LeFrame, Gray32Frame,
    Gray32FrameError, Gray8Frame, Gray8FrameError, Gray9Frame, GrayNFrame, GrayNFrameError,
    Grayf16FrameError, Grayf32FrameError, InsufficientPlane, InsufficientStride, UnsupportedBits,
    WidthOverflow, Ya16BeFrame, Ya16Frame, Ya16FrameError, Ya8Frame, Ya8FrameError,
    Yaf16FrameError, Yaf32FrameError, ZeroDimension, GeometryOverflow,
};

#[test]
fn gray8_accepts_tight_and_padded_planes() {
    let buf = [0u8; 16];
    let f = Gray8Frame::try_new(&buf, 4, 4, 4).unwrap();
    assert_eq!(f.width(), 4);
    assert_eq!(f.height(), 4);
    assert_eq!(f.y_stride(), 4);
    assert_eq!(f.y().len(), 16);

    let padded = [0u8; 24];
    let f = Gray8Frame::try_new(&padded, 5, 4, 6).unwrap();
    assert_eq!(f.y_stride(), 6);
    assert_eq!(Gray8Frame::new(&padded, 5, 4, 6).width(), 5);
}

#[test]
fn gray8_reports_each_error_in_order() {
    let buf = [0u8; 16];
    assert_eq!(
        Gray8Frame::try_new(&buf, 0, 4, 4).unwrap_err(),
        Gray8FrameError::ZeroDimension(ZeroDimension::new(0, 4))
    );
    assert_eq!(
        Gray8Frame::try_new(&buf, 4, 0, 4).unwrap_err(),
        Gray8FrameError::ZeroDimension(ZeroDimension::new(4, 0))
    );
    assert_eq!(
        Gray8Frame::try_new(&buf, 4, 4, 3).unwrap_err(),
        Gray8FrameError::InsufficientYStride(InsufficientStride::new(3, 4))
    );
    assert_eq!(
        Gray8Frame::try_new(&buf, 4, 5, 4).unwrap_err(),
        Gray8FrameError::InsufficientYPlane(InsufficientPlane::new(20, 16))
    );
    // The stride check comes before the plane check.
    assert_eq!(
        Gray8Frame::try_new(&[], 4, 4, 2).unwrap_err(),
        Gray8FrameError::InsufficientYStride(InsufficientStride::new(2, 4))
    );
}

#[test]
fn gray8_geometry_overflow_on_32_bit() {
    if usize::BITS == 32 {
        let buf = [0u8; 1];
        assert_eq!(
            Gray8Frame::try_new(&buf, 1, u32::MAX, u32::MAX).unwrap_err(),
            Gray8FrameError::GeometryOverflow(GeometryOverflow::new(u32::MAX, u32::MAX))
        );
    }
}

#[test]
fn gray_n_accepts_supported_depths() {
    let buf = [0u16; 12];
    let f = Gray9Frame::<false>::try_new(&buf, 3, 4, 3).unwrap();
    assert!(!f.is_be());
    let f = Gray10LeFrame::try_new(&buf, 3, 4, 3).unwrap();
    assert_eq!(f.width(), 3);
    let f = Gray12BeFrame::try_new(&buf, 2, 4, 3).unwrap();
    assert!(f.is_be());
    assert_eq!(f.y_stride(), 3);
    assert_eq!(f.y().len(), 12);
    let f = GrayNFrame::<14, true>::new(&buf, 3, 4, 3);
    assert_eq!(f.height(), 4);
}

#[test]
fn gray_n_rejects_unsupported_bits_first() {
    let buf = [0u16; 12];
    assert_eq!(
        GrayNFrame::<11, false>::try_new(&buf, 0, 0, 0).unwrap_err(),
        GrayNFrameError::UnsupportedBits(UnsupportedBits::new(11))
    );
    assert_eq!(
        GrayNFrame::<16, true>::try_new(&buf, 3, 4, 3).unwrap_err(),
        GrayNFrameError::UnsupportedBits(UnsupportedBits::new(16))
    );
    assert_eq!(
        Gray10LeFrame::try_new(&buf, 3, 5, 3).unwrap_err(),
        GrayNFrameError::InsufficientYPlane(InsufficientPlane::new(15, 12))
    );
    assert_eq!(
        Gray10LeFrame::try_new(&buf, 4, 3, 3).unwrap_err(),
        GrayNFrameError::InsufficientYStride(InsufficientStride::new(3, 4))
    );
}

#[test]
fn gray16_and_gray32_geometry() {
    let buf16 = [0u16; 8];
    let f = Gray16LeFrame::try_new(&buf16, 4, 2, 4).unwrap();
    assert!(!f.is_be());
    let f = Gray16BeFrame::try_new(&buf16, 2, 2, 4).unwrap();
    assert!(f.is_be());
    assert_eq!(
        Gray16Frame::<false>::try_new(&buf16, 4, 3, 4).unwrap_err(),
        Gray16FrameError::InsufficientYPlane(InsufficientPlane::new(12, 8))
    );

    let buf32 = [0u32; 6];
    let f = Gray32Frame::<true>::try_new(&buf32, 3, 2, 3).unwrap();
    assert_eq!(f.y().len(), 6);
    assert!(f.is_be());
    assert_eq!(
        Gray32Frame::<false>::try_new(&buf32, 3, 2, 2).unwrap_err(),
        Gray32FrameError::InsufficientYStride(InsufficientStride::new(2, 3))
    );
    assert_eq!(
        Gray32Frame::<false>::try_new(&buf32, 0, 2, 2).unwrap_err(),
        Gray32FrameError::ZeroDimension(ZeroDimension::new(0, 2))
    );
}

#[test]
fn ya8_and_ya16_need_two_elements_per_pixel() {
    let buf = [0u8; 16];
    let f = Ya8Frame::try_new(&buf, 4, 2, 8).unwrap();
    assert_eq!(f.stride(), 8);
    assert_eq!(f.packed().len(), 16);
    assert_eq!(
        Ya8Frame::try_new(&buf, 4, 2, 7).unwrap_err(),
        Ya8FrameError::InsufficientStride(InsufficientStride::new(7, 8))
    );
    assert_eq!(
        Ya8Frame::try_new(&buf, 4, 3, 8).unwrap_err(),
        Ya8FrameError::InsufficientPlane(InsufficientPlane::new(24, 16))
    );
    assert_eq!(
        Ya8Frame::try_new(&buf, 0x8000_0000, 1, u32::MAX).unwrap_err(),
        Ya8FrameError::WidthOverflow(WidthOverflow::new(0x8000_0000))
    );

    let buf16 = [0u16; 12];
    let f = Ya16BeFrame::try_new(&buf16, 3, 2, 6).unwrap();
    assert!(f.is_be());
    assert_eq!(f.width(), 3);
    assert_eq!(
        Ya16Frame::<false>::try_new(&buf16, 3, 2, 5).unwrap_err(),
        Ya16FrameError::InsufficientStride(InsufficientStride::new(5, 6))
    );
    assert_eq!(
        Ya16Frame::<false>::try_new(&buf16, 3, 0, 6).unwrap_err(),
        Ya16FrameError::ZeroDimension(ZeroDimension::new(3, 0))
    );
}

#[test]
fn float_gray_geometry_checks() {
    assert_eq!(grayf32_geometry(16, 4, 4, 4), Ok(()));
    assert_eq!(
        grayf32_geometry(15, 4, 4, 4),
        Err(Grayf32FrameError::InsufficientYPlane(InsufficientPlane::new(16, 15)))
    );
    assert_eq!(
        grayf32_geometry(16, 4, 4, 3),
        Err(Grayf32FrameError::InsufficientYStride(InsufficientStride::new(3, 4)))
    );
    assert_eq!(grayf16_geometry(6, 2, 3, 2), Ok(()));
    assert_eq!(
        grayf16_geometry(6, 0, 3, 2),
        Err(Grayf16FrameError::ZeroDimension(ZeroDimension::new(0, 3)))
    );
    assert_eq!(yaf16_geometry(8, 2, 2, 4), Ok(()));
    assert_eq!(
        yaf16_geometry(8, 2, 2, 3),
        Err(Yaf16FrameError::InsufficientStride(InsufficientStride::new(3, 4)))
    );
    assert_eq!(yaf32_geometry(12, 3, 2, 6), Ok(()));
    assert_eq!(
        yaf32_geometry(11, 3, 2, 6),
        Err(Yaf32FrameError::InsufficientPlane(InsufficientPlane::new(12, 11)))
    );
    assert_eq!(
        yaf32_geometry(0, 0x8000_0000, 1, 1),
        Err(Yaf32FrameError::WidthOverflow(WidthOverflow::new(0x8000_0000)))
    );
}
