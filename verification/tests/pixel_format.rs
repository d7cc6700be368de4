use mediaframe::pixel_format::PixelFormat;

#[test]
fn default_is_unknown() {
  assert!(matches!(PixelFormat::default(), PixelFormat::Unknown(0)));
}

#[test]
fn round_trip_u32_for_known_variants() {
  let all = [
    PixelFormat::Unknown(0),
    PixelFormat::Yuv420p,
    PixelFormat::Yuv444p,
    PixelFormat::Yuv420p10Le,
    PixelFormat::Yuv422p16Le,
    PixelFormat::Yuva444p,
    PixelFormat::Nv12,
    PixelFormat::P010Le,
    PixelFormat::P416Le,
    PixelFormat::Yuyv422,
    PixelFormat::V210,
    PixelFormat::Ayuv64Le,
    PixelFormat::Rgb24,
    PixelFormat::Bgra,
    PixelFormat::Rgb565Le,
    PixelFormat::Rgba64Le,
    PixelFormat::Rgbf32Le,
    PixelFormat::Gbrp,
    PixelFormat::Gbrap16Le,
    PixelFormat::Gbrapf32Le,
    PixelFormat::Gray8,
    PixelFormat::Gray16Le,
    PixelFormat::Ya16Le,
    PixelFormat::Monowhite,
    PixelFormat::Pal8,
    PixelFormat::BayerBggr8,
    PixelFormat::BayerRggb16Le,
  ];
  for fmt in all {
    assert_eq!(
      PixelFormat::from_u32(fmt.to_u32()),
      fmt,
      "round-trip failed for {fmt:?}"
    );
  }
}

#[test]
fn unknown_for_garbage_u32() {
  assert_eq!(PixelFormat::from_u32(99_999), PixelFormat::Unknown(99_999));
  assert_eq!(PixelFormat::from_u32(1), PixelFormat::Unknown(1));
}

#[test]
fn unknown_round_trip_is_lossless() {
  for n in [1u32, 42, 99_999, u32::MAX, 0] {
    let p = PixelFormat::from_u32(n);
    assert_eq!(p.to_u32(), n, "lossless round-trip broken for {n}");
  }
}

#[test]
fn display_uses_ffmpeg_lowercase_names() {
  assert_eq!(PixelFormat::Yuv420p.as_str(), "yuv420p");
  assert_eq!(PixelFormat::Nv12.as_str(), "nv12");
  assert_eq!(PixelFormat::P010Le.as_str(), "p010le");
  assert_eq!(PixelFormat::Rgba64Le.as_str(), "rgba64le");
  assert_eq!(PixelFormat::BayerBggr12Le.as_str(), "bayer_bggr12le");
  assert_eq!(PixelFormat::Unknown(0).as_str(), "unknown");
}

#[test]
fn is_bayer_partition() {
  assert!(PixelFormat::BayerBggr8.is_bayer());
  assert!(PixelFormat::BayerRggb16Le.is_bayer());
  assert!(PixelFormat::BayerGrbg12Le.is_bayer());
  assert!(!PixelFormat::Yuv420p.is_bayer());
  assert!(!PixelFormat::Rgb24.is_bayer());
  assert!(!PixelFormat::Unknown(0).is_bayer());
}

#[test]
fn copy_and_eq() {
  let p = PixelFormat::Nv12;
  let q = p; // Copy
  assert_eq!(p, q);
  assert_ne!(p, PixelFormat::Yuv420p);
}

#[test]
fn unknown_carrying_an_assigned_code_decodes_to_the_known_format() {
  // The one input on which decoding an encoded format does not give it back.
  let p = PixelFormat::Unknown(100);
  assert_eq!(p.to_u32(), 100);
  assert_eq!(PixelFormat::from_u32(p.to_u32()), PixelFormat::Yuv420p);
}

#[test]
fn every_assigned_code_round_trips() {
  for code in 0u32..2000 {
    let p = PixelFormat::from_u32(code);
    assert_eq!(p.to_u32(), code);
    if !matches!(p, PixelFormat::Unknown(_)) {
      assert_ne!(p.as_str(), "unknown");
    }
  }
}

#[test]
fn wire_codes_are_stable() {
  assert_eq!(PixelFormat::Yuv420p.to_u32(), 100);
  assert_eq!(PixelFormat::BayerBggr16Be.to_u32(), 944);
  assert_eq!(PixelFormat::from_u32(947), PixelFormat::BayerGrbg16Be);
}
