# mediaframe

Validated views of raw video frames, the FFmpeg pixel-format vocabulary,
and BCP-47 language tags, written in Verus.

- `src/frame/`: borrowed frame types (gray, gray + alpha, packed RGB,
  legacy RGB, NV12/NV16/NV21/NV24/NV42, NV20, high-bit planar GBR(A)
  and YUV). Each `try_new` is specified by a `*_check` spec function
  that decides acceptance and the exact error; every frame's view
  satisfies its check (`*_valid`). The `try_new_checked` constructors
  also scan the active samples, loaded in the frame's byte order, and
  report the first one that breaks the format's sample rule.
- `src/pixel_format.rs`: `PixelFormat` with its FFmpeg codes and names,
  and the laws relating `to_u32` and `from_u32`.
- `src/lang.rs`: `Language`, validated with `icu_locale_core`.
- `app/`: what needs floating point or outside traits: the `f32` /
  `f16` frames (their geometry is checked by the verified
  `*_geometry` functions), serde wire forms, and a `thiserror` form of
  `LanguageError`.
- `tests/`: scenario tests run against the compiled library.
