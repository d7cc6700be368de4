use mediaframe::frame::{
    first_breaking_sample, load_sample, low_bits_mask, max_sample_value, sample_breaks,
    SampleRule,
};

#[test]
fn load_sample_undoes_the_stored_byte_order() {
    for v in [0u16, 1, 0x00ff, 0x0102, 0x3ff, 0xabcd, u16::MAX] {
        assert_eq!(load_sample(v.to_be(), true), v);
        assert_eq!(load_sample(v.to_le(), false), v);
        // Storing and loading are the same conversion: applying it twice
        // gives the value back.
        assert_eq!(load_sample(load_sample(v, true), true), v);
        assert_eq!(load_sample(load_sample(v, false), false), v);
    }
}

#[test]
fn load_sample_swaps_exactly_on_foreign_order() {
    let v = 0x0102u16;
    if 1u16.to_le() == 1 {
        assert_eq!(load_sample(v, false), 0x0102);
        assert_eq!(load_sample(v, true), 0x0201);
    } else {
        assert_eq!(load_sample(v, true), 0x0102);
        assert_eq!(load_sample(v, false), 0x0201);
    }
}

#[test]
fn masks_and_maxima_by_depth() {
    assert_eq!(low_bits_mask(10), 0x003f);
    assert_eq!(low_bits_mask(12), 0x000f);
    assert_eq!(low_bits_mask(16), 0);
    assert_eq!(max_sample_value(9), 511);
    assert_eq!(max_sample_value(10), 1023);
    assert_eq!(max_sample_value(12), 4095);
    assert_eq!(max_sample_value(16), u16::MAX);
}

#[test]
fn sample_rules() {
    assert!(sample_breaks(0x0400, SampleRule::ClearBits(0xfc00)));
    assert!(!sample_breaks(0x03ff, SampleRule::ClearBits(0xfc00)));
    assert!(sample_breaks(1024, SampleRule::AtMost(1023)));
    assert!(!sample_breaks(1023, SampleRule::AtMost(1023)));
}

#[test]
fn first_breaking_sample_scans_rows_in_order_and_skips_padding() {
    // 3 x 2 active samples in rows of stride 4; the padding column holds a
    // value that would break the rule and is not read.
    let plane = [1u16, 2, 3, 999, 4, 5, 6, 999];
    let rule = SampleRule::AtMost(10);
    let le: Vec<u16> = plane.iter().map(|v| v.to_le()).collect();
    assert_eq!(first_breaking_sample(&le, 4, 3, 2, false, rule), None);

    let bad = [1u16, 2, 3, 0, 4, 50, 60, 0];
    let be: Vec<u16> = bad.iter().map(|v| v.to_be()).collect();
    assert_eq!(first_breaking_sample(&be, 4, 3, 2, true, rule), Some((5, 50)));

    let first_row = [11u16, 0, 0, 0, 0, 0, 12, 0];
    let le: Vec<u16> = first_row.iter().map(|v| v.to_le()).collect();
    assert_eq!(first_breaking_sample(&le, 4, 3, 2, false, rule), Some((0, 11)));
}
