use image_cache::dpi::derive_dpi;
use image_cache::dpi::parse_rational;

#[test]
fn missing_tags_yield_default() {
    assert_eq!(derive_dpi(None, None), 72);
    assert_eq!(derive_dpi(Some(b"300/1"), None), 72);
    assert_eq!(derive_dpi(None, Some(b"300/1")), 72);
}

#[test]
fn equal_resolutions_yield_that_value() {
    assert_eq!(derive_dpi(Some(b"300/1"), Some(b"300/1")), 300);
}

#[test]
fn differing_resolutions_yield_mean() {
    assert_eq!(derive_dpi(Some(b"300/1"), Some(b"400/1")), 350);
}

#[test]
fn nearly_equal_resolutions_yield_x_value() {
    // 3000/10 equals 300/1 exactly; scaled denominators must not matter.
    assert_eq!(derive_dpi(Some(b"3000/10"), Some(b"300/1")), 300);
}

#[test]
fn difference_of_exactly_a_tenth_uses_mean() {
    // 299.9 vs 300.0 differs by exactly 0.1, which is not within the
    // epsilon, so the mean 299.95 is reported, truncated to 299.
    assert_eq!(derive_dpi(Some(b"2999/10"), Some(b"300/1")), 299);
}

#[test]
fn unparseable_tags_yield_default() {
    assert_eq!(derive_dpi(Some(b"abc"), Some(b"300/1")), 72);
    assert_eq!(derive_dpi(Some(b"300/1"), Some(b"12/34/56")), 72);
    assert_eq!(derive_dpi(Some(b""), Some(b"300/1")), 72);
    assert_eq!(derive_dpi(Some(b"300/"), Some(b"300/1")), 72);
    assert_eq!(derive_dpi(Some(b"/300"), Some(b"300/1")), 72);
}

#[test]
fn zero_denominator_yields_default() {
    assert_eq!(derive_dpi(Some(b"300/0"), Some(b"300/1")), 72);
}

#[test]
fn plain_integer_tag_parses() {
    assert_eq!(parse_rational(b"300"), Some((300, 1)));
    assert_eq!(derive_dpi(Some(b"300"), Some(b"300")), 300);
}

#[test]
fn rational_tag_parses() {
    assert_eq!(parse_rational(b"720000/10000"), Some((720000, 10000)));
    assert_eq!(parse_rational(b"1/2"), Some((1, 2)));
}

#[test]
fn overlong_value_is_unparseable() {
    assert_eq!(parse_rational(b"99999999999/1"), None);
    assert_eq!(parse_rational(b"4294967295/1"), Some((4294967295, 1)));
}

#[test]
fn fractional_resolutions_truncate() {
    // 150.5 on both axes: close, so the X value 150.5 truncates to 150.
    assert_eq!(derive_dpi(Some(b"301/2"), Some(b"301/2")), 150);
}
