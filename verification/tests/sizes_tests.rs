use image_cache::sizes::format_file_size;
use image_cache::sizes::u64_to_decimal;

#[test]
fn decimal_rendering_is_exact() {
    assert_eq!(u64_to_decimal(0), "0");
    assert_eq!(u64_to_decimal(7), "7");
    assert_eq!(u64_to_decimal(10), "10");
    assert_eq!(u64_to_decimal(1234567890), "1234567890");
}

#[test]
fn small_sizes_render_in_kilobytes() {
    assert_eq!(format_file_size(512), "0.50 KB");
    assert_eq!(format_file_size(1536), "1.50 KB");
    assert_eq!(format_file_size(0), "0.00 KB");
}

#[test]
fn fractions_round_to_the_nearest_hundredth() {
    // 1023 bytes is 0.99902 KB, which rounds up to 1.00 KB.
    assert_eq!(format_file_size(1023), "1.00 KB");
    // 1075 bytes is 1.0498 KB, which rounds to 1.05 KB.
    assert_eq!(format_file_size(1075), "1.05 KB");
}

#[test]
fn kilobyte_fraction_pads_to_two_digits() {
    // 1065 bytes is 1.0400... KB: a one-digit fraction gets a zero.
    assert_eq!(format_file_size(1065), "1.04 KB");
}

#[test]
fn megabyte_sizes_render_in_megabytes() {
    assert_eq!(format_file_size(1048576), "1.00 MB");
    assert_eq!(format_file_size(2621440), "2.50 MB");
}

#[test]
fn gigabyte_sizes_render_in_gigabytes() {
    assert_eq!(format_file_size(1073741824), "1.00 GB");
    assert_eq!(format_file_size(1073741824 + 536870912), "1.50 GB");
}

#[test]
fn just_below_a_unit_rounds_within_the_smaller_unit() {
    // 1048575 bytes is 1023.999 KB: still rendered in KB, rounded to
    // 1024.00 KB, because the unit is chosen from the byte count.
    assert_eq!(format_file_size(1048575), "1024.00 KB");
}
