use image_cache::resize::calculate_dimensions;
use image_cache::resize::calculate_new_dimensions;
use image_cache::resize::scaled_dimensions;

#[test]
fn wide_source_scales_longest_edge_to_bound() {
    assert_eq!(calculate_new_dimensions(4000, 2000), Some((1024, 512)));
}

#[test]
fn tall_source_scales_longest_edge_to_bound() {
    assert_eq!(calculate_new_dimensions(2000, 4000), Some((512, 1024)));
}

#[test]
fn short_edge_rounds_to_nearest() {
    // 2000 * 1024 / 3000 = 682.67, which rounds to 683.
    assert_eq!(calculate_new_dimensions(3000, 2000), Some((1024, 683)));
}

#[test]
fn source_at_bound_is_not_resized() {
    assert_eq!(calculate_new_dimensions(1024, 700), None);
    assert_eq!(calculate_new_dimensions(1024, 1024), None);
}

#[test]
fn source_below_bound_is_not_resized() {
    assert_eq!(calculate_new_dimensions(800, 600), None);
}

#[test]
fn just_above_bound_is_resized() {
    assert_eq!(calculate_new_dimensions(1025, 1025), Some((1024, 1024)));
}

#[test]
fn preview_dimensions_fall_back_to_source() {
    assert_eq!(calculate_dimensions(800, 600), (800, 600));
    assert_eq!(calculate_dimensions(4000, 2000), (1024, 512));
}

#[test]
fn custom_bound_is_honored() {
    assert_eq!(scaled_dimensions(4000, 2000, 100), Some((100, 50)));
    assert_eq!(scaled_dimensions(90, 50, 100), None);
}

#[test]
fn square_source_stays_square() {
    assert_eq!(calculate_new_dimensions(5000, 5000), Some((1024, 1024)));
}
