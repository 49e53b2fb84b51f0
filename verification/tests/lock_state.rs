use image::{Rgb, RgbImage};
use yas_scanner_genshin::lock_state::{color_distance, has_lock_marker, lock_marker};

fn marker_near(image: &RgbImage, x: i32, y: i32) -> bool {
    has_lock_marker(image.as_raw(), image.width(), image.height(), x, y)
}

#[test]
fn detects_the_lock_marker_color_near_the_expected_position() {
    let mut image = RgbImage::new(20, 30);
    image.put_pixel(9, 20, Rgb([255, 138, 117]));

    assert!(marker_near(&image, 10, 15));
}

#[test]
fn accepts_small_color_variation_but_rejects_unrelated_pixels() {
    let mut image = RgbImage::new(20, 30);
    image.put_pixel(10, 15, Rgb([252, 140, 119]));
    assert!(marker_near(&image, 10, 15));

    image.put_pixel(10, 15, Rgb([255, 255, 255]));
    assert!(!marker_near(&image, 10, 15));
}

#[test]
fn clips_the_search_region_at_image_edges() {
    let mut image = RgbImage::new(2, 2);
    image.put_pixel(0, 0, Rgb([255, 138, 117]));

    assert!(marker_near(&image, 0, 0));
}

#[test]
fn the_search_window_is_two_columns_by_twenty_rows() {
    let mut image = RgbImage::new(20, 40);
    // One column to the right of the centre is outside the window.
    image.put_pixel(11, 15, Rgb([255, 138, 117]));
    assert!(!marker_near(&image, 10, 15));
    // Ten rows below the centre is outside; nine is inside.
    let mut image = RgbImage::new(20, 40);
    image.put_pixel(10, 25, Rgb([255, 138, 117]));
    assert!(!marker_near(&image, 10, 15));
    image.put_pixel(10, 24, Rgb([255, 138, 117]));
    assert!(marker_near(&image, 10, 15));
    // Ten rows above is inside.
    let mut image = RgbImage::new(20, 40);
    image.put_pixel(9, 5, Rgb([255, 138, 117]));
    assert!(marker_near(&image, 10, 15));
}

#[test]
fn color_distance_is_the_squared_euclidean_distance() {
    assert_eq!(color_distance([252, 140, 119], lock_marker()), 17);
    assert_eq!(color_distance([0, 0, 0], [255, 255, 255]), 195075);
    assert_eq!(color_distance([20, 30, 40], [20, 30, 40]), 0);
    // The threshold is strict: a distance of exactly 30 is not the marker.
    assert_eq!(color_distance([250, 136, 116], lock_marker()), 30);
    let mut image = RgbImage::new(4, 4);
    image.put_pixel(1, 1, Rgb([250, 136, 116]));
    assert!(!marker_near(&image, 1, 1));
}
