use raytracer::config::{
    default_image_height, default_image_width, default_max_depth, default_samples_per_pixel,
};
use raytracer::scan::{count_pixels, pixel_at, pixel_at_back, PixelScan};

#[test]
fn scan_from_the_top() {
    let mut scan = PixelScan::new(3, 2);
    let mut seen = Vec::new();
    while let Some(pixel) = scan.next() {
        seen.push(pixel);
    }
    assert_eq!(seen, [(0, 1), (1, 1), (2, 1), (0, 0), (1, 0), (2, 0)]);
    assert_eq!(scan.next(), None);
    assert_eq!(scan.next(), None);
}

#[test]
fn scan_from_the_bottom() {
    let mut scan = PixelScan::new(3, 2);
    let mut seen = Vec::new();
    while let Some(pixel) = scan.next_back() {
        seen.push(pixel);
    }
    assert_eq!(seen, [(0, 0), (1, 0), (2, 0), (0, 1), (1, 1), (2, 1)]);
    assert_eq!(scan.next_back(), None);
}

#[test]
fn the_two_directions_keep_their_own_place() {
    let mut scan = PixelScan::new(2, 2);
    assert_eq!(scan.next(), Some((0, 1)));
    assert_eq!(scan.next_back(), Some((0, 0)));
    assert_eq!(scan.next(), Some((1, 1)));
    assert_eq!(scan.next_back(), Some((1, 0)));
    assert_eq!(scan.next(), Some((0, 0)));
    assert_eq!(scan.next(), Some((1, 0)));
    assert_eq!(scan.next(), None);
    assert_eq!(scan.next_back(), Some((0, 1)));
    assert_eq!(scan.next_back(), Some((1, 1)));
    assert_eq!(scan.next_back(), None);
}

#[test]
fn scan_of_an_empty_image() {
    assert_eq!(PixelScan::new(0, 5).next(), None);
    assert_eq!(PixelScan::new(5, 0).next(), None);
    assert_eq!(PixelScan::new(0, 0).next_back(), None);
    assert_eq!(PixelScan::new(0, 5).next_back(), None);
}

#[test]
fn every_pixel_once() {
    let (width, height) = (7u32, 5u32);
    let mut scan = PixelScan::new(width, height);
    let mut seen = vec![0u32; (width * height) as usize];
    let mut index = 0u64;
    while let Some((x, y)) = scan.next() {
        assert!(x < width && y < height);
        assert_eq!(pixel_at(width, height, index), Some((x, y)));
        assert_eq!(index, ((height - 1 - y) * width + x) as u64);
        seen[(y * width + x) as usize] += 1;
        index += 1;
    }
    assert_eq!(index, count_pixels(width, height));
    assert!(seen.iter().all(|n| *n == 1));
}

#[test]
fn pixel_by_number() {
    assert_eq!(pixel_at(400, 225, 0), Some((0, 224)));
    assert_eq!(pixel_at(400, 225, 399), Some((399, 224)));
    assert_eq!(pixel_at(400, 225, 400), Some((0, 223)));
    assert_eq!(pixel_at(400, 225, 89_999), Some((399, 0)));
    assert_eq!(pixel_at(400, 225, 90_000), None);
    assert_eq!(pixel_at_back(400, 225, 0), Some((0, 0)));
    assert_eq!(pixel_at_back(400, 225, 401), Some((1, 1)));
    assert_eq!(pixel_at_back(400, 225, 89_999), Some((399, 224)));
    assert_eq!(pixel_at_back(400, 225, 90_000), None);
    assert_eq!(pixel_at(0, 0, 0), None);
    assert_eq!(count_pixels(u32::MAX, u32::MAX), 18_446_744_065_119_617_025);
    assert_eq!(
        pixel_at(u32::MAX, u32::MAX, 18_446_744_065_119_617_024),
        Some((u32::MAX - 1, 0))
    );
    assert_eq!(pixel_at(u32::MAX, u32::MAX, 18_446_744_065_119_617_025), None);
}

#[test]
fn default_settings() {
    assert_eq!(default_image_width(), 400);
    assert_eq!(default_image_height(), 225);
    assert_eq!(default_samples_per_pixel(), 300);
    assert_eq!(default_max_depth(), 50);
}
