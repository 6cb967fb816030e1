use std::io::Cursor;

use hdri_pipeline::errors::ErrorKind;
use hdri_pipeline::exposure::{
    analyze_exposure, brightness_order, compute_circle_mask, filter_images, scan_exposure,
    select_exposures, selection_bounds, ExposureStats, FisheyeGeometry, RgbImage,
};

fn stats(below: u64, above: u64, mean: u64) -> ExposureStats {
    ExposureStats { pixels_below: below, pixels_above: above, mean_brightness: mean }
}

fn names(list: &[&str]) -> Vec<String> {
    list.iter().map(|s| s.to_string()).collect()
}

fn jpeg_of(width: u32, height: u32, rgb: [u8; 3]) -> Vec<u8> {
    let img = image::RgbImage::from_pixel(width, height, image::Rgb(rgb));
    let mut out = Cursor::new(Vec::new());
    img.write_to(&mut out, image::ImageFormat::Jpeg).unwrap();
    out.into_inner()
}

#[test]
fn five_exposures_keep_predicted_slice() {
    // Brightness order: e (900), b (700), d (500), a (300), c (100).
    let paths = names(&["a.jpg", "b.jpg", "c.jpg", "d.jpg", "e.jpg"]);
    let s = vec![
        stats(0, 0, 300),
        stats(3, 5, 700),
        stats(0, 0, 100),
        stats(0, 2, 500),
        stats(4, 9, 900),
    ];
    // Sorted: e(below 4), b(below 3), d(below 0) -> start = 2 (d).
    // After start, last with no highlight: c at index 4 -> end = 4 (exclusive).
    let kept = select_exposures(&paths, &s);
    assert_eq!(kept, names(&["d.jpg", "a.jpg"]));
}

#[test]
fn no_exposure_free_of_black_starts_at_zero() {
    let paths = names(&["shot1.jpg", "shot2.jpg", "shot3.jpg", "shot4.jpg", "shot5.jpg"]);
    let s = vec![
        stats(1, 0, 10),
        stats(2, 0, 50),
        stats(3, 1, 40),
        stats(4, 3, 30),
        stats(5, 0, 20),
    ];
    // Sorted: shot2, shot3, shot4, shot5, shot1; none is free of black, so start = 0.
    // After 0, last free of highlight: shot1 at index 4 -> end = 4.
    let sorted: Vec<ExposureStats> = brightness_order(&s).iter().map(|&i| s[i]).collect();
    assert_eq!(selection_bounds(&sorted), (0, 4));
    assert_eq!(select_exposures(&paths, &s), names(&["shot2.jpg", "shot3.jpg", "shot4.jpg", "shot5.jpg"]));
}

#[test]
fn no_exposure_free_of_white_ends_at_length() {
    let paths = names(&["q1.jpg", "q2.jpg", "q3.jpg", "q4.jpg", "q5.jpg"]);
    let s = vec![
        stats(0, 5, 500),
        stats(2, 5, 900),
        stats(0, 5, 100),
        stats(0, 5, 300),
        stats(0, 5, 700),
    ];
    // Sorted: q2, q5, q1, q4, q3; start = 1 (q5); nothing free of white after it: end = 5.
    let sorted: Vec<ExposureStats> = brightness_order(&s).iter().map(|&i| s[i]).collect();
    assert_eq!(selection_bounds(&sorted), (1, 5));
    assert_eq!(select_exposures(&paths, &s), names(&["q5.jpg", "q1.jpg", "q4.jpg", "q3.jpg"]));
}

#[test]
fn equal_brightness_keeps_input_order() {
    let s = vec![stats(0, 0, 200), stats(0, 0, 400), stats(0, 0, 200), stats(0, 0, 400)];
    assert_eq!(brightness_order(&s), vec![1, 3, 0, 2]);
}

#[test]
fn empty_candidate_list_selects_nothing() {
    let kept = select_exposures(&Vec::new(), &Vec::new());
    assert!(kept.is_empty());
    assert_eq!(selection_bounds(&Vec::new()), (0, 0));
}

#[test]
fn non_jpeg_candidates_are_returned_unchanged() {
    let paths = names(&["z.CR2", "a.jpg", "m.tif"]);
    let kept = filter_images(&paths, &Vec::new(), FisheyeGeometry { diameter: 4, xleft: 0, ydown: 0 })
        .unwrap();
    assert_eq!(kept, paths);
}

#[test]
fn one_undecodable_candidate_fails_the_filter() {
    let paths = names(&["a.jpg", "b.jpg", "c.jpg"]);
    let contents = vec![jpeg_of(8, 8, [120, 120, 120]), b"not an image".to_vec(), jpeg_of(8, 8, [10, 10, 10])];
    let err = filter_images(&paths, &contents, FisheyeGeometry { diameter: 8, xleft: 0, ydown: 0 })
        .unwrap_err();
    assert_eq!(err.kind, ErrorKind::Decode);
    assert!(err.describe().starts_with("Failed to decode image b.jpg: "));
}

#[test]
fn undecodable_first_candidate_fails_the_filter() {
    let paths = names(&["a.JPG", "b.jpg"]);
    let contents = vec![vec![0u8; 16], jpeg_of(8, 8, [10, 10, 10])];
    let err = filter_images(&paths, &contents, FisheyeGeometry { diameter: 8, xleft: 0, ydown: 0 })
        .unwrap_err();
    assert_eq!(err.kind, ErrorKind::Decode);
    assert!(err.describe().starts_with("Failed to decode image a.JPG: "));
}

#[test]
fn decoded_jpegs_are_sorted_and_sliced() {
    // Bright (blown), mid, dark (crushed) exposures of the same 16 x 16 scene.
    let paths = names(&["dark.jpg", "bright.jpg", "mid.jpg"]);
    let contents = vec![
        jpeg_of(16, 16, [5, 5, 5]),
        jpeg_of(16, 16, [250, 250, 250]),
        jpeg_of(16, 16, [128, 128, 128]),
    ];
    let kept = filter_images(&paths, &contents, FisheyeGeometry { diameter: 16, xleft: 0, ydown: 0 })
        .unwrap();
    // Sorted: bright, mid, dark. bright has no crushed black: start = 0. After it, mid has no
    // blown highlight and dark neither; the last is dark at index 2: end = 2.
    assert_eq!(kept, names(&["bright.jpg", "mid.jpg"]));
}

#[test]
fn mask_is_bit_identical_across_calls() {
    let g = FisheyeGeometry { diameter: 6, xleft: 1, ydown: 2 };
    let a = compute_circle_mask(g, 9, 11);
    let b = compute_circle_mask(g, 9, 11);
    assert_eq!(a.inside, b.inside);
    assert_eq!(a.inside.len(), 99);
}

#[test]
fn mask_marks_the_fisheye_circle() {
    // Diameter 4 at the origin: centre (2, 2), radius 2.
    let m = compute_circle_mask(FisheyeGeometry { diameter: 4, xleft: 0, ydown: 0 }, 5, 5);
    let at = |x: usize, y: usize| m.inside[y * 5 + x];
    assert!(at(2, 2));
    assert!(at(0, 2));
    assert!(at(4, 2));
    assert!(at(2, 0));
    assert!(!at(0, 0));
    assert!(!at(4, 4));
    assert!(at(1, 1));
    let count = m.inside.iter().filter(|&&b| b).count();
    assert_eq!(count, 13);
}

fn plus_mask() -> hdri_pipeline::exposure::CircleMask {
    // Diameter 2 at the origin of a 3 x 3 grid: centre (1, 1), radius 1, so the centre and
    // its four neighbours are inside and the corners are not.
    let mask = compute_circle_mask(FisheyeGeometry { diameter: 2, xleft: 0, ydown: 0 }, 3, 3);
    assert_eq!(mask.inside, vec![false, true, false, true, true, true, false, true, false]);
    mask
}

#[test]
fn scan_counts_black_white_and_mean() {
    let mask = plus_mask();
    let grey = [100u8, 100, 100];
    let mut pixels = Vec::new();
    for p in 0..9 {
        let rgb = match p {
            1 => [10, 20, 26],
            3 => [240, 250, 229],
            4 | 5 | 7 => grey,
            _ => [0, 0, 0],
        };
        pixels.extend_from_slice(&rgb);
    }
    let s = scan_exposure(&RgbImage { width: 3, height: 3, pixels }, &mask);
    assert_eq!(s.pixels_below, 1);
    assert_eq!(s.pixels_above, 1);
    // (17_694 + 244_616 + 3 * 100_000) / 5
    assert_eq!(s.mean_brightness, 112_462);
}

#[test]
fn scan_ignores_pixels_outside_the_mask() {
    let mask = plus_mask();
    let mut pixels = Vec::new();
    for p in 0..9 {
        let rgb = if p % 2 == 0 && p != 4 { [255u8, 255, 255] } else { [100, 100, 100] };
        pixels.extend_from_slice(&rgb);
    }
    let s = scan_exposure(&RgbImage { width: 3, height: 3, pixels }, &mask);
    assert_eq!(s, ExposureStats { pixels_below: 0, pixels_above: 0, mean_brightness: 100_000 });
}

#[test]
fn scan_of_an_empty_mask_has_mean_zero() {
    let mask = compute_circle_mask(FisheyeGeometry { diameter: 1, xleft: 0, ydown: 0 }, 2, 1);
    assert_eq!(mask.inside, vec![false, false]);
    let s = scan_exposure(&RgbImage { width: 2, height: 1, pixels: vec![1, 2, 3, 4, 5, 6] }, &mask);
    assert_eq!(s, ExposureStats { pixels_below: 0, pixels_above: 0, mean_brightness: 0 });
}

#[test]
fn analysis_decodes_real_jpeg_bytes() {
    let mask = compute_circle_mask(FisheyeGeometry { diameter: 8, xleft: 0, ydown: 0 }, 8, 8);
    let s = analyze_exposure(&jpeg_of(8, 8, [250, 250, 250]), &mask).unwrap();
    assert!(s.pixels_above > 0);
    assert_eq!(s.pixels_below, 0);
    assert!(s.mean_brightness > 228_000);
    assert!(analyze_exposure(&b"garbage".to_vec(), &mask).is_err());
}
