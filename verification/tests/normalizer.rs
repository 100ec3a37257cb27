use edge_detection::normalize::{scale_pixel, value_range};
use edge_detection::{normalize_u16_to_u8, Raster};

fn raster(width: u32, height: u32, pixels: Vec<u16>) -> Raster<u16> {
    Raster::new(width, height, pixels).expect("one sample for each position")
}

#[test]
fn truncates_instead_of_rounding() {
    let (out, flat) = normalize_u16_to_u8(&raster(3, 1, vec![0, 5, 10]));
    assert_eq!(out.pixels, vec![0, 127, 255]);
    assert!(!flat);
}

#[test]
fn rescales_by_the_observed_range() {
    let (out, flat) = normalize_u16_to_u8(&raster(2, 2, vec![100, 200, 300, 1000]));
    assert_eq!(out.pixels, vec![0, 28, 56, 255]);
    assert!(!flat);
}

#[test]
fn two_values_become_black_and_white() {
    let (out, flat) = normalize_u16_to_u8(&raster(2, 1, vec![40000, 40001]));
    assert_eq!(out.pixels, vec![0, 255]);
    assert!(!flat);
}

#[test]
fn full_sixteen_bit_range() {
    let (out, _) = normalize_u16_to_u8(&raster(5, 1, vec![0, 256, 257, 65534, 65535]));
    assert_eq!(out.pixels, vec![0, 0, 1, 254, 255]);
}

#[test]
fn contrast_uses_the_whole_output_range() {
    let pixels: Vec<u16> = (0..64u16).map(|i| 1000 + (i * 37) % 411).collect();
    let (out, flat) = normalize_u16_to_u8(&raster(8, 8, pixels));
    assert!(!flat);
    assert!(out.pixels.contains(&0));
    assert!(out.pixels.contains(&255));
}

#[test]
fn constant_raster_is_black_and_flat() {
    for k in [0u16, 1, 1234, 65535] {
        let (out, flat) = normalize_u16_to_u8(&raster(4, 3, vec![k; 12]));
        assert!(flat, "k = {}", k);
        assert_eq!(out.pixels, vec![0u8; 12], "k = {}", k);
    }
}

#[test]
fn brightest_constant_is_black_not_white() {
    let (out, flat) = normalize_u16_to_u8(&raster(2, 2, vec![65535; 4]));
    assert!(flat);
    assert_eq!(out.pixels, vec![0, 0, 0, 0]);
}

#[test]
fn single_pixel_is_black_and_flat() {
    let (out, flat) = normalize_u16_to_u8(&raster(1, 1, vec![777]));
    assert!(flat);
    assert_eq!(out.pixels, vec![0]);
}

#[test]
fn empty_raster_stays_empty_without_warning() {
    let (out, flat) = normalize_u16_to_u8(&raster(0, 0, vec![]));
    assert!(!flat);
    assert!(out.pixels.is_empty());
    assert_eq!((out.width, out.height), (0, 0));
}

#[test]
fn keeps_the_dimensions() {
    let (out, _) = normalize_u16_to_u8(&raster(3, 5, (0..15u16).collect()));
    assert_eq!((out.width, out.height), (3, 5));
    assert_eq!(out.pixels.len(), 15);
}

#[test]
fn keeps_the_order_of_the_samples() {
    let pixels: Vec<u16> = vec![9, 700, 3, 65000, 700, 12000, 4, 3];
    let (out, _) = normalize_u16_to_u8(&raster(4, 2, pixels.clone()));
    for i in 0..pixels.len() {
        for j in 0..pixels.len() {
            if pixels[i] <= pixels[j] {
                assert!(out.pixels[i] <= out.pixels[j]);
            }
        }
    }
}

#[test]
fn agrees_with_single_precision_arithmetic() {
    let ranges = [
        (0u16, 3u16),
        (0, 5),
        (0, 10),
        (0, 15),
        (0, 17),
        (0, 51),
        (0, 85),
        (0, 255),
        (0, 510),
        (7, 1027),
        (1, 65281),
        (500, 65000),
        (0, 65535),
    ];
    for (lo, hi) in ranges {
        let pixels: Vec<u16> = (lo..=hi).collect();
        let width = pixels.len() as u32;
        let (out, _) = normalize_u16_to_u8(&raster(width, 1, pixels.clone()));
        for (v, scaled) in pixels.iter().zip(out.pixels.iter()) {
            let expected = ((v - lo) as f32 / (hi - lo) as f32 * 255.0) as u8;
            assert_eq!(*scaled, expected, "v = {}, range {}..={}", v, lo, hi);
        }
    }
}

#[test]
fn value_range_finds_both_ends() {
    assert_eq!(value_range(&vec![5, 3, 9, 3, 7]), (3, 9));
    assert_eq!(value_range(&vec![42]), (42, 42));
    assert_eq!(value_range(&vec![]), (65535, 0));
}

#[test]
fn scale_pixel_cuts_fractions_off() {
    assert_eq!(scale_pixel(5, 0, 10), 127);
    assert_eq!(scale_pixel(0, 0, 10), 0);
    assert_eq!(scale_pixel(10, 0, 10), 255);
    assert_eq!(scale_pixel(2, 1, 4), 85);
    assert_eq!(scale_pixel(3, 1, 4), 170);
    assert_eq!(scale_pixel(9, 9, 9), 0);
}

#[test]
fn raster_needs_one_sample_for_each_position() {
    assert!(Raster::new(2, 3, vec![0u8; 6]).is_some());
    assert!(Raster::new(2, 3, vec![0u8; 5]).is_none());
    assert!(Raster::new(2, 3, vec![0u8; 7]).is_none());
    assert!(Raster::new(0, 9, Vec::<u8>::new()).is_some());
    assert!(Raster::new(0, 9, vec![1u8]).is_none());
    let r = Raster::new(2, 1, vec![7u16, 8]).unwrap();
    assert_eq!((r.width, r.height), (2, 1));
    assert_eq!(r.pixels, vec![7, 8]);
}
