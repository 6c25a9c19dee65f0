use std::io::Cursor;

use img_classify::{
    channel_denominator, check_input_shape, decode_image, normalize_planar, normalize_sample,
    prepare_input, preprocess, InputTensor, PipelineError, PixelGrid, CHANNELS, PLANE_LEN,
    TARGET_HEIGHT, TARGET_WIDTH, TENSOR_LEN,
};

fn png_bytes(img: image::RgbImage) -> Vec<u8> {
    let mut out: Vec<u8> = Vec::new();
    image::DynamicImage::ImageRgb8(img)
        .write_to(&mut Cursor::new(&mut out), image::ImageFormat::Png)
        .unwrap();
    out
}

fn solid_png(w: u32, h: u32, rgb: [u8; 3]) -> Vec<u8> {
    png_bytes(image::RgbImage::from_pixel(w, h, image::Rgb(rgb)))
}

fn as_f32(t: &InputTensor, i: usize) -> f32 {
    let (n, d) = t.value_parts(i);
    n as f32 / d as f32
}

#[test]
fn normalize_sample_exact_values() {
    assert_eq!(normalize_sample(0, 128), 4325);
    assert_eq!(normalize_sample(1, 0), -116280);
    assert_eq!(normalize_sample(2, 255), 151470);
    assert_eq!(channel_denominator(0), 58395);
    assert_eq!(channel_denominator(1), 57120);
    assert_eq!(channel_denominator(2), 57375);
}

#[test]
fn normalized_values_match_float_formula() {
    let mean = [0.485f64, 0.456, 0.406];
    let std = [0.229f64, 0.224, 0.225];
    for c in 0..3usize {
        for v in [0u8, 1, 77, 128, 200, 255] {
            let exact = normalize_sample(c, v) as f64 / channel_denominator(c) as f64;
            let formula = (v as f64 / 255.0 - mean[c]) / std[c];
            assert!((exact - formula).abs() < 1e-12);
        }
    }
}

#[test]
fn normalization_range_per_channel() {
    let mean = [0.485f64, 0.456, 0.406];
    let std = [0.229f64, 0.224, 0.225];
    for c in 0..3usize {
        let lo = normalize_sample(c, 0) as f64 / channel_denominator(c) as f64;
        let hi = normalize_sample(c, 255) as f64 / channel_denominator(c) as f64;
        assert!((lo - (-mean[c] / std[c])).abs() < 1e-12);
        assert!((hi - ((1.0 - mean[c]) / std[c])).abs() < 1e-12);
        for v in 0..=255u8 {
            let x = normalize_sample(c, v) as f64 / channel_denominator(c) as f64;
            assert!(lo <= x && x <= hi);
        }
    }
    assert!((normalize_sample(0, 0) as f64 / channel_denominator(0) as f64 + 2.1179).abs() < 1e-4);
}

#[test]
fn normalize_planar_layout() {
    let mut px: Vec<u8> = Vec::with_capacity(3 * PLANE_LEN);
    for p in 0..PLANE_LEN {
        px.push((p % 256) as u8);
        px.push(((p / 7) % 256) as u8);
        px.push(((p * 3) % 256) as u8);
    }
    let t = normalize_planar(&px);
    assert_eq!(t.dims, vec![1, 3, 224, 224]);
    assert_eq!(t.numerators.len(), TENSOR_LEN);
    for c in 0..CHANNELS {
        for p in [0usize, 1, 223, 224, 5000, PLANE_LEN - 1] {
            assert_eq!(t.numerators[c * PLANE_LEN + p], normalize_sample(c, px[3 * p + c]));
        }
    }
}

#[test]
fn decode_empty_bytes_is_decode_error() {
    assert_eq!(decode_image(&[]).err(), Some(PipelineError::Decode));
    assert_eq!(prepare_input(&[]).err(), Some(PipelineError::Decode));
}

#[test]
fn decode_random_bytes_is_decode_error() {
    let mut bytes: Vec<u8> = Vec::new();
    let mut x: u32 = 12345;
    for _ in 0..4096 {
        x = x.wrapping_mul(1103515245).wrapping_add(12345);
        bytes.push((x >> 16) as u8);
    }
    assert_eq!(decode_image(&bytes).err(), Some(PipelineError::Decode));
    assert_eq!(prepare_input(&bytes).err(), Some(PipelineError::Decode));
}

#[test]
fn decode_truncated_png_is_decode_error() {
    let bytes = solid_png(8, 8, [10, 20, 30]);
    assert_eq!(decode_image(&bytes[..bytes.len() / 2]).err(), Some(PipelineError::Decode));
}

#[test]
fn decode_png_gives_its_pixels() {
    let mut img = image::RgbImage::new(3, 2);
    for (x, y, p) in img.enumerate_pixels_mut() {
        *p = image::Rgb([x as u8 * 10, y as u8 * 100, 7]);
    }
    let grid = decode_image(&png_bytes(img)).unwrap();
    assert_eq!((grid.width, grid.height), (3, 2));
    assert_eq!(
        grid.data,
        vec![0, 0, 7, 10, 0, 7, 20, 0, 7, 0, 100, 7, 10, 100, 7, 20, 100, 7]
    );
}

#[test]
fn pixel_grid_rejects_bad_dimensions() {
    assert!(PixelGrid::new(0, 4, vec![]).is_none());
    assert!(PixelGrid::new(2, 2, vec![0; 11]).is_none());
    let g = PixelGrid::new(2, 2, vec![0; 12]).unwrap();
    assert!(g.is_well_formed());
}

#[test]
fn solid_gray_target_size_image_end_to_end() {
    let bytes = solid_png(TARGET_WIDTH, TARGET_HEIGHT, [128, 128, 128]);
    let t1 = prepare_input(&bytes).unwrap();
    let t2 = prepare_input(&bytes).unwrap();
    assert_eq!(t1.dims, t2.dims);
    assert_eq!(t1.numerators, t2.numerators);
    assert_eq!(t1.dims, vec![1, 3, 224, 224]);
    for c in 0..CHANNELS {
        for p in 0..PLANE_LEN {
            assert_eq!(t1.numerators[c * PLANE_LEN + p], normalize_sample(c, 128));
        }
    }
    assert!((as_f32(&t1, 0) - 0.07406).abs() < 1e-4);
}

#[test]
fn small_image_is_stretched_to_target_shape() {
    let bytes = solid_png(10, 6, [200, 50, 0]);
    let t = prepare_input(&bytes).unwrap();
    assert_eq!(t.dims, vec![1, 3, 224, 224]);
    assert_eq!(t.numerators.len(), TENSOR_LEN);
    assert_eq!(check_input_shape(&t), Ok(()));
    for c in 0..CHANNELS {
        let v = [200u8, 50, 0][c];
        for p in [0usize, 113, 224 * 100 + 57, PLANE_LEN - 1] {
            let n = t.numerators[c * PLANE_LEN + p];
            assert!((n - normalize_sample(c, v)).abs() <= 1000);
        }
    }
}

#[test]
fn large_image_is_shrunk_to_target_shape() {
    let mut img = image::RgbImage::new(300, 250);
    for (x, y, p) in img.enumerate_pixels_mut() {
        *p = image::Rgb([(x % 256) as u8, (y % 256) as u8, 90]);
    }
    let grid = decode_image(&png_bytes(img)).unwrap();
    let t = preprocess(grid);
    assert_eq!(t.dims, vec![1, 3, 224, 224]);
    assert_eq!(t.numerators.len(), TENSOR_LEN);
    // the left edge stays dark red, the right edge turns bright red
    assert!(t.numerators[0] < t.numerators[223]);
}

#[test]
fn shape_check_rejects_mismatch() {
    let bytes = solid_png(4, 4, [1, 2, 3]);
    let good = prepare_input(&bytes).unwrap();
    assert_eq!(check_input_shape(&good), Ok(()));
    let wrong_dims = InputTensor { dims: vec![1, 224, 224, 3], numerators: good.numerators.clone() };
    assert_eq!(check_input_shape(&wrong_dims), Err(PipelineError::ShapeMismatch));
    let short = InputTensor { dims: good.dims.clone(), numerators: vec![0; TENSOR_LEN - 1] };
    assert_eq!(check_input_shape(&short), Err(PipelineError::ShapeMismatch));
}
