use imgopt::compress::{Compressor, Encoder};
use imgopt::dims::compute_height_preserving_aspect_ratio;
use imgopt::errors::OptError;
use imgopt::optimizer::{Optimizer, SourceImage, Variant};

fn gradient_image(width: usize, height: usize) -> SourceImage {
    let mut pixels = Vec::with_capacity(width * height * 3);
    for y in 0..height {
        for x in 0..width {
            pixels.push((x % 256) as u8);
            pixels.push((y % 256) as u8);
            pixels.push(((x + y) % 256) as u8);
        }
    }
    SourceImage {
        pixels,
        width,
        height,
    }
}

fn encode_variant(variant: &Variant) -> Vec<u8> {
    let job = &variant.job;
    let c = job.compression.expect("variant carries compression settings");
    match c.encoder {
        Encoder::MozJpeg => {
            let mut comp = mozjpeg::Compress::new(mozjpeg::ColorSpace::JCS_RGB);
            comp.set_size(job.width, job.height);
            comp.set_quality(c.quality as f32);
            let mut started = comp.start_compress(Vec::new()).unwrap();
            started.write_scanlines(&job.pixels).unwrap();
            started.finish().unwrap()
        }
        Encoder::WebP => {
            let encoder =
                webp::Encoder::from_rgb(&job.pixels, job.width as u32, job.height as u32);
            (*encoder.encode(c.quality as f32)).to_vec()
        }
    }
}

#[test]
fn nothing_requested_is_a_configuration_error() {
    let optimizer = Optimizer::new(gradient_image(8, 6), b"img/photo.png".to_vec());
    assert!(matches!(
        optimizer.optimize(),
        Err(OptError::ConfigurationError)
    ));
}

#[test]
fn compress_without_compressor_is_a_configuration_error() {
    let optimizer = Optimizer::new(gradient_image(8, 6), b"img/photo.png".to_vec());
    assert!(matches!(
        optimizer.compress(),
        Err(OptError::ConfigurationError)
    ));
}

#[test]
fn compress_hands_back_the_source_pixels() {
    let img = gradient_image(8, 6);
    let expected = img.pixels.clone();
    let mut optimizer = Optimizer::new(img, b"img/photo.png".to_vec());
    optimizer.set_quality(80);
    let job = optimizer.compress().unwrap();
    assert_eq!(job.pixels, expected);
    assert_eq!((job.width, job.height), (8, 6));
    assert_eq!(job.compression, Some(Compressor::new(80)));
}

#[test]
fn compress_rejects_a_malformed_buffer() {
    let img = SourceImage {
        pixels: vec![0u8; 10],
        width: 4,
        height: 4,
    };
    let mut optimizer = Optimizer::new(img, b"img/photo.png".to_vec());
    optimizer.set_quality(80);
    assert!(matches!(
        optimizer.compress(),
        Err(OptError::ConfigurationError)
    ));
}

#[test]
fn choosing_only_an_encoder_uses_the_default_quality() {
    let mut optimizer = Optimizer::new(gradient_image(8, 6), b"img/photo.png".to_vec());
    optimizer.set_encoder(Encoder::WebP);
    let path = optimizer.generate_save_path(8).unwrap();
    assert_eq!(path, b"img/optimized/photo_8_75.webp".to_vec());
}

#[test]
fn quality_then_encoder_keeps_the_quality() {
    let mut optimizer = Optimizer::new(gradient_image(8, 6), b"img/photo.png".to_vec());
    optimizer.set_quality(42);
    optimizer.set_encoder(Encoder::WebP);
    let path = optimizer.generate_save_path(8).unwrap();
    assert_eq!(path, b"img/optimized/photo_8_42.webp".to_vec());
}

#[test]
fn raw_resize_variant_has_no_compression() {
    let mut optimizer = Optimizer::new(gradient_image(8, 6), b"a/b.png".to_vec());
    optimizer.set_targets(vec![(4, 3)]);
    let variants = optimizer.optimize().unwrap();
    assert_eq!(variants.len(), 1);
    assert_eq!(variants[0].path, b"a/optimized/b_4.png".to_vec());
    assert_eq!(variants[0].job.compression, None);
    assert_eq!(variants[0].job.pixels.len(), 4 * 3 * 3);
}

#[test]
fn add_target_appends_in_order() {
    let mut optimizer = Optimizer::new(gradient_image(8, 6), b"a/b.png".to_vec());
    optimizer.add_target((4, 3));
    optimizer.add_target((2, 1));
    let variants = optimizer.optimize().unwrap();
    assert_eq!(variants.len(), 2);
    assert_eq!(variants[0].path, b"a/optimized/b_4.png".to_vec());
    assert_eq!(variants[1].path, b"a/optimized/b_2.png".to_vec());
}

#[test]
fn variant_at_matches_the_whole_plan() {
    let mut optimizer = Optimizer::new(gradient_image(8, 6), b"a/b.png".to_vec());
    optimizer.set_targets(vec![(4, 3), (2, 1)]);
    assert_eq!(optimizer.variant_count(), 2);
    let plan = optimizer.optimize().unwrap();
    for (i, expected) in plan.iter().enumerate() {
        let got = optimizer.variant_at(i).unwrap();
        assert_eq!(got.path, expected.path);
        assert_eq!(got.job.pixels, expected.job.pixels);
    }
}

#[test]
fn end_to_end_two_jpeg_variants() {
    let mut optimizer = Optimizer::new(gradient_image(800, 600), b"photos/sample.jpg".to_vec());
    let mut targets = Vec::new();
    for w in [400usize, 200usize] {
        let h = compute_height_preserving_aspect_ratio((800, 600), w).unwrap();
        targets.push((w, h));
    }
    optimizer.set_targets(targets);
    optimizer.set_quality(80);

    let variants = optimizer.optimize().unwrap();
    assert_eq!(variants.len(), 2);

    assert_eq!(variants[0].path, b"photos/optimized/sample_400_80.jpg".to_vec());
    assert_eq!((variants[0].job.width, variants[0].job.height), (400, 300));
    assert_eq!(variants[0].job.pixels.len(), 400 * 300 * 3);

    assert_eq!(variants[1].path, b"photos/optimized/sample_200_80.jpg".to_vec());
    assert_eq!((variants[1].job.width, variants[1].job.height), (200, 150));
    assert_eq!(variants[1].job.pixels.len(), 200 * 150 * 3);

    for variant in &variants {
        let encoded = encode_variant(variant);
        assert!(!encoded.is_empty());
        let decoded = image::load_from_memory(&encoded).unwrap();
        assert_eq!(
            (decoded.width() as usize, decoded.height() as usize),
            (variant.job.width, variant.job.height)
        );
    }
}

#[test]
fn end_to_end_one_webp_variant_at_source_size() {
    let mut optimizer = Optimizer::new(gradient_image(800, 600), b"photos/sample.jpg".to_vec());
    optimizer.set_quality(90);
    optimizer.set_encoder(Encoder::WebP);

    let variants = optimizer.optimize().unwrap();
    assert_eq!(variants.len(), 1);
    assert_eq!(variants[0].path, b"photos/optimized/sample_800_90.webp".to_vec());
    assert_eq!((variants[0].job.width, variants[0].job.height), (800, 600));

    let encoded = encode_variant(&variants[0]);
    assert!(!encoded.is_empty());
    assert_eq!(&encoded[0..4], b"RIFF");
    let decoded = image::load_from_memory(&encoded).unwrap();
    assert_eq!((decoded.width(), decoded.height()), (800, 600));
}

#[test]
fn path_error_aborts_the_run() {
    let mut optimizer = Optimizer::new(gradient_image(8, 6), b"".to_vec());
    optimizer.set_targets(vec![(4, 3)]);
    assert!(matches!(
        optimizer.optimize(),
        Err(OptError::PathError { .. })
    ));
}

#[test]
fn degenerate_target_aborts_the_run() {
    let mut optimizer = Optimizer::new(gradient_image(8, 6), b"a/b.png".to_vec());
    optimizer.set_targets(vec![(4, 0)]);
    assert!(matches!(
        optimizer.optimize(),
        Err(OptError::ResizeError {
            dest_width: 4,
            dest_height: 0
        })
    ));
}
