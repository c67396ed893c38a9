use imgopt::errors::OptError;
use imgopt::resample::{resize, ResizeConfig};

fn gradient(width: usize, height: usize) -> Vec<u8> {
    let mut v = Vec::with_capacity(width * height * 3);
    for y in 0..height {
        for x in 0..width {
            v.push((x * 17 % 256) as u8);
            v.push((y * 31 % 256) as u8);
            v.push(((x + y) * 7 % 256) as u8);
        }
    }
    v
}

#[test]
fn identity_resample_preserves_length() {
    let img = gradient(4, 2);
    let config = ResizeConfig {
        src_width: 4,
        src_height: 2,
        dest_width: 4,
        dest_height: 2,
    };
    let out = resize(&img, config).unwrap();
    assert_eq!(out.len(), img.len());
}

#[test]
fn downscale_yields_three_bytes_per_destination_pixel() {
    let img = gradient(4, 4);
    let config = ResizeConfig {
        src_width: 4,
        src_height: 4,
        dest_width: 2,
        dest_height: 2,
    };
    let out = resize(&img, config).unwrap();
    assert_eq!(out.len(), 2 * 2 * 3);
    assert_ne!(out.len(), img.len());
}

#[test]
fn upscale_yields_three_bytes_per_destination_pixel() {
    let img = gradient(2, 2);
    let config = ResizeConfig {
        src_width: 2,
        src_height: 2,
        dest_width: 5,
        dest_height: 3,
    };
    let out = resize(&img, config).unwrap();
    assert_eq!(out.len(), 5 * 3 * 3);
}

#[test]
fn mismatched_buffer_is_rejected() {
    let img = vec![0u8; 10];
    let config = ResizeConfig {
        src_width: 2,
        src_height: 2,
        dest_width: 1,
        dest_height: 1,
    };
    assert_eq!(
        resize(&img, config),
        Err(OptError::ResizeError {
            dest_width: 1,
            dest_height: 1
        })
    );
}

#[test]
fn zero_sized_target_is_rejected() {
    let img = gradient(2, 2);
    let config = ResizeConfig {
        src_width: 2,
        src_height: 2,
        dest_width: 0,
        dest_height: 1,
    };
    assert_eq!(
        resize(&img, config),
        Err(OptError::ResizeError {
            dest_width: 0,
            dest_height: 1
        })
    );
}
