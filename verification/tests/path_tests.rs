use imgopt::compress::{Compressor, Encoder};
use imgopt::errors::{OptError, PathErrorKind};
use imgopt::paths::save_path;

fn webp_at(quality: u8) -> Option<Compressor> {
    let mut c = Compressor::new(quality);
    c.set_encoder(Encoder::WebP);
    Some(c)
}

#[test]
fn path_namer_is_deterministic() {
    let base = b"img/photo.png".to_vec();
    let comp = Some(Compressor::new(80));
    let first = save_path(&base, 400, &comp);
    let second = save_path(&base, 400, &comp);
    assert_eq!(first, second);
}

#[test]
fn raw_save_keeps_extension_and_has_no_quality_suffix() {
    let base = b"img/photo.png".to_vec();
    let r = save_path(&base, 400, &None);
    assert_eq!(r, Ok(b"img/optimized/photo_400.png".to_vec()));
}

#[test]
fn webp_encoder_forces_webp_extension() {
    let base = b"img/photo.png".to_vec();
    let r = save_path(&base, 400, &webp_at(80));
    assert_eq!(r, Ok(b"img/optimized/photo_400_80.webp".to_vec()));
}

#[test]
fn baseline_encoder_keeps_source_extension() {
    let base = b"img/photo.png".to_vec();
    let r = save_path(&base, 400, &Some(Compressor::new(80)));
    assert_eq!(r, Ok(b"img/optimized/photo_400_80.png".to_vec()));
}

#[test]
fn bare_file_name_lands_in_optimized_subdirectory() {
    let base = b"photo.png".to_vec();
    let r = save_path(&base, 200, &None);
    assert_eq!(r, Ok(b"optimized/photo_200.png".to_vec()));
}

#[test]
fn nested_directories_are_kept() {
    let base = b"a/b/c/photo.tar.png".to_vec();
    let r = save_path(&base, 32, &Some(Compressor::new(5)));
    assert_eq!(r, Ok(b"a/b/c/optimized/photo.tar_32_5.png".to_vec()));
}

#[test]
fn missing_extension_fails_when_one_is_needed() {
    let base = b"dir/photo".to_vec();
    assert_eq!(
        save_path(&base, 100, &None),
        Err(OptError::PathError {
            kind: PathErrorKind::MissingExtension
        })
    );
    assert_eq!(
        save_path(&base, 100, &Some(Compressor::new(80))),
        Err(OptError::PathError {
            kind: PathErrorKind::MissingExtension
        })
    );
}

#[test]
fn webp_needs_no_source_extension() {
    let base = b"dir/photo".to_vec();
    let r = save_path(&base, 100, &webp_at(50));
    assert_eq!(r, Ok(b"dir/optimized/photo_100_50.webp".to_vec()));
}

#[test]
fn hidden_file_has_no_extension() {
    let base = b"dir/.hidden".to_vec();
    assert_eq!(
        save_path(&base, 10, &None),
        Err(OptError::PathError {
            kind: PathErrorKind::MissingExtension
        })
    );
}

#[test]
fn empty_path_has_no_parent() {
    let base: Vec<u8> = Vec::new();
    assert_eq!(
        save_path(&base, 10, &None),
        Err(OptError::PathError {
            kind: PathErrorKind::MissingParent
        })
    );
}

#[test]
fn trailing_separator_has_no_stem() {
    let base = b"dir/".to_vec();
    assert_eq!(
        save_path(&base, 10, &None),
        Err(OptError::PathError {
            kind: PathErrorKind::MissingStem
        })
    );
}

#[test]
fn quality_is_rendered_in_decimal() {
    let base = b"d/p.jpg".to_vec();
    let r = save_path(&base, 1024, &Some(Compressor::new(100)));
    assert_eq!(r, Ok(b"d/optimized/p_1024_100.jpg".to_vec()));
}
