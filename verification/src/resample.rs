//! Pixel resampling: a verified shell around a Lanczos-windowed resizer.

use vstd::prelude::*;
use crate::errors::OptError;

verus! {

/// The dimension pair a resampling run translates between.  Buffers are
/// 8-bit RGB, row-major, three bytes per pixel.
#[derive(Clone, Copy, Debug)]
pub struct ResizeConfig {
    pub src_height: usize,
    pub src_width: usize,
    pub dest_height: usize,
    pub dest_width: usize,
}

/// The bytes the 3-lobe Lanczos resampler produces for a given source
/// buffer and dimension pair.  The outside resampler computes them from
/// its arguments alone, so they can be named without being restated.
pub uninterp spec fn lanczos3_of(
    img: Seq<u8>,
    src_width: int,
    src_height: int,
    dest_width: int,
    dest_height: int,
) -> Seq<u8>;

/// The error a failed resampling run reports: a `ResizeError` carrying
/// the offending destination dimensions.
pub open spec fn resize_err(config: ResizeConfig) -> OptError {
    OptError::ResizeError { dest_width: config.dest_width, dest_height: config.dest_height }
}

/// What the resampler demands of a request before it is handed on: both
/// dimension pairs non-degenerate, a source buffer of exactly three bytes
/// per pixel, and an output size the address space can hold.
pub open spec fn resize_accepts(len: int, config: ResizeConfig) -> bool {
    &&& config.src_width > 0
    &&& config.src_height > 0
    &&& config.dest_width > 0
    &&& config.dest_height > 0
    &&& len == config.src_width * config.src_height * 3
    &&& config.dest_width * config.dest_height * 3 <= usize::MAX
}

/// Relies on `resize::new` and `resize::Resizer::resize` (crate `resize`,
/// Lanczos3 filter, RGB8 format): with non-zero dimensions, a source slice
/// of exactly `src_width * src_height` pixels and a destination of exactly
/// `dest_pixels = dest_width * dest_height` pixels, the resizer fills the
/// whole destination, failing only when allocation fails; the output is a
/// function of the arguments alone.
#[verifier::external_body]
fn lanczos3_resample(
    img: &Vec<u8>,
    src_width: usize,
    src_height: usize,
    dest_width: usize,
    dest_height: usize,
    dest_pixels: usize,
) -> (r: Option<Vec<u8>>)
    requires
        src_width > 0,
        src_height > 0,
        dest_width > 0,
        dest_height > 0,
        img@.len() == src_width * src_height * 3,
        dest_pixels == dest_width * dest_height,
        dest_pixels * 3 <= usize::MAX,
    ensures
        r is Some ==> r.unwrap()@ == lanczos3_of(
            img@,
            src_width as int,
            src_height as int,
            dest_width as int,
            dest_height as int,
        ),
        r is Some ==> r.unwrap()@.len() == dest_pixels * 3,
{
    let mut dst: Vec<rgb::RGB<u8>> = Vec::new();
    dst.resize(dest_pixels, rgb::RGB { r: 0, g: 0, b: 0 });
    match resize::new(src_width, src_height, dest_width, dest_height, resize::Pixel::RGB8, resize::Type::Lanczos3) {
        Ok(mut resizer) => match resizer.resize(rgb::FromSlice::as_rgb(img.as_slice()), &mut dst) {
            Ok(()) => Some(rgb::ComponentBytes::as_bytes(dst.as_slice()).to_vec()),
            Err(_) => None,
        },
        Err(_) => None,
    }
}

/// Stretches or shrinks a raw RGB buffer from the source dimensions to the
/// destination dimensions of `config` with a high-quality (Lanczos, 3-lobe)
/// filter.
///
/// Requests whose buffer does not hold exactly three bytes per source
/// pixel, or whose dimension pair is degenerate or too large to address,
/// are rejected with `ResizeError`; so is a resampler allocation failure.
/// A successful result holds exactly three bytes per destination pixel, so
/// resampling to the source's own dimensions preserves the byte length.
pub fn resize(img: &Vec<u8>, config: ResizeConfig) -> (r: Result<Vec<u8>, OptError>)
    ensures
        !resize_accepts(img@.len() as int, config) ==> r == Err::<Vec<u8>, OptError>(
            resize_err(config),
        ),
        r is Err ==> r == Err::<Vec<u8>, OptError>(resize_err(config)),
        r is Ok ==> resize_accepts(img@.len() as int, config),
        r is Ok ==> r.unwrap()@ == lanczos3_of(
            img@,
            config.src_width as int,
            config.src_height as int,
            config.dest_width as int,
            config.dest_height as int,
        ),
        r is Ok ==> r.unwrap()@.len() == config.dest_width * config.dest_height * 3,
        r is Ok && config.dest_width == config.src_width && config.dest_height
            == config.src_height ==> r.unwrap()@.len() == img@.len(),
{
    if config.src_width == 0 || config.src_height == 0 || config.dest_width == 0
        || config.dest_height == 0 {
        return Err(OptError::ResizeError { dest_width: config.dest_width, dest_height: config.dest_height });
    }
    let src_pixels = match config.src_width.checked_mul(config.src_height) {
        Some(p) => p,
        None => {
            return Err(OptError::ResizeError { dest_width: config.dest_width, dest_height: config.dest_height });
        },
    };
    let src_bytes = match src_pixels.checked_mul(3) {
        Some(b) => b,
        None => {
            return Err(OptError::ResizeError { dest_width: config.dest_width, dest_height: config.dest_height });
        },
    };
    if img.len() != src_bytes {
        return Err(OptError::ResizeError { dest_width: config.dest_width, dest_height: config.dest_height });
    }
    let dest_pixels = match config.dest_width.checked_mul(config.dest_height) {
        Some(p) => p,
        None => {
            return Err(OptError::ResizeError { dest_width: config.dest_width, dest_height: config.dest_height });
        },
    };
    if dest_pixels.checked_mul(3).is_none() {
        return Err(OptError::ResizeError { dest_width: config.dest_width, dest_height: config.dest_height });
    }
    match lanczos3_resample(
        img,
        config.src_width,
        config.src_height,
        config.dest_width,
        config.dest_height,
        dest_pixels,
    ) {
        Some(out) => Ok(out),
        None => Err(OptError::ResizeError { dest_width: config.dest_width, dest_height: config.dest_height }),
    }
}

} // verus!
