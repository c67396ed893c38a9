//! Aspect-ratio-preserving height computation.

use vstd::prelude::*;
use vstd::arithmetic::div_mod::{
    lemma_div_denominator, lemma_div_multiples_vanish, lemma_fundamental_div_mod,
};
use crate::errors::OptError;

verus! {

/// The height the pipeline pairs with `target_width`: the source width is
/// first reduced to a whole scaling factor by truncating division, and the
/// source height is then divided by that factor.  The ratio is exact only
/// when `target_width` evenly divides `source_width`; otherwise the result
/// is coarser than the true proportional height.  The rest of the
/// pipeline relies on this truncating policy.
pub open spec fn height_for_width(source_width: int, source_height: int, target_width: int) -> int
    recommends
        0 < target_width <= source_width,
{
    source_height / (source_width / target_width)
}

/// Computes the output height for one requested width, preserving the
/// aspect ratio under the truncating policy of [`height_for_width`].
///
/// A width of zero, or one larger than the source width, would make the
/// scaling factor degenerate; such targets are rejected with
/// `InvalidTarget` instead of dividing by zero.
pub fn compute_height_preserving_aspect_ratio(
    img_dimensions: (usize, usize),
    target_width: usize,
) -> (r: Result<usize, OptError>)
    ensures
        0 < target_width <= img_dimensions.0 ==> r == Ok::<usize, OptError>(
            height_for_width(
                img_dimensions.0 as int,
                img_dimensions.1 as int,
                target_width as int,
            ) as usize,
        ),
        !(0 < target_width <= img_dimensions.0) ==> r == Err::<usize, OptError>(
            OptError::InvalidTarget { target_width },
        ),
{
    let (w, h) = img_dimensions;
    if target_width == 0 || target_width > w {
        return Err(OptError::InvalidTarget { target_width });
    }
    let factor = w / target_width;
    assert(factor >= 1) by {
        assert(w / target_width >= 1) by (nonlinear_arith)
            requires
                0 < target_width <= w,
        ;
    };
    Ok(h / factor)
}

/// When the target width evenly divides the source width, the truncating
/// policy loses nothing: the computed height equals the exact proportional
/// height `source_height * target_width / source_width`.
pub proof fn lemma_height_exact_when_divides(
    source_width: int,
    source_height: int,
    target_width: int,
)
    requires
        0 < target_width <= source_width,
        source_width % target_width == 0,
        0 <= source_height,
    ensures
        height_for_width(source_width, source_height, target_width)
            == source_height * target_width / source_width,
{
    let k = source_width / target_width;
    lemma_fundamental_div_mod(source_width, target_width);
    assert(source_width == target_width * k);
    assert(k >= 1) by (nonlinear_arith)
        requires
            0 < target_width <= source_width,
            source_width == target_width * k,
    ;
    assert(0 <= source_height * target_width) by (nonlinear_arith)
        requires
            0 <= source_height,
            0 < target_width,
    ;
    lemma_div_denominator(source_height * target_width, target_width, k);
    lemma_div_multiples_vanish(source_height, target_width);
    assert((source_height * target_width) / target_width == source_height);
    assert((source_height * target_width) / (target_width * k) == source_height / k);
}

} // verus!
