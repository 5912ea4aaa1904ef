//! Aspect-preserving downscale arithmetic.
//!
//! The resize engine shrinks a source image so that its longest edge
//! fits a configured bound, preserving the aspect ratio up to rounding,
//! and never upscales: the bound is a ceiling, not a target.

use vstd::prelude::*;
use vstd::arithmetic::div_mod::lemma_fundamental_div_mod;
use vstd::arithmetic::div_mod::lemma_fundamental_div_mod_converse;
use vstd::arithmetic::mul::lemma_mul_inequality;

verus! {

/// Longest edge a preview artifact may have, in pixels.
pub const MAXIMUM_DIMENSION: u32 = 1024;

/// The longer of the two edges.
pub open spec fn longest_edge(width: int, height: int) -> int {
    if width >= height {
        width
    } else {
        height
    }
}

/// One scaled edge: `dim * bound / longest`, rounded half away from
/// zero.  For non-negative values this equals `(2*dim*bound + longest)`
/// divided (flooring) by `2*longest`.
pub open spec fn scaled_edge(dim: int, longest: int, bound: int) -> int
    recommends
        longest >= 1,
{
    (2 * dim * bound + longest) / (2 * longest)
}

/// The dimensions a preview must have, or `None` when the source
/// already fits the bound and no resize may take place.
pub open spec fn spec_new_dimensions(width: int, height: int, bound: int) -> Option<(int, int)> {
    let longest = longest_edge(width, height);
    if longest <= bound {
        None
    } else {
        Some(
            (scaled_edge(width, longest, bound), scaled_edge(height, longest, bound)),
        )
    }
}

/// A scaled edge never exceeds the bound.
proof fn lemma_scaled_edge_le_bound(dim: int, longest: int, bound: int)
    requires
        0 <= dim <= longest,
        1 <= longest,
        1 <= bound,
    ensures
        0 <= scaled_edge(dim, longest, bound) <= bound,
{
    let x = 2 * dim * bound + longest;
    let d = 2 * longest;
    lemma_fundamental_div_mod(x, d);
    lemma_mul_inequality(dim, longest, 2 * bound);
    assert(2 * dim * bound == dim * (2 * bound)) by (nonlinear_arith);
    assert(2 * longest * bound == longest * (2 * bound)) by (nonlinear_arith);
    if x / d > bound {
        lemma_mul_inequality(bound + 1, x / d, d);
        assert((bound + 1) * d <= (x / d) * d) by (nonlinear_arith)
            requires
                bound + 1 <= x / d,
                d >= 1,
        ;
        assert(d * (x / d) <= x);
        assert((bound + 1) * d == 2 * longest * bound + 2 * longest) by (nonlinear_arith)
            requires
                d == 2 * longest,
        ;
        assert(false);
    }
    assert(x >= 0) by (nonlinear_arith)
        requires
            x == 2 * dim * bound + longest,
            dim >= 0,
            bound >= 1,
            longest >= 1,
    ;
    vstd::arithmetic::div_mod::lemma_div_pos_is_pos(x, d);
}

/// Scaling the longest edge itself lands exactly on the bound.
proof fn lemma_scaled_longest_is_bound(longest: int, bound: int)
    requires
        1 <= longest,
        0 <= bound,
    ensures
        scaled_edge(longest, longest, bound) == bound,
{
    let x = 2 * longest * bound + longest;
    let d = 2 * longest;
    assert(x == bound * d + longest) by (nonlinear_arith)
        requires
            x == 2 * longest * bound + longest,
            d == 2 * longest,
    ;
    lemma_fundamental_div_mod_converse(x, d, bound, longest);
}

/// The rounding error of a scaled edge, against the exact rational
/// `dim * bound / longest`, is at most half a source pixel column:
/// `|dim*bound - longest*scaled| <= longest/2`.
proof fn lemma_scaled_edge_error(dim: int, longest: int, bound: int)
    requires
        0 <= dim,
        1 <= longest,
        0 <= bound,
    ensures
        -longest <= 2 * (dim * bound - longest * scaled_edge(dim, longest, bound)) < longest,
{
    let x = 2 * dim * bound + longest;
    let d = 2 * longest;
    lemma_fundamental_div_mod(x, d);
    let q = x / d;
    let r = x % d;
    assert(x == d * q + r);
    assert(2 * (dim * bound - longest * q) == r - longest) by (nonlinear_arith)
        requires
            x == d * q + r,
            x == 2 * dim * bound + longest,
            d == 2 * longest,
    ;
}

/// Aspect preservation: when a resize takes place, the scaled longest
/// edge equals the bound exactly, neither scaled edge exceeds the
/// bound, and each scaled edge is within half a pixel of the exact
/// rational scale `bound / longest` applied to its source edge.
pub proof fn lemma_aspect_preserved(width: int, height: int, bound: int)
    requires
        1 <= width,
        1 <= height,
        1 <= bound,
        longest_edge(width, height) > bound,
    ensures
        spec_new_dimensions(width, height, bound) matches Some(dims) && {
            let longest = longest_edge(width, height);
            let (new_w, new_h) = dims;
            &&& if width >= height {
                new_w == bound
            } else {
                new_h == bound
            }
            &&& 0 <= new_w <= bound
            &&& 0 <= new_h <= bound
            &&& -longest <= 2 * (width * bound - longest * new_w) < longest
            &&& -longest <= 2 * (height * bound - longest * new_h) < longest
        },
{
    let longest = longest_edge(width, height);
    lemma_scaled_longest_is_bound(longest, bound);
    lemma_scaled_edge_le_bound(width, longest, bound);
    lemma_scaled_edge_le_bound(height, longest, bound);
    lemma_scaled_edge_error(width, longest, bound);
    lemma_scaled_edge_error(height, longest, bound);
}

/// No-op below the bound: a source whose longest edge already fits is
/// never resized.
pub proof fn lemma_no_resize_below_bound(width: int, height: int, bound: int)
    requires
        longest_edge(width, height) <= bound,
    ensures
        spec_new_dimensions(width, height, bound) is None,
{
}

/// Dimensions of the preview derived from a source of the given size,
/// under a longest-edge bound.
pub fn scaled_dimensions(width: u32, height: u32, bound: u32) -> (r: Option<(u32, u32)>)
    requires
        bound >= 1,
    ensures
        r matches Some(dims) ==> spec_new_dimensions(
            width as int,
            height as int,
            bound as int,
        ) == Some((dims.0 as int, dims.1 as int)),
        r is None <==> longest_edge(width as int, height as int) <= bound,
{
    let longest: u32 = if width >= height {
        width
    } else {
        height
    };
    if longest <= bound {
        return None;
    }
    let l: u128 = longest as u128;
    let b: u128 = bound as u128;
    proof {
        assert((width as int) * (bound as int) < 0x10000000000000000) by (nonlinear_arith)
            requires
                (width as int) < 0x100000000,
                (bound as int) < 0x100000000,
        ;
        assert((height as int) * (bound as int) < 0x10000000000000000) by (nonlinear_arith)
            requires
                (height as int) < 0x100000000,
                (bound as int) < 0x100000000,
        ;
    }
    let num_w: u128 = (width as u128) * b;
    let num_h: u128 = (height as u128) * b;
    let new_w128: u128 = (2 * num_w + l) / (2 * l);
    let new_h128: u128 = (2 * num_h + l) / (2 * l);
    proof {
        assert(2 * ((width as int) * (bound as int)) == 2 * (width as int) * (bound as int))
            by (nonlinear_arith);
        assert(2 * ((height as int) * (bound as int)) == 2 * (height as int) * (bound as int))
            by (nonlinear_arith);
        lemma_scaled_edge_le_bound(width as int, longest as int, bound as int);
        lemma_scaled_edge_le_bound(height as int, longest as int, bound as int);
    }
    Some((new_w128 as u32, new_h128 as u32))
}

/// Dimensions for the preview of a source image, or `None` when the
/// source already fits [`MAXIMUM_DIMENSION`] and preview generation is
/// skipped.
pub fn calculate_new_dimensions(width: u32, height: u32) -> (r: Option<(u32, u32)>)
    ensures
        r matches Some(dims) ==> spec_new_dimensions(
            width as int,
            height as int,
            MAXIMUM_DIMENSION as int,
        ) == Some((dims.0 as int, dims.1 as int)),
        r is None <==> longest_edge(width as int, height as int) <= MAXIMUM_DIMENSION,
{
    scaled_dimensions(width, height, MAXIMUM_DIMENSION)
}

/// Dimensions of the preview artifact for a source of the given size:
/// the scaled dimensions when the source exceeds the bound, and the
/// source's own dimensions otherwise.
pub fn calculate_dimensions(src_width: u32, src_height: u32) -> (r: (u32, u32))
    ensures
        match spec_new_dimensions(src_width as int, src_height as int, MAXIMUM_DIMENSION as int) {
            Some(dims) => dims == (r.0 as int, r.1 as int),
            None => r == (src_width, src_height),
        },
{
    match calculate_new_dimensions(src_width, src_height) {
        Some(dims) => dims,
        None => (src_width, src_height),
    }
}

} // verus!
