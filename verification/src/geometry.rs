//! Pixel dimensions and the two pure scaling rules of the viewer: the
//! fit-to-viewport rule applied after every navigation step, and the fixed
//! zoom increment applied on wheel events.

use vstd::arithmetic::div_mod::lemma_div_pos_is_pos;
use vstd::arithmetic::div_mod::lemma_multiply_divide_le;
use vstd::arithmetic::mul::lemma_mul_upper_bound;
use vstd::prelude::*;

verus! {

/// Fixed pixel delta applied to width and height per zoom event.
pub const ZOOM_STEP: u32 = 50;

/// Smallest width or height a display request may ask for. Repeated zoom-in
/// would otherwise drive the target size to zero or below; clamping here is
/// a deliberate hardening, not a behaviour of the scaling rule itself.
pub const MIN_DISPLAY_DIM: u32 = 1;

/// A width/height pair in device-independent pixel units.
#[derive(Clone, Copy, PartialEq, Eq, Structural, Debug)]
pub struct Dims {
    pub width: u32,
    pub height: u32,
}

/// One side of the scaled-down image: `side * avail / other`, floored, and
/// clamped up to `MIN_DISPLAY_DIM` so an extreme aspect ratio cannot round a
/// side down to zero.
pub open spec fn spec_scaled_side(side: int, avail: int, other: int) -> u32
    recommends
        other >= 1,
{
    let q = side * avail / other;
    if q < MIN_DISPLAY_DIM { MIN_DISPLAY_DIM } else { q as u32 }
}

/// The fit-to-viewport rule: an image whose natural size exceeds the bounds
/// in either direction is scaled down to fit, preserving aspect ratio by
/// pinning the relatively larger side to the bounds; an image that already
/// fits is displayed at natural size.
pub open spec fn spec_fit(natural: Dims, bounds: Dims) -> Dims {
    if natural.width <= bounds.width && natural.height <= bounds.height {
        natural
    } else if natural.width * bounds.height >= natural.height * bounds.width {
        (Dims {
            width: bounds.width,
            height: spec_scaled_side(
                natural.height as int,
                bounds.width as int,
                natural.width as int,
            ),
        })
    } else {
        (Dims {
            width: spec_scaled_side(
                natural.width as int,
                bounds.height as int,
                natural.height as int,
            ),
            height: bounds.height,
        })
    }
}

/// One side after a zoom-in step: reduced by `ZOOM_STEP`, clamped to the
/// positive floor.
pub open spec fn spec_shrunk_side(side: u32) -> u32 {
    if side >= ZOOM_STEP + MIN_DISPLAY_DIM {
        (side - ZOOM_STEP) as u32
    } else {
        MIN_DISPLAY_DIM
    }
}

/// One side after a zoom-out step: increased by `ZOOM_STEP`, saturating at
/// the machine limit.
pub open spec fn spec_grown_side(side: u32) -> u32 {
    if side + ZOOM_STEP <= u32::MAX {
        (side + ZOOM_STEP) as u32
    } else {
        u32::MAX
    }
}

/// Target dimensions requested by one zoom-in event on an image currently
/// displayed at `current`.
pub open spec fn spec_zoom_in(current: Dims) -> Dims {
    (Dims { width: spec_shrunk_side(current.width), height: spec_shrunk_side(current.height) })
}

/// Target dimensions requested by one zoom-out event.
pub open spec fn spec_zoom_out(current: Dims) -> Dims {
    (Dims { width: spec_grown_side(current.width), height: spec_grown_side(current.height) })
}

/// Computes the fit-to-viewport rule for an image of natural size `natural`
/// against a viewport of size `bounds`.
pub fn fit_to_viewport(natural: Dims, bounds: Dims) -> (fitted: Dims)
    requires
        natural.width >= 1,
        natural.height >= 1,
        bounds.width >= 1,
        bounds.height >= 1,
    ensures
        fitted == spec_fit(natural, bounds),
{
    if natural.width <= bounds.width && natural.height <= bounds.height {
        natural
    } else {
        proof {
            lemma_mul_upper_bound(
                natural.width as int,
                u32::MAX as int,
                bounds.height as int,
                u32::MAX as int,
            );
            lemma_mul_upper_bound(
                natural.height as int,
                u32::MAX as int,
                bounds.width as int,
                u32::MAX as int,
            );
        }
        let wh: u64 = (natural.width as u64) * (bounds.height as u64);
        let hw: u64 = (natural.height as u64) * (bounds.width as u64);
        if wh >= hw {
            let q: u64 = hw / (natural.width as u64);
            proof {
                lemma_div_pos_is_pos(hw as int, natural.width as int);
                lemma_multiply_divide_le(hw as int, natural.width as int, bounds.height as int);
            }
            let height: u32 = if q < (MIN_DISPLAY_DIM as u64) {
                MIN_DISPLAY_DIM
            } else {
                q as u32
            };
            Dims { width: bounds.width, height }
        } else {
            let q: u64 = wh / (natural.height as u64);
            proof {
                lemma_div_pos_is_pos(wh as int, natural.height as int);
                lemma_multiply_divide_le(wh as int, natural.height as int, bounds.width as int);
            }
            let width: u32 = if q < (MIN_DISPLAY_DIM as u64) {
                MIN_DISPLAY_DIM
            } else {
                q as u32
            };
            Dims { width, height: bounds.height }
        }
    }
}

/// Computes the requested dimensions for one zoom-in event.
pub fn zoom_in_target(current: Dims) -> (target: Dims)
    ensures
        target == spec_zoom_in(current),
{
    let width: u32 = if current.width >= ZOOM_STEP + MIN_DISPLAY_DIM {
        current.width - ZOOM_STEP
    } else {
        MIN_DISPLAY_DIM
    };
    let height: u32 = if current.height >= ZOOM_STEP + MIN_DISPLAY_DIM {
        current.height - ZOOM_STEP
    } else {
        MIN_DISPLAY_DIM
    };
    Dims { width, height }
}

/// Computes the requested dimensions for one zoom-out event.
pub fn zoom_out_target(current: Dims) -> (target: Dims)
    ensures
        target == spec_zoom_out(current),
{
    let width: u32 = if current.width <= u32::MAX - ZOOM_STEP {
        current.width + ZOOM_STEP
    } else {
        u32::MAX
    };
    let height: u32 = if current.height <= u32::MAX - ZOOM_STEP {
        current.height + ZOOM_STEP
    } else {
        u32::MAX
    };
    Dims { width, height }
}

/// Law: the fit rule never overshoots. The fitted size lies within the
/// viewport bounds on both axes, and both sides stay at or above the
/// positive floor.
pub proof fn lemma_fit_within_bounds(natural: Dims, bounds: Dims)
    requires
        natural.width >= 1,
        natural.height >= 1,
        bounds.width >= 1,
        bounds.height >= 1,
    ensures
        MIN_DISPLAY_DIM <= spec_fit(natural, bounds).width <= bounds.width,
        MIN_DISPLAY_DIM <= spec_fit(natural, bounds).height <= bounds.height,
{
    if natural.width <= bounds.width && natural.height <= bounds.height {
    } else if natural.width * bounds.height >= natural.height * bounds.width {
        lemma_multiply_divide_le(
            natural.height * bounds.width,
            natural.width as int,
            bounds.height as int,
        );
    } else {
        lemma_multiply_divide_le(
            natural.width * bounds.height,
            natural.height as int,
            bounds.width as int,
        );
    }
}

/// Law: the fit rule is idempotent. Dimensions that already came out of the
/// rule are left unchanged by a second application against the same bounds,
/// so the displayed size is a pure function of natural size and bounds.
pub proof fn lemma_fit_idempotent(natural: Dims, bounds: Dims)
    requires
        natural.width >= 1,
        natural.height >= 1,
        bounds.width >= 1,
        bounds.height >= 1,
    ensures
        spec_fit(spec_fit(natural, bounds), bounds) == spec_fit(natural, bounds),
{
    lemma_fit_within_bounds(natural, bounds);
}

/// Law: both zoom rules keep the requested size at or above the positive
/// floor, so repeated zooming can never request a degenerate size.
pub proof fn lemma_zoom_targets_clamped(current: Dims)
    ensures
        spec_zoom_in(current).width >= MIN_DISPLAY_DIM,
        spec_zoom_in(current).height >= MIN_DISPLAY_DIM,
        spec_zoom_out(current).width >= MIN_DISPLAY_DIM,
        spec_zoom_out(current).height >= MIN_DISPLAY_DIM,
{
}

} // verus!
