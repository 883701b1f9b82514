//! Scalar geometry: rational scale factors, the fit-to-target computation,
//! and scaled lengths.
//!
//! All scale factors in this crate are uniform and non-negative; they are
//! kept exact as numerator/denominator pairs so that the size a view
//! reserves in the host's layout can be pinned down precisely.

use vstd::arithmetic::div_mod::{lemma_div_is_ordered, lemma_div_multiples_vanish};
use vstd::arithmetic::mul::{lemma_mul_is_commutative, lemma_mul_upper_bound};
use vstd::prelude::*;

verus! {

/// A non-negative uniform scale factor, kept exact as `num / den`.
#[derive(Clone, Copy, Debug, PartialEq, Eq, Structural)]
pub struct Scale {
    pub num: u32,
    pub den: u32,
}

/// The product of two 32-bit values fits in 64 bits.
proof fn lemma_u32_mul_fits_u64(a: u32, b: u32)
    ensures
        a * b <= u64::MAX,
{
    lemma_mul_upper_bound(a as int, u32::MAX as int, b as int, u32::MAX as int);
}

impl Scale {
    /// A scale is meaningful only with a non-zero denominator.
    pub open spec fn wf(self) -> bool {
        self.den > 0
    }

    /// The scale that leaves lengths unchanged.
    pub open spec fn spec_is_identity(self) -> bool {
        self.num == self.den
    }

    pub fn is_identity(&self) -> (r: bool)
        ensures
            r == self.spec_is_identity(),
    {
        self.num == self.den
    }

    /// `self <= other` as rationals, decided by cross-multiplication.
    pub open spec fn spec_le(self, other: Scale) -> bool {
        self.num * other.den <= other.num * self.den
    }

    pub fn le(&self, other: &Scale) -> (r: bool)
        ensures
            r == self.spec_le(*other),
    {
        proof {
            lemma_u32_mul_fits_u64(self.num, other.den);
            lemma_u32_mul_fits_u64(other.num, self.den);
        }
        (self.num as u64) * (other.den as u64) <= (other.num as u64) * (self.den as u64)
    }
}

/// The smaller of two scale factors; the left one is kept on a tie.
pub open spec fn spec_scale_min(a: Scale, b: Scale) -> Scale {
    if a.spec_le(b) {
        a
    } else {
        b
    }
}

pub fn scale_min(a: Scale, b: Scale) -> (r: Scale)
    ensures
        r == spec_scale_min(a, b),
{
    if a.le(&b) {
        a
    } else {
        b
    }
}

/// Width and height of a bounding box, or of a target area to fit into.
#[derive(Clone, Copy, Debug, PartialEq, Eq, Structural)]
pub struct BoundingBox {
    pub width: u32,
    pub height: u32,
}

/// The uniform scale that fits a `bw` x `bh` box into a `tw` x `th` target:
/// the smaller of the two per-axis ratios, so the result never overflows the
/// target (one axis may be under-filled).
pub open spec fn spec_fit_scale(bw: u32, bh: u32, tw: u32, th: u32) -> Scale {
    spec_scale_min(Scale { num: tw, den: bw }, Scale { num: th, den: bh })
}

pub fn fit_scale(bbox: BoundingBox, target: (u32, u32)) -> (r: Scale)
    requires
        bbox.width > 0,
        bbox.height > 0,
    ensures
        r == spec_fit_scale(bbox.width, bbox.height, target.0, target.1),
        r.wf(),
{
    scale_min(
        Scale { num: target.0, den: bbox.width },
        Scale { num: target.1, den: bbox.height },
    )
}

/// A length under a scale factor: `len * num / den`, rounded down.
pub open spec fn spec_scaled_len(len: u32, s: Scale) -> int
    recommends
        s.wf(),
{
    (len * s.num) as int / s.den as int
}

pub fn scaled_len(len: u32, s: Scale) -> (r: u64)
    requires
        s.wf(),
    ensures
        r == spec_scaled_len(len, s),
{
    proof {
        lemma_u32_mul_fits_u64(len, s.num);
    }
    (len as u64) * (s.num as u64) / (s.den as u64)
}

/// Scaling by the fit scale never overflows the target on either axis and
/// lands exactly on it on at least one axis.
pub proof fn lemma_fit_scale_bounds(bw: u32, bh: u32, tw: u32, th: u32)
    requires
        bw > 0,
        bh > 0,
    ensures
        ({
            let s = spec_fit_scale(bw, bh, tw, th);
            &&& spec_scaled_len(bw, s) <= tw
            &&& spec_scaled_len(bh, s) <= th
            &&& (spec_scaled_len(bw, s) == tw || spec_scaled_len(bh, s) == th)
        }),
{
    let s = spec_fit_scale(bw, bh, tw, th);
    if tw * bh <= th * bw {
        assert(s == Scale { num: tw, den: bw });
        lemma_mul_is_commutative(bw as int, tw as int);
        lemma_div_multiples_vanish(tw as int, bw as int);
        assert(spec_scaled_len(bw, s) == tw);
        lemma_mul_is_commutative(bh as int, tw as int);
        lemma_mul_is_commutative(th as int, bw as int);
        lemma_div_is_ordered(bh as int * tw as int, th as int * bw as int, bw as int);
        lemma_div_multiples_vanish(th as int, bw as int);
        assert(spec_scaled_len(bh, s) <= th);
    } else {
        assert(s == Scale { num: th, den: bh });
        lemma_mul_is_commutative(bh as int, th as int);
        lemma_div_multiples_vanish(th as int, bh as int);
        assert(spec_scaled_len(bh, s) == th);
        lemma_mul_is_commutative(bw as int, th as int);
        lemma_mul_is_commutative(tw as int, bh as int);
        lemma_div_is_ordered(bw as int * th as int, tw as int * bh as int, bh as int);
        lemma_div_multiples_vanish(tw as int, bh as int);
        assert(spec_scaled_len(bw, s) <= tw);
    }
}

} // verus!
