//! The point evaluator: escape-time iteration counts for single points of the
//! complex plane.
//!
//! A candidate point `c = (cx, cy)` is iterated under `z <- z^2 + c` starting
//! from `z = 0`. The count returned is the number of iterations performed
//! before the squared modulus of the iterate exceeded 4.0 (counting the
//! iteration that produced the escaping value), or the cap `max_iter` if no
//! iterate escaped within the cap. All coordinates are binary64 bit patterns.

use vstd::prelude::*;
use crate::ieee64::{POS_ZERO, TWO, FOUR};
use crate::ieee64::{add_bits, sub_bits, mul_bits, is_gt};
use crate::ieee64::{bits_add, bits_sub, bits_mul, gt};

verus! {

/// Real part of one application of the recurrence: `x*x - y*y + cx`.
pub open spec fn step_x(x: u64, y: u64, cx: u64) -> u64 {
    add_bits(sub_bits(mul_bits(x, x), mul_bits(y, y)), cx)
}

/// Imaginary part of one application of the recurrence: `2.0*x*y + cy`.
pub open spec fn step_y(x: u64, y: u64, cy: u64) -> u64 {
    add_bits(mul_bits(mul_bits(TWO, x), y), cy)
}

/// The escape test on an iterate: its squared modulus `x*x + y*y` exceeds
/// 4.0. False whenever the squared modulus is NaN, so a NaN-contaminated
/// orbit never escapes.
pub open spec fn escaped(x: u64, y: u64) -> bool {
    is_gt(add_bits(mul_bits(x, x), mul_bits(y, y)), FOUR)
}

/// Iterations consumed by the recurrence started at iterate `(x, y)` with
/// `fuel` iterations left: the index (counted from 1) of the first escaping
/// iterate produced, or `fuel` if none escapes within the budget.
pub open spec fn count_from(x: u64, y: u64, cx: u64, cy: u64, fuel: nat) -> nat
    decreases fuel,
{
    if fuel == 0 {
        0
    } else {
        let xn = step_x(x, y, cx);
        let yn = step_y(x, y, cy);
        if escaped(xn, yn) {
            1
        } else {
            1 + count_from(xn, yn, cx, cy, (fuel - 1) as nat)
        }
    }
}

/// The escape-time count of the point `(cx, cy)` under the cap `max_iter`:
/// the recurrence starts from `z = 0`.
pub open spec fn evaluate_spec(cx: u64, cy: u64, max_iter: nat) -> nat {
    count_from(POS_ZERO, POS_ZERO, cx, cy, max_iter)
}

/// The count never exceeds the iteration budget.
proof fn lemma_count_le_fuel(x: u64, y: u64, cx: u64, cy: u64, fuel: nat)
    ensures
        count_from(x, y, cx, cy, fuel) <= fuel,
    decreases fuel,
{
    if fuel > 0 {
        let xn = step_x(x, y, cx);
        let yn = step_y(x, y, cy);
        if !escaped(xn, yn) {
            lemma_count_le_fuel(xn, yn, cx, cy, (fuel - 1) as nat);
        }
    }
}

/// The count under a smaller budget is the count under a larger budget,
/// capped at the smaller budget: the orbit is the same, so the first escape
/// is found at the same index wherever the budget reaches it.
proof fn lemma_count_from_caps(x: u64, y: u64, cx: u64, cy: u64, f1: nat, f2: nat)
    requires
        f1 <= f2,
    ensures
        count_from(x, y, cx, cy, f1) == (if count_from(x, y, cx, cy, f2) <= f1 {
            count_from(x, y, cx, cy, f2)
        } else {
            f1
        }),
    decreases f1,
{
    if f1 > 0 {
        let xn = step_x(x, y, cx);
        let yn = step_y(x, y, cy);
        if !escaped(xn, yn) {
            lemma_count_from_caps(xn, yn, cx, cy, (f1 - 1) as nat, (f2 - 1) as nat);
        }
    } else {
        lemma_count_le_fuel(x, y, cx, cy, f2);
    }
}

/// Changing the iteration cap only clips the count: under a smaller cap the
/// count is the larger-cap count where that count is within the smaller cap
/// (in particular, raising the cap past the escape step leaves the count
/// unchanged), and the smaller cap itself otherwise.
pub proof fn lemma_cap_monotone(cx: u64, cy: u64, m1: nat, m2: nat)
    requires
        m1 <= m2,
    ensures
        evaluate_spec(cx, cy, m1) == (if evaluate_spec(cx, cy, m2) <= m1 {
            evaluate_spec(cx, cy, m2)
        } else {
            m1
        }),
{
    lemma_count_from_caps(POS_ZERO, POS_ZERO, cx, cy, m1, m2);
}

/// Escape-time count of the point `(cx, cy)`, both binary64 bit patterns,
/// under the iteration cap `max_iter`.
///
/// The count is at most `max_iter`; a cap of zero performs no iterations and
/// returns zero; and the origin, a known member of the Mandelbrot set, never
/// escapes, so it always reaches the cap.
pub fn evaluate(cx: u64, cy: u64, max_iter: u32) -> (count: u32)
    ensures
        count as nat == evaluate_spec(cx, cy, max_iter as nat),
        count <= max_iter,
        max_iter == 0 ==> count == 0,
        cx == POS_ZERO && cy == POS_ZERO ==> count == max_iter,
{
    let mut x: u64 = POS_ZERO;
    let mut y: u64 = POS_ZERO;
    let mut i: u32 = 0;
    while i < max_iter
        invariant
            i <= max_iter,
            count_from(x, y, cx, cy, (max_iter - i) as nat) + i as nat == evaluate_spec(
                cx,
                cy,
                max_iter as nat,
            ),
            cx == POS_ZERO && cy == POS_ZERO ==> x == POS_ZERO && y == POS_ZERO,
        decreases max_iter - i,
    {
        let xx: u64 = bits_mul(x, x);
        let yy: u64 = bits_mul(y, y);
        let xn: u64 = bits_add(bits_sub(xx, yy), cx);
        let yn: u64 = bits_add(bits_mul(bits_mul(TWO, x), y), cy);
        let xn2: u64 = bits_mul(xn, xn);
        let yn2: u64 = bits_mul(yn, yn);
        let mag: u64 = bits_add(xn2, yn2);
        if gt(mag, FOUR) {
            return i + 1;
        }
        x = xn;
        y = yn;
        i = i + 1;
    }
    max_iter
}

} // verus!
