use vstd::prelude::*;

verus! {

/// An exact fraction `numerator / denominator`, with a positive denominator.
#[derive(Clone, Copy, PartialEq, Eq, Structural, Debug)]
pub struct Fraction {
    /// The numerator.
    pub numerator: i128,
    /// The denominator, always positive.
    pub denominator: u64,
}

pub open spec fn min_int(a: int, b: int) -> int {
    if a <= b {
        a
    } else {
        b
    }
}

pub open spec fn max_int(a: int, b: int) -> int {
    if a <= b {
        b
    } else {
        a
    }
}

pub open spec fn clamp_int(x: int, lo: int, hi: int) -> int {
    if x < lo {
        lo
    } else if x > hi {
        hi
    } else {
        x
    }
}

/// The denominator of a mapped value: the width of the input range.
pub open spec fn mapped_denominator(input_min: int, input_max: int) -> int {
    if input_max >= input_min {
        input_max - input_min
    } else {
        input_min - input_max
    }
}

/// The numerator, over `mapped_denominator`, of
/// `target_min + (value - input_min) * (target_max - target_min) / (input_max - input_min)`
/// clamped to the target range.
pub open spec fn mapped_numerator(
    value: int,
    input_min: int,
    input_max: int,
    target_min: int,
    target_max: int,
) -> int {
    let den = mapped_denominator(input_min, input_max);
    let step = (value - input_min) * (target_max - target_min);
    let raw = if input_max >= input_min {
        target_min * den + step
    } else {
        target_min * den - step
    };
    clamp_int(raw, min_int(target_min, target_max) * den, max_int(target_min, target_max) * den)
}

/// A mapped value lies in the target range.
pub proof fn lemma_mapped_in_target(
    value: int,
    input_min: int,
    input_max: int,
    target_min: int,
    target_max: int,
)
    requires
        input_min != input_max,
    ensures
        min_int(target_min, target_max) * mapped_denominator(input_min, input_max)
            <= mapped_numerator(value, input_min, input_max, target_min, target_max)
            <= max_int(target_min, target_max) * mapped_denominator(input_min, input_max),
{
    let den = mapped_denominator(input_min, input_max);
    assert(min_int(target_min, target_max) * den <= max_int(target_min, target_max) * den)
        by (nonlinear_arith)
        requires
            min_int(target_min, target_max) <= max_int(target_min, target_max),
            den > 0,
    ;
}

pub(crate) proof fn lemma_mul_bound(a: int, b: int, x: int, y: int)
    requires
        -x <= a <= x,
        -y <= b <= y,
    ensures
        -(x * y) <= a * b <= x * y,
{
    assert(-(x * y) <= a * b <= x * y) by (nonlinear_arith)
        requires
            -x <= a <= x,
            -y <= b <= y,
    ;
}

/// Maps `value` linearly from the input range onto the target range, clamped
/// to the target range, as an exact fraction.
pub fn map_values(
    value: u32,
    input_min: u32,
    input_max: u32,
    target_min: u32,
    target_max: u32,
) -> (r: Fraction)
    requires
        input_min != input_max,
    ensures
        r.denominator == mapped_denominator(input_min as int, input_max as int),
        r.numerator == mapped_numerator(
            value as int,
            input_min as int,
            input_max as int,
            target_min as int,
            target_max as int,
        ),
        r.denominator > 0,
{
    let den: u64 = if input_max >= input_min {
        (input_max - input_min) as u64
    } else {
        (input_min - input_max) as u64
    };
    let offset: i128 = value as i128 - input_min as i128;
    let slope: i128 = target_max as i128 - target_min as i128;
    proof {
        lemma_mul_bound(offset as int, slope as int, 0x1_0000_0000, 0x1_0000_0000);
        lemma_mul_bound(target_min as int, den as int, 0x1_0000_0000, 0x1_0000_0000);
        lemma_mul_bound(target_max as int, den as int, 0x1_0000_0000, 0x1_0000_0000);
    }
    let step: i128 = offset * slope;
    let base: i128 = target_min as i128 * den as i128;
    let raw: i128 = if input_max >= input_min {
        base + step
    } else {
        base - step
    };
    let (lo_target, hi_target) = if target_min <= target_max {
        (target_min, target_max)
    } else {
        (target_max, target_min)
    };
    let lo: i128 = lo_target as i128 * den as i128;
    let hi: i128 = hi_target as i128 * den as i128;
    let numerator: i128 = if raw < lo {
        lo
    } else if raw > hi {
        hi
    } else {
        raw
    };
    Fraction { numerator, denominator: den }
}

} // verus!
