//! Fixed-point units and arithmetic that stops at the ends of `i64`.

use vstd::prelude::*;

verus! {

/// One world unit, in the millionths in which positions and sizes are stored.
pub const UNIT: i64 = 1_000_000;

/// One unit per second, as a velocity: millionths of a unit per millisecond.
pub const UNIT_PER_SECOND: i64 = 1_000;

/// The `i64` nearest to `v`.
pub open spec fn sat(v: int) -> i64 {
    if v < i64::MIN {
        i64::MIN
    } else if v > i64::MAX {
        i64::MAX
    } else {
        v as i64
    }
}

/// Where a coordinate `position` stands after `dt` milliseconds at `velocity`.
pub open spec fn displaced(position: i64, velocity: i64, dt: int) -> i64 {
    sat(position + velocity * dt)
}

/// The product of a 64-bit velocity and a 32-bit time stays far inside `i128`.
pub proof fn lemma_product_fits(velocity: i64, dt: u32)
    ensures
        -0x8000_0000_0000_0000_0000_0000 <= velocity * dt <= 0x8000_0000_0000_0000_0000_0000,
{
    assert(-0x8000_0000_0000_0000_0000_0000 <= velocity * dt <= 0x8000_0000_0000_0000_0000_0000)
        by (nonlinear_arith)
        requires
            -0x8000_0000_0000_0000 <= velocity <= 0x8000_0000_0000_0000,
            0 <= dt <= 0x1_0000_0000,
    ;
}

/// Brings `v` into the range of `i64`.
pub fn saturate(v: i128) -> (r: i64)
    ensures
        r == sat(v as int),
{
    if v < i64::MIN as i128 {
        i64::MIN
    } else if v > i64::MAX as i128 {
        i64::MAX
    } else {
        v as i64
    }
}

/// Advances one coordinate by `velocity` over `dt` milliseconds.
pub fn displace(position: i64, velocity: i64, dt: u32) -> (r: i64)
    ensures
        r == displaced(position, velocity, dt as int),
{
    proof {
        lemma_product_fits(velocity, dt);
    }
    let step: i128 = (velocity as i128) * (dt as i128);
    saturate(position as i128 + step)
}

} // verus!
