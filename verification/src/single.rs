//! Single-precision numbers, held by their bit patterns.
//!
//! The GPU works in IEEE 754 binary32. The library stores such numbers,
//! compares them and lays them out in memory; it never computes with them, so
//! it holds each by the bits that are uploaded.

use vstd::arithmetic::power2::{lemma_pow2_adds, lemma_pow2_pos, lemma_pow2_strictly_increases, pow2};
use vstd::math::abs;
use vstd::prelude::*;

verus! {

/// An IEEE 754 binary32 number, by its bit pattern.
#[derive(Clone, Copy, Debug, PartialEq, Eq, Structural)]
pub struct Single {
    pub bits: u32,
}

impl Single {
    /// The sign bit.
    pub open spec fn is_negative(self) -> bool {
        self.bits >= 0x8000_0000
    }

    /// The bits below the sign.
    pub open spec fn magnitude_bits(self) -> int {
        if self.is_negative() {
            self.bits - 0x8000_0000
        } else {
            self.bits as int
        }
    }

    /// Not a number: the largest exponent with a fraction that is not zero.
    pub open spec fn is_nan(self) -> bool {
        self.magnitude_bits() > 0x7f80_0000
    }

    /// The number itself, in units of the least positive one, 2^-149. An
    /// infinity stands at 2^128, above every finite number.
    pub open spec fn scaled(self) -> int {
        if self.is_negative() {
            -scaled_magnitude(self.magnitude_bits())
        } else {
            scaled_magnitude(self.magnitude_bits())
        }
    }
}

/// The number that exponent and fraction bits stand for, in units of 2^-149.
pub open spec fn scaled_magnitude(bits: int) -> int {
    let exponent = bits / 0x80_0000;
    let fraction = bits % 0x80_0000;
    if exponent == 0 {
        fraction
    } else {
        (0x80_0000 + fraction) * pow2((exponent - 1) as nat)
    }
}

/// Bits of the longest time that one step may cover: a thirtieth of a second.
pub const MAX_STEP_BITS: u32 = 0x3d08_8889;

/// The longest time that one step may cover.
pub open spec fn max_step() -> Single {
    Single { bits: MAX_STEP_BITS }
}

/// Magnitudes are ordered as their bits are.
pub proof fn lemma_magnitude_order(a: int, b: int)
    requires
        0 <= a < b <= 0x7f80_0000,
    ensures
        0 <= scaled_magnitude(a) < scaled_magnitude(b),
{
    let (ea, fa) = (a / 0x80_0000, a % 0x80_0000);
    let (eb, fb) = (b / 0x80_0000, b % 0x80_0000);
    if ea > 0 {
        let pa = pow2((ea - 1) as nat) as int;
        lemma_pow2_pos((ea - 1) as nat);
        assert(0 <= (0x80_0000 + fa) * pa) by (nonlinear_arith)
            requires
                pa > 0,
                fa >= 0,
        ;
        if ea == eb {
            assert((0x80_0000 + fa) * pa < (0x80_0000 + fb) * pa) by (nonlinear_arith)
                requires
                    pa > 0,
                    fa < fb,
            ;
        } else {
            let pb = pow2((eb - 1) as nat) as int;
            let gap = pow2((eb - ea) as nat) as int;
            lemma_pow2_adds((ea - 1) as nat, (eb - ea) as nat);
            assert(gap >= 2) by {
                lemma_pow2_strictly_increases(0, (eb - ea) as nat);
                assert(pow2(0) == 1) by {
                    vstd::arithmetic::power2::lemma2_to64();
                }
            }
            assert((0x80_0000 + fa) * pa < (0x80_0000 + fb) * pb) by (nonlinear_arith)
                requires
                    pa > 0,
                    pb == pa * gap,
                    gap >= 2,
                    0 <= fa < 0x80_0000,
                    fb >= 0,
            ;
        }
    } else if eb > 0 {
        let pb = pow2((eb - 1) as nat) as int;
        lemma_pow2_pos((eb - 1) as nat);
        assert(fa < (0x80_0000 + fb) * pb) by (nonlinear_arith)
            requires
                pb > 0,
                fa < 0x80_0000,
                fb >= 0,
        ;
    }
}

/// The number that bits with the exponent `k + 1` stand for, where it is a
/// whole number `n`.
pub proof fn lemma_whole_number(bits: int, k: nat, n: int)
    requires
        bits / 0x80_0000 == k + 1,
        k <= 149,
        0x80_0000 + bits % 0x80_0000 == n * pow2((149 - k) as nat),
    ensures
        scaled_magnitude(bits) == n * pow2(149),
{
    let p = pow2(k) as int;
    let q = pow2((149 - k) as nat) as int;
    lemma_pow2_adds(k, (149 - k) as nat);
    assert((n * q) * p == n * (p * q)) by (nonlinear_arith);
}

/// What a step covers when `elapsed` seconds have gone by since the last one.
pub open spec fn clamped_step(elapsed: Single) -> Single {
    if elapsed.is_nan() || elapsed.scaled() > max_step().scaled() {
        max_step()
    } else {
        elapsed
    }
}

/// Clamp the time a step covers, so that a stall (dragging the window, waking
/// from sleep) does not teleport every agent across the world in one step.
pub fn clamp_step(elapsed: Single) -> (step: Single)
    ensures
        step == clamped_step(elapsed),
{
    let bits: u32 = elapsed.bits;
    proof {
        let limit = MAX_STEP_BITS as int;
        let magnitude = elapsed.magnitude_bits();
        lemma_magnitude_order(0, limit);
        assert(scaled_magnitude(0) == 0);
        if magnitude <= 0x7f80_0000 {
            if magnitude < limit {
                lemma_magnitude_order(magnitude, limit);
            }
            if limit < magnitude {
                lemma_magnitude_order(limit, magnitude);
            }
            if 0 < magnitude {
                lemma_magnitude_order(0, magnitude);
            }
        }
    }
    if bits <= MAX_STEP_BITS {
        elapsed
    } else if bits < 0x8000_0000 || bits > 0xff80_0000 {
        Single { bits: MAX_STEP_BITS }
    } else {
        elapsed
    }
}

/// The limit is a thirtieth of a second, as near as a single-precision number
/// comes to it: thirty of it are one second but for the rounding, and no other
/// number is nearer.
pub proof fn law_limit_is_a_thirtieth(other: Single)
    requires
        !other.is_nan(),
    ensures
        -15 * pow2(121) <= 30 * max_step().scaled() - pow2(149) <= 15 * pow2(121),
        abs(30 * max_step().scaled() - pow2(149)) <= abs(30 * other.scaled() - pow2(149)),
{
    let p = pow2(121) as int;
    lemma_pow2_pos(121);
    lemma_pow2_adds(121, 28);
    assert(pow2(28) == 0x1000_0000) by {
        vstd::arithmetic::power2::lemma2_to64();
    }
    let limit = MAX_STEP_BITS as int;
    assert(limit / 0x80_0000 == 122 && limit % 0x80_0000 == 0x8_8889);
    assert((limit - 1) / 0x80_0000 == 122 && (limit - 1) % 0x80_0000 == 0x8_8888);
    assert(max_step().scaled() == 0x88_8889 * p);
    assert(scaled_magnitude(limit - 1) == 0x88_8888 * p);
    let magnitude = other.magnitude_bits();
    if other.is_negative() {
        if 0 < magnitude {
            lemma_magnitude_order(0, magnitude);
        }
    } else if magnitude < limit - 1 {
        lemma_magnitude_order(magnitude, limit - 1);
    } else if limit < magnitude {
        lemma_magnitude_order(limit, magnitude);
    }
}

/// No step covers more than the limit, and one within it is covered in full.
pub proof fn law_step_is_bounded(elapsed: Single)
    ensures
        !clamped_step(elapsed).is_nan(),
        clamped_step(elapsed).scaled() <= max_step().scaled(),
        !elapsed.is_nan() && elapsed.scaled() <= max_step().scaled() ==> clamped_step(elapsed)
            == elapsed,
{
}

/// A stall is cut to the limit: where more time has gone by, or none that is a
/// number, the step covers a thirtieth of a second; and more time never makes
/// for a shorter step.
pub proof fn law_stall_is_cut(elapsed: Single, longer: Single)
    ensures
        elapsed.is_nan() || elapsed.scaled() > max_step().scaled() ==> clamped_step(elapsed).bits
            == 0x3d08_8889,
        !elapsed.is_nan() && !longer.is_nan() && elapsed.scaled() <= longer.scaled()
            ==> clamped_step(elapsed).scaled() <= clamped_step(longer).scaled(),
{
}

} // verus!
