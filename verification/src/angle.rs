//! Angles in millidegrees.
//!
//! The pose heading accumulates without wrapping so that multi-revolution
//! turns stay representable; everything here that needs a bounded angle
//! wraps explicitly. `optimise_target_heading` resolves an absolute
//! bearing to the equivalent angle nearest the current unbounded heading,
//! so a turn never commands more than half a revolution.

use vstd::arithmetic::div_mod::{
    lemma_fundamental_div_mod, lemma_fundamental_div_mod_converse, lemma_mod_multiples_basic,
};
use vstd::prelude::*;

use crate::num::tdiv;

verus! {

/// One full revolution, in millidegrees.
pub const FULL_TURN_MDEG: i64 = 360_000;

/// Half a revolution, in millidegrees.
pub const HALF_TURN_MDEG: i64 = 180_000;

/// Two angles that name the same direction differ by whole revolutions.
pub open spec fn congruent_mdeg(a: int, b: int) -> bool {
    (a - b) % (FULL_TURN_MDEG as int) == 0
}

/// Wrap an angle into `[0, 360000)`, keeping its direction.
pub fn norm_mdeg(a: i64) -> (r: i64)
    requires
        a > i64::MIN,
    ensures
        r == (a as int) % (FULL_TURN_MDEG as int),
        0 <= r < FULL_TURN_MDEG,
{
    proof {
        lemma_fundamental_div_mod(a as int, FULL_TURN_MDEG as int);
    }
    if a >= 0 {
        let r = ((a as u64) % 360_000u64) as i64;
        proof {
            lemma_fundamental_div_mod(a as int, 360_000);
        }
        r
    } else {
        let b = -a;
        let m0 = ((b as u64) % 360_000u64) as i64;
        proof {
            lemma_fundamental_div_mod(b as int, 360_000);
            let q0 = (b as int) / 360_000;
            if m0 == 0 {
                assert(a as int == (-q0) * 360_000 + 0) by (nonlinear_arith)
                    requires
                        b as int == 360_000 * q0 + 0,
                        a as int == -(b as int),
                ;
                lemma_fundamental_div_mod_converse(a as int, 360_000, -q0, 0);
            } else {
                assert(a as int == (-q0 - 1) * 360_000 + (360_000 - m0)) by (nonlinear_arith)
                    requires
                        b as int == 360_000 * q0 + m0,
                        a as int == -(b as int),
                ;
                lemma_fundamental_div_mod_converse(a as int, 360_000, -q0 - 1, 360_000 - m0);
            }
        }
        if m0 == 0 {
            0
        } else {
            360_000 - m0
        }
    }
}

/// The whole-revolution equivalent of `target` nearest `current`.
pub open spec fn optimise_heading_spec(current: int, target: int) -> int {
    let wrapped = (target - current) % (FULL_TURN_MDEG as int);
    if wrapped > HALF_TURN_MDEG {
        current + wrapped - FULL_TURN_MDEG
    } else {
        current + wrapped
    }
}

/// Resolve an absolute bearing to the whole-revolution equivalent nearest
/// the current unbounded heading. The result names the same direction as
/// `target` and lies within half a turn of `current`, so the commanded
/// turn is never longer than it has to be.
pub fn optimise_target_heading(current: i64, target: i64) -> (r: i64)
    requires
        -0x10_0000_0000 <= current <= 0x10_0000_0000,
        -0x10_0000_0000 <= target <= 0x10_0000_0000,
    ensures
        r == optimise_heading_spec(current as int, target as int),
        congruent_mdeg(r as int, target as int),
        -HALF_TURN_MDEG < r - current <= HALF_TURN_MDEG,
{
    let wrapped = norm_mdeg(target - current);
    let delta = if wrapped > 180_000 {
        wrapped - 360_000
    } else {
        wrapped
    };
    proof {
        let diff = target - current;
        lemma_fundamental_div_mod(diff, 360_000);
        let q = diff / 360_000;
        // delta differs from (target - current) by a whole number of turns,
        // so current + delta still names the target direction.
        let k: int = if wrapped > 180_000 { -q - 1 } else { -q };
        assert(current + delta - target == k * 360_000) by (nonlinear_arith)
            requires
                diff == 360_000 * q + wrapped,
                diff == target - current,
                delta == if wrapped > 180_000 { wrapped - 360_000 } else { wrapped as int },
                k == if wrapped > 180_000 { -q - 1 } else { -q as int },
        ;
        lemma_mod_multiples_basic(k, 360_000);
    }
    current + delta
}

/// Rational sine approximation on `[0, 180000]` millidegrees, scaled to
/// millionths. Exact at 0, 30, 90, 150 and 180 degrees and within about
/// two thousandths elsewhere.
pub open spec fn sin_half_turn(x: int) -> int
    recommends
        0 <= x <= HALF_TURN_MDEG,
{
    (4_000_000 * x * (180_000 - x)) / (40_500_000_000 - x * (180_000 - x))
}

/// Sine of any millidegree angle, scaled to millionths.
pub open spec fn sin_mdeg_spec(a: int) -> int {
    let x = a % (FULL_TURN_MDEG as int);
    if x <= HALF_TURN_MDEG {
        sin_half_turn(x)
    } else {
        -sin_half_turn(x - HALF_TURN_MDEG)
    }
}

/// Cosine of any millidegree angle, scaled to millionths.
pub open spec fn cos_mdeg_spec(a: int) -> int {
    sin_mdeg_spec(a + 90_000)
}

proof fn lemma_hump_bounds(x: int)
    requires
        0 <= x <= 180_000,
    ensures
        0 <= x * (180_000 - x) <= 8_100_000_000,
{
    assert(0 <= x * (180_000 - x) <= 8_100_000_000) by (nonlinear_arith)
        requires
            0 <= x <= 180_000,
    ;
}

fn sin_half_turn_exec(x: i64) -> (r: i64)
    requires
        0 <= x <= HALF_TURN_MDEG,
    ensures
        r == sin_half_turn(x as int),
        0 <= r <= 1_000_000,
{
    proof {
        lemma_hump_bounds(x as int);
    }
    let hump = x * (180_000 - x);
    let num = 4_000_000 * hump;
    let den = 40_500_000_000 - hump;
    let r = num / den;
    proof {
        assert(num as int == 4_000_000 * (x as int) * (180_000 - x as int)) by (nonlinear_arith)
            requires
                hump as int == (x as int) * (180_000 - x as int),
                num as int == 4_000_000 * (hump as int),
        ;
        // num / den never exceeds the millionth scale: the numerator is
        // 4e6 * hump and the denominator at least 4.05e10 - hump, whose
        // ratio peaks at exactly one for hump = 8.1e9.
        assert(num <= 1_000_000 * (den as int)) by (nonlinear_arith)
            requires
                num == 4_000_000 * (hump as int),
                den == 40_500_000_000 - (hump as int),
                0 <= hump <= 8_100_000_000,
        ;
        assert((num as int) / (den as int) <= 1_000_000) by (nonlinear_arith)
            requires
                num <= 1_000_000 * (den as int),
                den as int >= 32_400_000_000,
                num >= 0,
        ;
    }
    r
}

/// Sine of a millidegree angle, in millionths of full scale.
pub fn sin_mdeg(a: i64) -> (r: i64)
    requires
        a > i64::MIN,
    ensures
        r == sin_mdeg_spec(a as int),
        -1_000_000 <= r <= 1_000_000,
{
    let x = norm_mdeg(a);
    if x <= 180_000 {
        sin_half_turn_exec(x)
    } else {
        -sin_half_turn_exec(x - 180_000)
    }
}

/// Cosine of a millidegree angle, in millionths of full scale.
pub fn cos_mdeg(a: i64) -> (r: i64)
    requires
        -0x4000_0000_0000_0000 < a < 0x4000_0000_0000_0000,
    ensures
        r == cos_mdeg_spec(a as int),
        -1_000_000 <= r <= 1_000_000,
{
    sin_mdeg(a + 90_000)
}

/// Arctangent of `z` millionths on `[0, 1]`, in millidegrees: the linear
/// term plus a small polynomial correction, exact at both ends of the
/// octant and within a fraction of a degree between them.
pub open spec fn atan_ratio_mdeg(z: int) -> int
    recommends
        0 <= z <= 1_000_000,
{
    45_000 * z / 1_000_000 + z * (1_000_000 - z) * (14_020 + 3_799 * z / 1_000_000)
        / 1_000_000_000_000
}

fn atan_ratio_exec(z: i64) -> (r: i64)
    requires
        0 <= z <= 1_000_000,
    ensures
        r == atan_ratio_mdeg(z as int),
        0 <= r <= 50_000,
{
    proof {
        assert(0 <= (z as int) * (1_000_000 - z as int) <= 250_000_000_000) by (nonlinear_arith)
            requires
                0 <= z <= 1_000_000,
        ;
    }
    let lin = (45_000 * z) / 1_000_000;
    let hump = z * (1_000_000 - z);
    let c = 14_020 + (3_799 * z) / 1_000_000;
    proof {
        assert(0 <= (hump as int) * (c as int) <= 250_000_000_000 * 17_819) by (nonlinear_arith)
            requires
                0 <= hump <= 250_000_000_000,
                14_020 <= c <= 17_819,
        ;
        assert((hump as int) * (c as int) / 1_000_000_000_000 <= 4_455) by (nonlinear_arith)
            requires
                0 <= (hump as int) * (c as int) <= 250_000_000_000 * 17_819,
        ;
    }
    let corr = (hump * c) / 1_000_000_000_000;
    lin + corr
}

/// Bearing of the vector `(x, y)` in millidegrees, in `(-180000, 180000]`,
/// with the positive x axis at zero and angles growing counter-clockwise.
pub open spec fn atan2_mdeg_spec(y: int, x: int) -> int {
    let ax = crate::num::abs(x);
    let ay = crate::num::abs(y);
    if x == 0 && y == 0 {
        0
    } else if x == 0 {
        if y > 0 {
            90_000
        } else {
            -90_000
        }
    } else if ay <= ax {
        let base = atan_ratio_mdeg(ay * 1_000_000 / ax);
        let q = if x > 0 {
            base
        } else {
            180_000 - base
        };
        if y >= 0 {
            q
        } else {
            -q
        }
    } else {
        let base = atan_ratio_mdeg(ax * 1_000_000 / ay);
        let q = 90_000 - base;
        if y >= 0 {
            if x > 0 {
                q
            } else {
                90_000 + base
            }
        } else {
            if x > 0 {
                -q
            } else {
                -90_000 - base
            }
        }
    }
}

/// Bearing of the vector `(x, y)`, in millidegrees.
pub fn atan2_mdeg(y: i64, x: i64) -> (r: i64)
    requires
        -100_000_000 <= y <= 100_000_000,
        -100_000_000 <= x <= 100_000_000,
    ensures
        r == atan2_mdeg_spec(y as int, x as int),
        -230_000 <= r <= 230_000,
{
    let ax = if x >= 0 {
        x
    } else {
        -x
    };
    let ay = if y >= 0 {
        y
    } else {
        -y
    };
    if x == 0 && y == 0 {
        0
    } else if x == 0 {
        if y > 0 {
            90_000
        } else {
            -90_000
        }
    } else if ay <= ax {
        proof {
            assert((ay as int) * 1_000_000 / (ax as int) <= 1_000_000) by (nonlinear_arith)
                requires
                    0 <= ay <= ax,
                    ax > 0,
            ;
            assert((ay as int) * 1_000_000 / (ax as int) >= 0) by (nonlinear_arith)
                requires
                    0 <= ay <= ax,
                    ax > 0,
            ;
        }
        let base = atan_ratio_exec((ay * 1_000_000) / ax);
        let q = if x > 0 {
            base
        } else {
            180_000 - base
        };
        if y >= 0 {
            q
        } else {
            -q
        }
    } else {
        proof {
            assert(0 <= (ax as int) * 1_000_000 / (ay as int) <= 1_000_000) by (nonlinear_arith)
                requires
                    0 <= ax < ay,
                ;
        }
        let base = atan_ratio_exec((ax * 1_000_000) / ay);
        let q = 90_000 - base;
        if y >= 0 {
            if x > 0 {
                q
            } else {
                90_000 + base
            }
        } else {
            if x > 0 {
                -q
            } else {
                -90_000 - base
            }
        }
    }
}

} // verus!
