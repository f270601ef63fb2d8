//! Planar vectors in millimetres, with the squared and rounded metrics
//! the path engine needs.

use vstd::prelude::*;

use crate::num::{sqrt_round, lemma_sqrt_floor_bounds, lemma_mul_bound};

verus! {

/// Coordinates the geometry routines accept, about a kilometre from the
/// origin: far beyond any field, close enough to keep every intermediate
/// product inside the integer types.
pub const MAX_COORD_MM: i64 = 1_048_576;

#[derive(Debug, Clone, Copy, PartialEq, Eq, Structural)]
pub struct Vec2 {
    pub x: i64,
    pub y: i64,
}

/// Both coordinates within the geometry range.
pub open spec fn coord_in_range(v: Vec2) -> bool {
    -MAX_COORD_MM <= v.x <= MAX_COORD_MM && -MAX_COORD_MM <= v.y <= MAX_COORD_MM
}

/// Squared distance between two points.
pub open spec fn dist_sq(a: Vec2, b: Vec2) -> int {
    (b.x - a.x) * (b.x - a.x) + (b.y - a.y) * (b.y - a.y)
}

/// Distance between two points, rounded to the nearest millimetre.
pub open spec fn dist_mm(a: Vec2, b: Vec2) -> int {
    sqrt_round(dist_sq(a, b) as nat) as int
}

impl Vec2 {
    pub fn new(x: i64, y: i64) -> (r: Vec2)
        ensures
            r == (Vec2 { x, y }),
    {
        Vec2 { x, y }
    }

    /// Dot product of two vectors.
    pub fn dot(self, rhs: Vec2) -> (r: i64)
        requires
            coord_in_range(self),
            coord_in_range(rhs),
        ensures
            r == self.x * rhs.x + self.y * rhs.y,
    {
        proof {
            lemma_mul_bound(self.x as int, rhs.x as int, MAX_COORD_MM as int, MAX_COORD_MM as int);
            lemma_mul_bound(self.y as int, rhs.y as int, MAX_COORD_MM as int, MAX_COORD_MM as int);
        }
        self.x * rhs.x + self.y * rhs.y
    }
}

/// Distance between two points, rounded to the nearest millimetre.
pub fn distance_mm(a: Vec2, b: Vec2) -> (r: i64)
    requires
        coord_in_range(a),
        coord_in_range(b),
    ensures
        r == dist_mm(a, b),
        0 <= r <= 3 * MAX_COORD_MM,
{
    let dx = b.x - a.x;
    let dy = b.y - a.y;
    proof {
        lemma_mul_bound(dx as int, dx as int, 2 * MAX_COORD_MM as int, 2 * MAX_COORD_MM as int);
        lemma_mul_bound(dy as int, dy as int, 2 * MAX_COORD_MM as int, 2 * MAX_COORD_MM as int);
    }
    proof {
        assert(dx as int * dx as int >= 0 && dy as int * dy as int >= 0) by (nonlinear_arith);
    }
    let sq = (dx * dx + dy * dy) as u64;
    let r = crate::num::isqrt_round(sq);
    proof {
        lemma_sqrt_floor_bounds(sq as nat);
        // The root of dx^2 + dy^2 is no more than |dx| + |dy|.
        let m = 3 * MAX_COORD_MM as int - 1;
        assert(m * m < (m + 1) * (m + 1)) by (nonlinear_arith)
            requires
                m > 0,
        ;
        assert(sq <= m * m) by (nonlinear_arith)
            requires
                dx as int * dx as int <= (2 * MAX_COORD_MM as int) * (2 * MAX_COORD_MM as int),
                dy as int * dy as int <= (2 * MAX_COORD_MM as int) * (2 * MAX_COORD_MM as int),
                sq == dx as int * dx as int + dy as int * dy as int,
                m == 3 * MAX_COORD_MM as int - 1,
        ;
        crate::num::lemma_sqrt_floor_unique((m * m) as nat, m as nat);
        if crate::num::sqrt_floor(sq as nat) > m {
            assert(false) by (nonlinear_arith)
                requires
                    crate::num::sqrt_floor(sq as nat) * crate::num::sqrt_floor(sq as nat) <= sq,
                    sq <= m * m,
                    crate::num::sqrt_floor(sq as nat) > m,
                    m > 0,
            ;
        }
    }
    r as i64
}

/// Cap on a reported perpendicular distance, far beyond any reachable
/// geometry; it only bounds the arithmetic.
pub const MAX_PERP_MM: i64 = 0x400_0000;

/// Sixteen times the squared triangle area by Heron's formula, from the
/// three side lengths: `(a+b+c)(-a+b+c)(a-b+c)(a+b-c)`.
pub open spec fn heron_product(a: int, b: int, c: int) -> int {
    (a + b + c) * ((-a + b + c) * ((a - b + c) * (a + b - c)))
}

/// Perpendicular distance of `pos` from the line through `start` and
/// `end`, in millimetres: twice the triangle's area over the base, the
/// area taken from Heron's formula so no arctangent is needed. A
/// degenerate base or a rounding-negative Heron product reports zero.
pub open spec fn perp_distance_spec(start: Vec2, end: Vec2, pos: Vec2) -> int {
    let base = dist_mm(start, end);
    let b = dist_mm(pos, start);
    let c = dist_mm(pos, end);
    let num = heron_product(base, b, c);
    if base == 0 || num <= 0 {
        0
    } else {
        let hsq = num / (4 * base * base);
        if hsq > MAX_PERP_MM * MAX_PERP_MM {
            MAX_PERP_MM as int
        } else {
            sqrt_round(hsq as nat) as int
        }
    }
}

/// Perpendicular distance of `pos` from the line through `start` and
/// `end`, in millimetres.
pub fn perpendicular_distance(start: Vec2, end: Vec2, pos: Vec2) -> (r: i64)
    requires
        coord_in_range(start),
        coord_in_range(end),
        coord_in_range(pos),
    ensures
        r == perp_distance_spec(start, end, pos),
        0 <= r <= MAX_PERP_MM,
{
    let base = distance_mm(start, end);
    let b = distance_mm(pos, start);
    let c = distance_mm(pos, end);
    let m = 3 * MAX_COORD_MM;
    let f0: i128 = (base + b + c) as i128;
    let f1: i128 = (-base + b + c) as i128;
    let f2: i128 = (base - b + c) as i128;
    let f3: i128 = (base + b - c) as i128;
    proof {
        crate::num::lemma_mul_bound(f2 as int, f3 as int, 2 * m as int, 2 * m as int);
        crate::num::lemma_mul_bound(
            f1 as int,
            f2 as int * f3 as int,
            2 * m as int,
            4 * m as int * m as int,
        );
        crate::num::lemma_mul_bound(
            f0 as int,
            f1 as int * (f2 as int * f3 as int),
            3 * m as int,
            8 * m as int * m as int * m as int,
        );
    }
    let num: i128 = f0 * (f1 * (f2 * f3));
    if base == 0 || num <= 0 {
        return 0;
    }
    proof {
        crate::num::lemma_mul_bound(base as int, base as int, m as int, m as int);
        crate::num::lemma_mul_bound(4 * base as int, base as int, 4 * m as int, m as int);
        assert(4 * (base as int) * (base as int) > 0) by (nonlinear_arith)
            requires
                base >= 1,
        ;
    }
    let den: i128 = 4 * (base as i128) * (base as i128);
    let hsq: i128 = num / den;
    proof {
        assert(hsq as int == num as int / (den as int));
        assert(num as int / (den as int) >= 0) by (nonlinear_arith)
            requires
                num > 0,
                den as int > 0,
        ;
        assert(num as int / (den as int) <= num as int) by (nonlinear_arith)
            requires
                num > 0,
                den as int > 0,
        ;
    }
    if hsq > (MAX_PERP_MM as i128) * (MAX_PERP_MM as i128) {
        MAX_PERP_MM
    } else {
        proof {
            assert((MAX_PERP_MM as int) * (MAX_PERP_MM as int) == 0x10_0000_0000_0000)
                by (nonlinear_arith);
        }
        let r = crate::num::isqrt_round(hsq as u64);
        proof {
            crate::num::lemma_sqrt_floor_bounds(hsq as nat);
            let s = crate::num::sqrt_floor(hsq as nat);
            if s > MAX_PERP_MM {
                assert(false) by (nonlinear_arith)
                    requires
                        s * s <= hsq,
                        hsq <= 0x10_0000_0000_0000,
                        s >= 0x400_0001,
                ;
            }
            if s == MAX_PERP_MM {
                assert(s * s == 0x10_0000_0000_0000) by (nonlinear_arith)
                    requires
                        s == 0x400_0000,
                ;
            }
        }
        r as i64
    }
}

} // verus!
