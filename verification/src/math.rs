//! Integer 3D vector math for the simulation core.
//!
//! Coordinates are in milli-units (one thousandth of a world unit). Squared
//! distances are computed in `i128`, which never overflows as long as each
//! coordinate stays within [`COORD_LIMIT`], the well-formedness bound every
//! stored point obeys.

use vstd::prelude::*;

verus! {

/// Bound on the absolute value of a well-formed coordinate (milli-units).
pub const COORD_LIMIT: i64 = 0x4000_0000_0000;

/// Milli-units per world unit: the fixed-point scale of all geometry.
pub const MILLI: i64 = 1000;

pub proof fn lemma_square_le(x: int, b: int)
    requires
        -b <= x <= b,
        0 <= b,
    ensures
        0 <= x * x <= b * b,
{
    assert(0 <= x * x <= b * b) by (nonlinear_arith)
        requires
            -b <= x <= b,
            0 <= b,
    ;
}

/// A number at least `b` in magnitude has a square at least `b * b`.
pub proof fn lemma_square_ge(x: int, b: int)
    requires
        0 <= b,
        x <= -b || b <= x,
    ensures
        x * x >= b * b,
{
    assert(x * x >= b * b) by (nonlinear_arith)
        requires
            0 <= b,
            x <= -b || b <= x,
    ;
}

/// A point or direction in 3D space, in milli-units.
#[derive(Clone, Copy, Debug, PartialEq, Eq, Structural)]
pub struct Vec3i {
    pub x: i64,
    pub y: i64,
    pub z: i64,
}

impl Vec3i {
    /// All coordinates within the range that keeps squared-distance
    /// arithmetic exact.
    pub open spec fn wf(self) -> bool {
        -COORD_LIMIT <= self.x <= COORD_LIMIT
            && -COORD_LIMIT <= self.y <= COORD_LIMIT
            && -COORD_LIMIT <= self.z <= COORD_LIMIT
    }

    /// Squared Euclidean distance between two points, as a mathematical
    /// integer.
    pub open spec fn dist_sq_spec(self, other: Vec3i) -> int {
        (self.x - other.x) * (self.x - other.x)
            + (self.y - other.y) * (self.y - other.y)
            + (self.z - other.z) * (self.z - other.z)
    }

    pub fn new(x: i64, y: i64, z: i64) -> (r: Vec3i)
        ensures
            r == (Vec3i { x, y, z }),
    {
        Vec3i { x, y, z }
    }

    /// Squared Euclidean distance, exact.
    pub fn dist_sq(&self, other: &Vec3i) -> (r: i128)
        requires
            self.wf(),
            other.wf(),
        ensures
            r == self.dist_sq_spec(*other),
    {
        let dx: i128 = self.x as i128 - other.x as i128;
        let dy: i128 = self.y as i128 - other.y as i128;
        let dz: i128 = self.z as i128 - other.z as i128;
        proof {
            lemma_square_le(dx as int, 2 * COORD_LIMIT as int);
            lemma_square_le(dy as int, 2 * COORD_LIMIT as int);
            lemma_square_le(dz as int, 2 * COORD_LIMIT as int);
        }
        dx * dx + dy * dy + dz * dz
    }
}

/// The largest `r` with `r * r <= n`: the integer square root.
pub open spec fn is_isqrt(n: int, r: int) -> bool {
    0 <= r && r * r <= n && n < (r + 1) * (r + 1)
}

/// Integer square root by binary search.
pub fn isqrt(n: u128) -> (r: u64)
    ensures
        is_isqrt(n as int, r as int),
{
    let mut lo: u128 = 0;
    let mut hi: u128 = 1u128 << 64;
    proof {
        assert((1u128 << 64) == 0x1_0000_0000_0000_0000u128) by (bit_vector);
        assert(0x1_0000_0000_0000_0000int * 0x1_0000_0000_0000_0000int > u128::MAX as int);
    }
    while hi - lo > 1
        invariant
            0 <= lo < hi <= 0x1_0000_0000_0000_0000u128,
            lo * lo <= n,
            n < hi * hi,
        decreases hi - lo,
    {
        let mid: u128 = lo + (hi - lo) / 2;
        proof {
            lemma_square_le(mid as int, 0xFFFF_FFFF_FFFF_FFFFu128 as int);
        }
        if mid * mid <= n {
            lo = mid;
        } else {
            hi = mid;
        }
    }
    proof {
        lemma_square_le(lo as int, 0xFFFF_FFFF_FFFF_FFFFu128 as int);
    }
    lo as u64
}

/// The integer square root as a function: well defined because at most one
/// `r` satisfies [`is_isqrt`].
pub open spec fn isqrt_spec(n: int) -> int {
    choose|r: int| is_isqrt(n, r)
}

/// Only one integer square root exists, so [`isqrt_spec`] names the value
/// [`isqrt`] computes.
pub proof fn lemma_isqrt_spec(n: int, r: int)
    requires
        is_isqrt(n, r),
    ensures
        isqrt_spec(n) == r,
{
    let c = choose|r2: int| is_isqrt(n, r2);
    if c < r {
        lemma_square_le(c + 1, r);
    }
    if r < c {
        lemma_square_le(r + 1, c);
    }
}

/// `a * b / d`, rounding the magnitude down, carrying `a`'s sign.
pub open spec fn mul_div_signed(a: int, b: int, d: int) -> int {
    if a >= 0 {
        a * b / d
    } else {
        -((-a) * b / d)
    }
}

/// Executable form of [`mul_div_signed`], exact.
pub fn mul_div_exec(a: i64, b: i64, d: i64) -> (r: i64)
    requires
        -2 * COORD_LIMIT <= a <= 2 * COORD_LIMIT,
        0 <= b <= 50000,
        1 <= d,
    ensures
        r == mul_div_signed(a as int, b as int, d as int),
        -100000 * COORD_LIMIT <= r <= 100000 * COORD_LIMIT,
{
    let mag: i128 = if a >= 0 {
        a as i128
    } else {
        -(a as i128)
    };
    proof {
        assert(0 <= mag * (b as i128) && mag * (b as i128) <= (2 * COORD_LIMIT) * 50000)
            by (nonlinear_arith)
            requires
                0 <= mag <= 2 * COORD_LIMIT,
                0 <= b <= 50000,
        ;
    }
    let product: i128 = mag * (b as i128);
    let scaled: i128 = product / (d as i128);
    proof {
        vstd::arithmetic::div_mod::lemma_div_is_ordered(
            product as int,
            (2 * COORD_LIMIT) * 50000,
            d as int,
        );
        vstd::arithmetic::div_mod::lemma_div_pos_is_pos(product as int, d as int);
        vstd::arithmetic::div_mod::lemma_div_is_ordered_by_denominator(
            (2 * COORD_LIMIT) * 50000,
            1,
            d as int,
        );
    }
    if a >= 0 {
        scaled as i64
    } else {
        -(scaled as i64)
    }
}

} // verus!
