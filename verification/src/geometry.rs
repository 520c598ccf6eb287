//! Plane geometry on fixed-point coordinates: squared distances and an
//! integer square root, which the movement code uses to normalize the
//! direction vector toward a navigation goal.

use vstd::prelude::*;
use vstd::arithmetic::mul::lemma_mul_inequality;
use vstd::arithmetic::mul::lemma_mul_nonnegative;
use vstd::arithmetic::mul::lemma_mul_upper_bound;
use vstd::arithmetic::div_mod::lemma_div_is_ordered;
use vstd::arithmetic::div_mod::lemma_div_multiples_vanish;
use vstd::arithmetic::div_mod::lemma_div_pos_is_pos;
use vstd::arithmetic::div_mod::lemma_basic_div;

verus! {

/// Squared Euclidean distance between two points, in tenths of a unit
/// squared.
pub open spec fn dist2(a: (i64, i64), b: (i64, i64)) -> int {
    (a.0 - b.0) * (a.0 - b.0) + (a.1 - b.1) * (a.1 - b.1)
}

/// Mathematical floor of the square root of `n`.
pub open spec fn sqrt_floor(n: nat) -> nat
    decreases n,
{
    if n == 0 {
        0
    } else {
        let r = sqrt_floor((n - 1) as nat);
        if (r + 1) * (r + 1) <= n {
            r + 1
        } else {
            r
        }
    }
}

/// `sqrt_floor(n)` is indeed the floor of the square root: its square is at
/// most `n`, and the next square is strictly larger.
pub proof fn lemma_sqrt_floor_bounds(n: nat)
    ensures
        sqrt_floor(n) * sqrt_floor(n) <= n,
        n < (sqrt_floor(n) + 1) * (sqrt_floor(n) + 1),
    decreases n,
{
    if n > 0 {
        lemma_sqrt_floor_bounds((n - 1) as nat);
        let r = sqrt_floor((n - 1) as nat);
        assert(r * r <= n - 1 < (r + 1) * (r + 1));
        if (r + 1) * (r + 1) <= n {
            assert(sqrt_floor(n) == r + 1);
            assert(n == (r + 1) * (r + 1));
            assert(n < (sqrt_floor(n) + 1) * (sqrt_floor(n) + 1)) by (nonlinear_arith)
                requires
                    sqrt_floor(n) == r + 1,
                    n <= (r + 1) * (r + 1),
            ;
        } else {
            assert(sqrt_floor(n) == r);
            assert(n < (sqrt_floor(n) + 1) * (sqrt_floor(n) + 1)) by (nonlinear_arith)
                requires
                    sqrt_floor(n) == r,
                    n < (r + 1) * (r + 1),
            ;
        }
    } else {
        assert(sqrt_floor(0) == 0);
        assert(n < (sqrt_floor(n) + 1) * (sqrt_floor(n) + 1)) by (nonlinear_arith)
            requires
                sqrt_floor(n) == 0,
                n == 0,
        ;
    }
}

/// Any integer whose square is at most `n` while the next square exceeds `n`
/// is `sqrt_floor(n)`.
pub proof fn lemma_sqrt_floor_unique(n: nat, r: nat)
    requires
        r * r <= n,
        n < (r + 1) * (r + 1),
    ensures
        r == sqrt_floor(n),
{
    lemma_sqrt_floor_bounds(n);
    let s = sqrt_floor(n);
    if r < s {
        lemma_mul_inequality(r as int + 1, s as int, r as int + 1);
        lemma_mul_inequality(r as int + 1, s as int, s as int);
    }
    if s < r {
        lemma_mul_inequality(s as int + 1, r as int, s as int + 1);
        lemma_mul_inequality(s as int + 1, r as int, r as int);
    }
}

/// Computes the floor of the square root of `n` by counting up from zero.
pub fn isqrt(n: u64) -> (r: u64)
    requires
        n <= 0xffff_ffff,
    ensures
        r == sqrt_floor(n as nat),
        r * r <= n < (r + 1) * (r + 1),
{
    let mut r: u64 = 0;
    let mut sq: u64 = 1;
    while sq <= n
        invariant
            n <= 0xffff_ffff,
            r * r <= n,
            r <= 0x1_0000,
            sq == (r + 1) * (r + 1),
        decreases n - r,
    {
        assert(r + 1 <= 0xffff) by (nonlinear_arith)
            requires
                (r + 1) * (r + 1) <= 0xffff_ffff,
        ;
        proof {
            lemma_mul_inequality(1, (r + 1) as int, (r + 1) as int);
        }
        r = r + 1;
        assert((r + 1) * (r + 1) <= 0x1_0002_0001) by (nonlinear_arith)
            requires
                r <= 0x1_0000,
        ;
        sq = (r + 1) * (r + 1);
    }
    proof {
        lemma_sqrt_floor_unique(n as nat, r as nat);
    }
    r
}

/// Computes the squared distance between two points whose coordinates are
/// small enough that the arithmetic cannot overflow.
pub fn dist2_exec(a: (i64, i64), b: (i64, i64)) -> (r: i64)
    requires
        -100_000 <= a.0 <= 100_000,
        -100_000 <= a.1 <= 100_000,
        -100_000 <= b.0 <= 100_000,
        -100_000 <= b.1 <= 100_000,
    ensures
        r == dist2(a, b),
        0 <= r <= 80_000_000_000,
{
    let dx = a.0 - b.0;
    let dy = a.1 - b.1;
    assert(0 <= dx * dx <= 40_000_000_000 && 0 <= dy * dy <= 40_000_000_000) by (nonlinear_arith)
        requires
            -200_000 <= dx <= 200_000,
            -200_000 <= dy <= 200_000,
    ;
    dx * dx + dy * dy
}

/// Signed length of one axis component of a movement step: the component
/// `delta` of the direction vector, scaled by `speed` and divided by the
/// vector's length `d`, rounded toward zero.
pub open spec fn axis_step(delta: int, speed: int, d: int) -> int
    recommends
        d > 0,
{
    if delta >= 0 {
        (delta * speed) / d
    } else {
        -(((-delta) * speed) / d)
    }
}

/// Computes `axis_step`. The step never exceeds `speed` in magnitude and
/// never points away from the goal.
pub fn axis_step_exec(delta: i64, speed: u64, d: u64) -> (r: i64)
    requires
        1 <= d <= 1_000_000,
        speed <= 100,
        -(d as int) <= delta <= d as int,
    ensures
        r == axis_step(delta as int, speed as int, d as int),
        delta >= 0 ==> 0 <= r <= speed,
        delta <= 0 ==> -(speed as int) <= r <= 0,
{
    if delta >= 0 {
        let du: u64 = delta as u64;
        proof {
            lemma_mul_nonnegative(du as int, speed as int);
            lemma_mul_upper_bound(du as int, 1_000_000, speed as int, 100);
            lemma_mul_inequality(du as int, d as int, speed as int);
            lemma_div_is_ordered((du as int) * (speed as int), (d as int) * (speed as int), d as int);
            lemma_div_multiples_vanish(speed as int, d as int);
            lemma_div_pos_is_pos((du as int) * (speed as int), d as int);
            if du == 0 {
                lemma_mul_upper_bound(du as int, 0, speed as int, 100);
                lemma_basic_div((du as int) * (speed as int), d as int);
            }
        }
        let q: u64 = (du * speed) / d;
        q as i64
    } else {
        let nd: i64 = -delta;
        let du: u64 = nd as u64;
        proof {
            lemma_mul_nonnegative(du as int, speed as int);
            lemma_mul_upper_bound(du as int, 1_000_000, speed as int, 100);
            lemma_mul_inequality(du as int, d as int, speed as int);
            lemma_div_is_ordered((du as int) * (speed as int), (d as int) * (speed as int), d as int);
            lemma_div_multiples_vanish(speed as int, d as int);
            lemma_div_pos_is_pos((du as int) * (speed as int), d as int);
        }
        let q: u64 = (du * speed) / d;
        -(q as i64)
    }
}

} // verus!
