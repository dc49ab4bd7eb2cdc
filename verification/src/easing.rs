use vstd::prelude::*;

verus! {

/// Progress and eased progress are fractions of this many parts.
pub const FULL: u64 = 1_000_000;

/// The square of an integer.
pub open spec fn square(v: int) -> int {
    v * v
}

/// The cube of an integer.
pub open spec fn cube(v: int) -> int {
    v * v * v
}

/// The cubic ease-in-out curve over fractions of `FULL`: `4 t^3` in the
/// first half and `1 - (2 - 2 t)^3 / 2` in the second, rounded down.
pub open spec fn cubic_in_out(p: int) -> int {
    if 2 * p < 1_000_000 {
        (4 * cube(p)) / 1_000_000_000_000
    } else {
        1_000_000 - cube(2_000_000 - 2 * p) / 2_000_000_000_000
    }
}

/// The bouncing ease-out curve over fractions of `FULL`, in four arcs that
/// change at 4/11, 8/11 and 10/11 of the way. The third arc is the mirror
/// image, below fifteen sixteenths, of the arc that reaches from there to
/// the full value.
pub open spec fn bounce_out(p: int) -> int {
    if 11 * p < 4_000_000 {
        (121 * square(p)) / 16_000_000
    } else if 11 * p < 8_000_000 {
        square(11 * p - 6_000_000) / 16_000_000 + 750_000
    } else if 11 * p < 10_000_000 {
        937_500 - square(11 * p - 9_000_000) / 16_000_000
    } else {
        square(22 * p - 21_000_000) / 64_000_000 + 984_375
    }
}

/// Eases a fraction of `FULL` in and out along a cubic.
pub fn ease_in_out_cubic(p: u64) -> (eased: u64)
    requires
        p <= FULL,
    ensures
        eased as int == cubic_in_out(p as int),
        eased <= FULL,
{
    if 2 * p < 1_000_000 {
        proof {
            lemma_cube_bounds(p as int, 500_000);
        }
        let cube: u64 = p * p * p;
        (4 * cube) / 1_000_000_000_000
    } else {
        let q: u64 = 2_000_000 - 2 * p;
        proof {
            lemma_cube_bounds(q as int, 1_000_000);
        }
        let cube: u64 = q * q * q;
        1_000_000 - cube / 2_000_000_000_000
    }
}

/// Eases a fraction of `FULL` out with a bounce.
pub fn easeoutbounce(p: u64) -> (eased: u64)
    requires
        p <= FULL,
    ensures
        eased as int == bounce_out(p as int),
        eased <= FULL,
{
    let t: u64 = 11 * p;
    if t < 4_000_000 {
        proof {
            lemma_square_bounds(p as int, 363_636);
        }
        (121 * (p * p)) / 16_000_000
    } else if t < 8_000_000 {
        let d: u64 = if t >= 6_000_000 {
            t - 6_000_000
        } else {
            6_000_000 - t
        };
        proof {
            lemma_square_bounds(d as int, 2_000_000);
            lemma_square_either_sign(11 * p - 6_000_000);
        }
        (d * d) / 16_000_000 + 750_000
    } else if t < 10_000_000 {
        let d: u64 = if t >= 9_000_000 {
            t - 9_000_000
        } else {
            9_000_000 - t
        };
        proof {
            lemma_square_bounds(d as int, 1_000_000);
            lemma_square_either_sign(11 * p - 9_000_000);
        }
        937_500 - (d * d) / 16_000_000
    } else {
        let u: u64 = 22 * p;
        let d: u64 = if u >= 21_000_000 {
            u - 21_000_000
        } else {
            21_000_000 - u
        };
        proof {
            lemma_square_bounds(d as int, 1_000_000);
            lemma_square_either_sign(22 * p - 21_000_000);
        }
        (d * d) / 64_000_000 + 984_375
    }
}

proof fn lemma_cube_bounds(v: int, top: int)
    requires
        0 <= v <= top,
    ensures
        0 <= v * v <= top * top,
        0 <= v * v * v <= top * top * top,
{
    assert(0 <= v * v <= top * top) by (nonlinear_arith)
        requires
            0 <= v <= top,
    ;
    assert(0 <= v * v * v <= top * top * top) by (nonlinear_arith)
        requires
            0 <= v <= top,
            0 <= v * v <= top * top,
    ;
}

proof fn lemma_square_bounds(v: int, top: int)
    requires
        0 <= v <= top,
    ensures
        0 <= v * v <= top * top,
{
    assert(0 <= v * v <= top * top) by (nonlinear_arith)
        requires
            0 <= v <= top,
    ;
}

proof fn lemma_square_either_sign(v: int)
    ensures
        v * v == (-v) * (-v),
        v * v >= 0,
{
    assert(v * v == (-v) * (-v)) by (nonlinear_arith);
    assert(v * v >= 0) by (nonlinear_arith);
}

/// Both curves start at nothing and end at the full value.
pub proof fn law_curves_meet_their_ends()
    ensures
        cubic_in_out(0) == 0,
        cubic_in_out(1_000_000) == 1_000_000,
        bounce_out(0) == 0,
        bounce_out(1_000_000) == 1_000_000,
{
    assert(cube(0) == 0);
    assert(square(0) == 0);
    assert(square(1_000_000) == 1_000_000_000_000) by (nonlinear_arith);
}

/// The cubic curve stays within the fraction range, below the half in the
/// first half of the way and at or above it in the second.
pub proof fn law_cubic_in_range(p: int)
    requires
        0 <= p <= 1_000_000,
    ensures
        0 <= cubic_in_out(p) <= 1_000_000,
        2 * p < 1_000_000 ==> cubic_in_out(p) < 500_000,
        2 * p >= 1_000_000 ==> cubic_in_out(p) >= 500_000,
{
    if 2 * p < 1_000_000 {
        lemma_cube_bounds(p, 499_999);
        assert(cube(p) <= 499_999 * 499_999 * 499_999);
    } else {
        let q = 2_000_000 - 2 * p;
        lemma_cube_bounds(q, 1_000_000);
    }
}

/// The bouncing curve stays within the fraction range.
pub proof fn law_bounce_in_range(p: int)
    requires
        0 <= p <= 1_000_000,
    ensures
        0 <= bounce_out(p) <= 1_000_000,
{
    if 11 * p < 4_000_000 {
        lemma_square_bounds(p, 363_636);
    } else if 11 * p < 8_000_000 {
        let d = 11 * p - 6_000_000;
        lemma_square_either_sign(d);
        if d >= 0 {
            lemma_square_bounds(d, 2_000_000);
        } else {
            lemma_square_bounds(-d, 2_000_000);
        }
    } else if 11 * p < 10_000_000 {
        let d = 11 * p - 9_000_000;
        lemma_square_either_sign(d);
        if d >= 0 {
            lemma_square_bounds(d, 1_000_000);
        } else {
            lemma_square_bounds(-d, 1_000_000);
        }
    } else {
        let d = 22 * p - 21_000_000;
        lemma_square_either_sign(d);
        if d >= 0 {
            lemma_square_bounds(d, 1_000_000);
        } else {
            lemma_square_bounds(-d, 1_000_000);
        }
    }
}

} // verus!
