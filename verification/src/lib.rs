//! Degree-based trigonometry with exact results at quadrant-aligned angles.
//!
//! Naive degree trigonometry converts to radians and calls the platform
//! primitives, which yields small rounding errors even at angles such as
//! 180 degrees, where the true sine is exactly zero.  The remedy is to
//! detect angles that reduce to an exact integer multiple of 90 degrees and
//! answer those from a fixed table of integers instead.  That detection and
//! lookup is pure integer arithmetic, and this crate verifies it: the table,
//! the reduction of a quarter-turn count into the table's range, and the
//! exact sine and cosine at any quadrant-aligned angle.
//!
//! Floating point lies outside what Verus reasons about, so the
//! floating-point shell — remainder by 360, the alignment test, and the
//! radian fallback for unaligned angles — lives with the callers of this
//! crate, behind the [`DegreeTrigonomeric`] trait declared here.  Every
//! quadrant-aligned answer such a shell returns comes from the verified
//! lookup below.

use vstd::prelude::*;

verus! {

use vstd::arithmetic::div_mod::{
    lemma_fundamental_div_mod,
    lemma_fundamental_div_mod_converse_mod,
    lemma_mod_multiples_vanish,
};

/// Trigonometric operations over angles measured in degrees.
///
/// Implementations instantiate one floating-point width per impl, so they
/// cannot be written inside this verified crate; unverified shells implement
/// the trait on top of [`sin_n90`], which supplies the exact quadrant-aligned
/// values.
pub trait DegreeTrigonomeric {
    /// Sine of `self` degrees: exactly -1, 0 or 1 when `self` reduces to a
    /// multiple of 90 degrees, the radian primitive's answer otherwise.
    fn sin_degree(self) -> Self;

    /// Cosine of `self` degrees, as `sin_degree` of `90 - self`.
    fn cos_degree(self) -> Self;

    /// Angle of the vector `(other, self)` in degrees, in (-180, 180].
    fn atan2_degree(self, other: Self) -> Self;
}

/// The exact sine at `n` quarter turns, that is at the angle `90 * n`
/// degrees: the four-periodic pattern 0, 1, 0, -1.
pub open spec fn sin_quarter(n: int) -> int {
    if n % 4 == 0 {
        0
    } else if n % 4 == 1 {
        1
    } else if n % 4 == 2 {
        0
    } else {
        -1
    }
}

/// The exact cosine at `n` quarter turns, through the complement identity
/// cos(theta) = sin(90 degrees - theta).
pub open spec fn cos_quarter(n: int) -> int {
    sin_quarter(1 - n)
}

/// The fixed lookup table behind [`sin_n90`]: entry `i` holds the sine at
/// `i - 4` quarter turns, for offsets -4 through 6.
pub open spec fn quadrant_table() -> Seq<int> {
    seq![0, 1, 0, -1, 0, 1, 0, -1, 0, 1, 0]
}

/// The table invariant: every entry agrees with the sine pattern at its
/// offset, `quadrant_table()[i] == sin_quarter(i - 4)`.
pub proof fn lemma_table_matches_pattern(i: int)
    requires
        0 <= i < 11,
    ensures
        quadrant_table()[i] == sin_quarter(i - 4),
{
}

/// The sine at `n` quarter turns, read from [`quadrant_table`].  The bound
/// on `n` is the table's index range; the reduction in
/// [`sin_quadrant_aligned`] keeps every caller inside it.
pub fn sin_n90(n: isize) -> (r: isize)
    requires
        -4 <= n <= 6,
    ensures
        r == quadrant_table()[n + 4],
        r == sin_quarter(n as int),
{
    proof {
        lemma_table_matches_pattern(n + 4);
    }
    if n == -4 {
        0
    } else if n == -3 {
        1
    } else if n == -2 {
        0
    } else if n == -1 {
        -1
    } else if n == 0 {
        0
    } else if n == 1 {
        1
    } else if n == 2 {
        0
    } else if n == 3 {
        -1
    } else if n == 4 {
        0
    } else if n == 5 {
        1
    } else {
        0
    }
}

/// Reduces a quarter-turn count to its residue modulo one full turn (four
/// quarters), the integer analogue of reducing an angle modulo 360 degrees.
/// The residue lands in 0..4, inside the table's index range.
pub fn reduce_quarter_turns(n: isize) -> (m: isize)
    ensures
        0 <= m < 4,
        m == (n as int) % 4,
{
    if n >= 0 {
        ((n as u64) % 4) as isize
    } else {
        let p: u64 = (-(n + 1)) as u64;
        let m: isize = (3 - p % 4) as isize;
        proof {
            let q = (p as int) / 4;
            let s = (p as int) % 4;
            lemma_fundamental_div_mod(p as int, 4);
            assert(n as int == (-q - 1) * 4 + (3 - s)) by (nonlinear_arith)
                requires
                    p == q * 4 + s,
                    n == -(p as int) - 1,
            ;
            lemma_fundamental_div_mod_converse_mod(n as int, 4, -q - 1, 3 - s);
        }
        m
    }
}

/// The exact sine at the quadrant-aligned angle `90 * n` degrees, for any
/// quarter-turn count `n`: reduce modulo one full turn, then read the table.
pub fn sin_quadrant_aligned(n: isize) -> (r: isize)
    ensures
        r == sin_quarter(n as int),
{
    let m = reduce_quarter_turns(n);
    proof {
        lemma_sin_quarter_congruent(m as int, n as int);
    }
    sin_n90(m)
}

/// The exact cosine at the quadrant-aligned angle `90 * n` degrees, as the
/// sine at `1 - n` quarter turns.
pub fn cos_quadrant_aligned(n: isize) -> (r: isize)
    ensures
        r == cos_quarter(n as int),
{
    let m = reduce_quarter_turns(n);
    proof {
        lemma_fundamental_div_mod(n as int, 4);
        lemma_mod_multiples_vanish(-((n as int) / 4), 1 - n, 4);
        lemma_sin_quarter_congruent(1 - m as int, 1 - n as int);
    }
    sin_n90(1 - m)
}

/// Two quarter-turn counts with the same residue modulo a full turn have
/// the same sine.
pub proof fn lemma_sin_quarter_congruent(a: int, b: int)
    requires
        a % 4 == b % 4,
    ensures
        sin_quarter(a) == sin_quarter(b),
{
}

/// The sine at a quadrant-aligned angle is exactly one of -1, 0 and 1.
pub proof fn lemma_sin_quarter_unit(n: int)
    ensures
        sin_quarter(n) == -1 || sin_quarter(n) == 0 || sin_quarter(n) == 1,
{
}

/// Periodicity: one full turn (four quarters, 360 degrees) leaves the sine
/// unchanged.
pub proof fn lemma_sin_quarter_periodic(n: int)
    ensures
        sin_quarter(n + 4) == sin_quarter(n),
{
    lemma_mod_multiples_vanish(1, n, 4);
}

/// The complement identity that defines the cosine here: the cosine at `n`
/// quarter turns is the sine at `1 - n` quarter turns, the quadrant-aligned
/// form of cos(a) = sin(90 degrees - a).
pub proof fn lemma_cos_complement(n: int)
    ensures
        cos_quarter(n) == sin_quarter(1 - n),
{
}

} // verus!
