use vstd::arithmetic::div_mod::{lemma_fundamental_div_mod, lemma_mod_multiples_basic};
use vstd::prelude::*;

verus! {

/// One angle unit is a millionth of a degree.
pub const UNITS_PER_DEGREE: i64 = 1_000_000;

/// A quarter turn (90 degrees, pi / 2).
pub const QUARTER_TURN: i64 = 90_000_000;

/// Half a turn (180 degrees, pi).
pub const HALF_TURN: i64 = 180_000_000;

/// A full turn (360 degrees, 2 pi).
pub const FULL_TURN: i64 = 360_000_000;

/// The signed difference `b - a`, brought into `(-HALF_TURN, HALF_TURN]` by
/// whole turns.
pub open spec fn angle_diff(a: int, b: int) -> int {
    let r = (b - a) % (FULL_TURN as int);
    if r > HALF_TURN {
        r - FULL_TURN
    } else {
        r
    }
}

/// `x` limited to `[lo, hi]`.
pub open spec fn clamp(x: int, lo: int, hi: int) -> int {
    if x < lo {
        lo
    } else if x > hi {
        hi
    } else {
        x
    }
}

/// Two angles name the same direction.
pub open spec fn same_direction(a: int, b: int) -> bool {
    (a - b) % (FULL_TURN as int) == 0
}

/// The angle that a link takes when it wants to point at `desired` but may
/// turn at most `limit` away from `reference`.
pub open spec fn constrained(reference: int, desired: int, limit: int) -> int {
    reference + clamp(angle_diff(reference, desired), -limit, limit)
}

/// `angle_diff` lies in `(-HALF_TURN, HALF_TURN]` and differs from `b - a` by
/// whole turns.
pub proof fn lemma_angle_diff_basics(a: int, b: int)
    ensures
        -HALF_TURN < angle_diff(a, b) <= HALF_TURN,
        same_direction(angle_diff(a, b), b - a),
{
    let f = FULL_TURN as int;
    let d = b - a;
    lemma_fundamental_div_mod(d, f);
    let q = d / f;
    if d % f > HALF_TURN {
        lemma_mod_multiples_basic(-(q + 1), f);
        assert(angle_diff(a, b) - d == -(q + 1) * f) by (nonlinear_arith)
            requires
                d == f * q + d % f,
                angle_diff(a, b) == d % f - f,
        ;
    } else {
        lemma_mod_multiples_basic(-q, f);
        assert(angle_diff(a, b) - d == -q * f) by (nonlinear_arith)
            requires
                d == f * q + d % f,
                angle_diff(a, b) == d % f,
        ;
    }
}

/// A difference already in `(-HALF_TURN, HALF_TURN]` is its own normal form.
pub proof fn lemma_angle_diff_small(a: int, c: int)
    requires
        -HALF_TURN < c <= HALF_TURN,
    ensures
        angle_diff(a, a + c) == c,
{
    let f = FULL_TURN as int;
    if c >= 0 {
        assert(c % f == c);
    } else {
        lemma_fundamental_div_mod(c, f);
        assert(c % f == c + f) by {
            lemma_mod_multiples_basic(1, f);
            assert((c + f) % f == c + f);
            vstd::arithmetic::div_mod::lemma_mod_add_multiples_vanish(c, f);
        }
    }
}

/// The difference depends on the directions alone: whole turns added to
/// either angle do not change it.
pub proof fn lemma_angle_diff_congruent(a: int, b: int, a2: int, b2: int)
    requires
        same_direction(a, a2),
        same_direction(b, b2),
    ensures
        angle_diff(a, b) == angle_diff(a2, b2),
{
    let f = FULL_TURN as int;
    lemma_fundamental_div_mod(b - b2, f);
    lemma_fundamental_div_mod(a - a2, f);
    let k = (b - b2) / f;
    let l = (a - a2) / f;
    assert(b - a == (b2 - a2) + (k - l) * f) by (nonlinear_arith)
        requires
            b - b2 == f * k + (b - b2) % f,
            (b - b2) % f == 0,
            a - a2 == f * l + (a - a2) % f,
            (a - a2) % f == 0,
    ;
    vstd::arithmetic::div_mod::lemma_mod_multiples_vanish(k - l, b2 - a2, f);
}

/// A link that already points where it is measured, and that keeps within
/// the limit of a parent whose direction has not changed, keeps its
/// direction.
pub proof fn lemma_unmoved_link(
    reference: int,
    old_reference: int,
    current: int,
    desired: int,
    limit: int,
)
    requires
        same_direction(reference, old_reference),
        same_direction(desired, current),
        -limit <= angle_diff(old_reference, current) <= limit,
    ensures
        same_direction(constrained(reference, desired, limit), current),
{
    lemma_angle_diff_congruent(reference, desired, old_reference, current);
    lemma_angle_diff_basics(old_reference, current);
    let c = angle_diff(old_reference, current);
    let f = FULL_TURN as int;
    assert(constrained(reference, desired, limit) == reference + c);
    // reference + c - current == (reference - old_reference) + (c - (current - old_reference))
    lemma_fundamental_div_mod(reference - old_reference, f);
    lemma_fundamental_div_mod(c - (current - old_reference), f);
    let k = (reference - old_reference) / f;
    let l = (c - (current - old_reference)) / f;
    assert(reference + c - current == (k + l) * f) by (nonlinear_arith)
        requires
            reference - old_reference == f * k + (reference - old_reference) % f,
            (reference - old_reference) % f == 0,
            c - (current - old_reference) == f * l + (c - (current - old_reference)) % f,
            (c - (current - old_reference)) % f == 0,
    ;
    lemma_mod_multiples_basic(k + l, f);
}

/// The difference is antisymmetric up to whole turns, and it always lies in
/// `(-HALF_TURN, HALF_TURN]`; off the half-turn boundary it is exactly
/// antisymmetric.
pub proof fn lemma_angle_diff_antisymmetric(a: int, b: int)
    ensures
        same_direction(angle_diff(a, b), -angle_diff(b, a)),
        -HALF_TURN < angle_diff(a, b) <= HALF_TURN,
        angle_diff(a, b) != HALF_TURN ==> angle_diff(a, b) == -angle_diff(b, a),
{
    lemma_angle_diff_basics(a, b);
    lemma_angle_diff_basics(b, a);
    let x = angle_diff(a, b);
    let y = angle_diff(b, a);
    let f = FULL_TURN as int;
    // x + y is a whole number of turns, and lies in (-f, f].
    lemma_fundamental_div_mod(x - (b - a), f);
    lemma_fundamental_div_mod(y - (a - b), f);
    let k1 = (x - (b - a)) / f;
    let k2 = (y - (a - b)) / f;
    assert(x + y == (k1 + k2) * f) by (nonlinear_arith)
        requires
            x - (b - a) == f * k1 + (x - (b - a)) % f,
            y - (a - b) == f * k2 + (y - (a - b)) % f,
            (x - (b - a)) % f == 0,
            (y - (a - b)) % f == 0,
    ;
    assert(k1 + k2 == 0 || k1 + k2 == 1) by (nonlinear_arith)
        requires
            x + y == (k1 + k2) * f,
            -f < x + y <= f,
            f == 360_000_000,
    ;
    if k1 + k2 == 1 {
        assert(x + y == f);
        assert(x == HALF_TURN);
        assert(x - (-y) == f);
        assert(same_direction(x, -y)) by {
            lemma_mod_multiples_basic(1, f);
        }
    } else {
        assert(x == -y);
        assert(same_direction(x, -y));
    }
}

/// The signed difference `b - a`, in `(-HALF_TURN, HALF_TURN]`.
pub fn relative_angle_diff(a: i64, b: i64) -> (r: i64)
    ensures
        r == angle_diff(a as int, b as int),
        -HALF_TURN < r <= HALF_TURN,
        same_direction(r as int, b - a),
{
    proof {
        lemma_angle_diff_basics(a as int, b as int);
    }
    let d: i128 = b as i128 - a as i128;
    let m: i128 = match d.checked_rem_euclid(FULL_TURN as i128) {
        Some(m) => m,
        None => 0,
    };
    if m > HALF_TURN as i128 {
        (m - FULL_TURN as i128) as i64
    } else {
        m as i64
    }
}

/// Turns from `reference` toward `desired` by the shortest way, at most
/// `limit` units.
pub fn constrain_angle(reference: i64, desired: i64, limit: i64) -> (r: i64)
    requires
        0 <= limit,
        i64::MIN + HALF_TURN <= reference <= i64::MAX - HALF_TURN,
    ensures
        r == constrained(reference as int, desired as int, limit as int),
        -limit <= r - reference <= limit,
        -HALF_TURN < r - reference <= HALF_TURN,
        -limit <= angle_diff(reference as int, r as int) <= limit,
{
    let diff = relative_angle_diff(reference, desired);
    let c = if diff < -limit {
        -limit
    } else if diff > limit {
        limit
    } else {
        diff
    };
    proof {
        lemma_angle_diff_small(reference as int, c as int);
    }
    reference + c
}

} // verus!
