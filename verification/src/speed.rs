//! The constant-speed projection: rescale a velocity to a target magnitude
//! while keeping its direction. This is the rule that keeps every ball at its
//! exact speed despite the collision responses of the external engine.

use vstd::prelude::*;

use crate::num::isqrt;
use crate::num::lemma_sqrt_floor_bounds;
use crate::num::lemma_sqrt_floor_unique;
use crate::num::sqrt_floor;
use crate::util::Vec2;

verus! {

/// Largest coordinate magnitude a position or velocity may carry, in
/// milliunits: keeps squared norms inside the range `isqrt` accepts.
pub const VEC_LIMIT: i64 = 1_000_000_000;

/// Largest target speed the projection accepts, in milliunits per second.
pub const MAX_PROJECT_SPEED: u64 = 800_000;

/// Both coordinates within `VEC_LIMIT`.
pub open spec fn vec_in_range(v: Vec2) -> bool {
    &&& -VEC_LIMIT <= v.x <= VEC_LIMIT
    &&& -VEC_LIMIT <= v.y <= VEC_LIMIT
}

/// Squared Euclidean norm.
pub open spec fn norm_sq(v: Vec2) -> int {
    v.x * v.x + v.y * v.y
}

/// Measured magnitude of a vector: the flooring square root of its
/// squared norm.
pub open spec fn dir_len(v: Vec2) -> nat {
    sqrt_floor(norm_sq(v) as nat)
}

/// One coordinate scaled by `s / l`, with the quotient floored on the
/// magnitude so that the result keeps the coordinate's sign.
pub open spec fn scaled_coord(c: int, s: int, l: int) -> int {
    if c >= 0 {
        (c * s) / l
    } else {
        -(((-c) * s) / l)
    }
}

/// What the projection returns: the zero vector is kept (its direction is
/// undefined), any other vector is rescaled toward magnitude `s`.
pub open spec fn spec_project(v: Vec2, s: int) -> (int, int) {
    if v.x == 0 && v.y == 0 {
        (0, 0)
    } else {
        (
            scaled_coord(v.x as int, s, dir_len(v) as int),
            scaled_coord(v.y as int, s, dir_len(v) as int),
        )
    }
}

/// A squared norm is never negative.
pub proof fn lemma_norm_sq_nonneg(v: Vec2)
    ensures
        norm_sq(v) >= 0,
        v.x == 0 && v.y == 0 <==> norm_sq(v) == 0,
{
    assert(norm_sq(v) >= 0 && (v.x == 0 && v.y == 0 <==> norm_sq(v) == 0)) by (nonlinear_arith);
}

/// The projection never overshoots the target speed on either coordinate.
pub proof fn lemma_project_bounds(v: Vec2, s: int)
    requires
        1 <= s <= MAX_PROJECT_SPEED,
        vec_in_range(v),
    ensures
        ({
            let (x, y) = spec_project(v, s);
            -s <= x <= s && -s <= y <= s
        }),
{
    if v.x == 0 && v.y == 0 {
    } else {
        lemma_norm_sq_nonneg(v);
        let a = if v.x >= 0 { v.x as int } else { -(v.x as int) };
        let b = if v.y >= 0 { v.y as int } else { -(v.y as int) };
        assert(a * a + b * b == norm_sq(v)) by (nonlinear_arith)
            requires
                a == if v.x >= 0 { v.x as int } else { -(v.x as int) },
                b == if v.y >= 0 { v.y as int } else { -(v.y as int) },
        ;
        let l = dir_len(v) as int;
        lemma_sqrt_floor_bounds(norm_sq(v) as nat);
        assert(l * l <= norm_sq(v) < (l + 1) * (l + 1));
        if l == 0 {
            assert((l + 1) * (l + 1) == 1) by (nonlinear_arith)
                requires
                    l == 0,
            ;
            assert(false);
        }
        assert(a <= l && b <= l) by (nonlinear_arith)
            requires
                a * a + b * b < (l + 1) * (l + 1),
                a >= 0,
                b >= 0,
                l >= 0,
        ;
        assert(a * s <= l * s && b * s <= l * s && 0 <= a * s && 0 <= b * s) by (nonlinear_arith)
            requires
                0 <= a <= l,
                0 <= b <= l,
                s >= 1,
        ;
        vstd::arithmetic::div_mod::lemma_multiply_divide_le(a * s, l, s);
        vstd::arithmetic::div_mod::lemma_multiply_divide_le(b * s, l, s);
        assert(l * s == s * l) by (nonlinear_arith);
        vstd::arithmetic::div_mod::lemma_div_pos_is_pos(a * s, l);
        vstd::arithmetic::div_mod::lemma_div_pos_is_pos(b * s, l);
    }
}

/// The projection leaves unchanged any vector whose measured magnitude is
/// already exactly the target speed: `sqrt_floor(norm_sq(w)) == s`.
pub proof fn lemma_project_fixed_on_band(w: Vec2, s: int)
    requires
        1 <= s,
        s * s <= norm_sq(w) < (s + 1) * (s + 1),
    ensures
        spec_project(w, s) == (w.x as int, w.y as int),
{
    lemma_norm_sq_nonneg(w);
    assert(s * s >= 1) by (nonlinear_arith)
        requires
            s >= 1,
    ;
    assert(!(w.x == 0 && w.y == 0));
    lemma_sqrt_floor_unique(norm_sq(w) as nat, s as nat);
    let l = dir_len(w) as int;
    assert(l == s);
    if w.x >= 0 {
        vstd::arithmetic::div_mod::lemma_div_by_multiple(w.x as int, s);
        assert(scaled_coord(w.x as int, s, l) == w.x);
    } else {
        vstd::arithmetic::div_mod::lemma_div_by_multiple(-(w.x as int), s);
        assert(scaled_coord(w.x as int, s, l) == w.x);
    }
    if w.y >= 0 {
        vstd::arithmetic::div_mod::lemma_div_by_multiple(w.y as int, s);
        assert(scaled_coord(w.y as int, s, l) == w.y);
    } else {
        vstd::arithmetic::div_mod::lemma_div_by_multiple(-(w.y as int), s);
        assert(scaled_coord(w.y as int, s, l) == w.y);
    }
}

/// Applying the projection to its own result returns that result unchanged,
/// whenever the first application lands at the target magnitude (a zero
/// input vector satisfies it trivially, both applications keeping it zero).
pub proof fn lemma_project_idempotent(v: Vec2, w: Vec2, s: int)
    requires
        1 <= s,
        (w.x as int, w.y as int) == spec_project(v, s),
        (v.x == 0 && v.y == 0) || (s * s <= norm_sq(w) < (s + 1) * (s + 1)),
    ensures
        spec_project(w, s) == (w.x as int, w.y as int),
{
    if v.x == 0 && v.y == 0 {
        assert(w.x == 0 && w.y == 0);
    } else {
        lemma_project_fixed_on_band(w, s);
    }
}

/// Constant speed, up to integer rounding: for an input of at least one
/// world unit per second, the projected vector's squared magnitude is at
/// most `s*s` plus one part in five hundred, and undershoots `s*s` by less
/// than `4*s + 2` (about two milliunits of magnitude).
pub proof fn lemma_project_magnitude(v: Vec2, s: int)
    requires
        1 <= s <= MAX_PROJECT_SPEED,
        vec_in_range(v),
        norm_sq(v) >= 1_000_000,
    ensures
        ({
            let (x, y) = spec_project(v, s);
            &&& 500 * (x * x + y * y) <= 501 * (s * s)
            &&& x * x + y * y > s * s - 4 * s - 2
        }),
{
    lemma_norm_sq_nonneg(v);
    assert(!(v.x == 0 && v.y == 0));
    let a = if v.x >= 0 { v.x as int } else { -(v.x as int) };
    let b = if v.y >= 0 { v.y as int } else { -(v.y as int) };
    let nsq = norm_sq(v);
    assert(a * a + b * b == nsq) by (nonlinear_arith)
        requires
            a == if v.x >= 0 { v.x as int } else { -(v.x as int) },
            b == if v.y >= 0 { v.y as int } else { -(v.y as int) },
            nsq == v.x * v.x + v.y * v.y,
    ;
    let l = dir_len(v) as int;
    lemma_sqrt_floor_bounds(nsq as nat);
    assert(l * l <= nsq < (l + 1) * (l + 1));
    assert(l >= 1000) by (nonlinear_arith)
        requires
            nsq < (l + 1) * (l + 1),
            nsq >= 1_000_000,
            l >= 0,
    ;
    let c = (a * s) / l;
    let d = (b * s) / l;
    let (x, y) = spec_project(v, s);
    assert(x == scaled_coord(v.x as int, s, l) && y == scaled_coord(v.y as int, s, l));
    assert(x * x == c * c && y * y == d * d) by (nonlinear_arith)
        requires
            x == if v.x >= 0 { c } else { -c },
            y == if v.y >= 0 { d } else { -d },
    ;
    assert(a * s >= 0 && b * s >= 0) by (nonlinear_arith)
        requires
            a >= 0,
            b >= 0,
            s >= 1,
    ;
    vstd::arithmetic::div_mod::lemma_fundamental_div_mod(a * s, l);
    vstd::arithmetic::div_mod::lemma_fundamental_div_mod(b * s, l);
    vstd::arithmetic::div_mod::lemma_mod_division_less_than_divisor(a * s, l);
    vstd::arithmetic::div_mod::lemma_mod_division_less_than_divisor(b * s, l);
    vstd::arithmetic::div_mod::lemma_div_pos_is_pos(a * s, l);
    vstd::arithmetic::div_mod::lemma_div_pos_is_pos(b * s, l);
    assert(c * l <= a * s < (c + 1) * l) by (nonlinear_arith)
        requires
            a * s == l * c + (a * s) % l,
            0 <= (a * s) % l < l,
    ;
    assert(d * l <= b * s < (d + 1) * l) by (nonlinear_arith)
        requires
            b * s == l * d + (b * s) % l,
            0 <= (b * s) % l < l,
    ;
    assert(a * a + b * b <= l * l + 2 * l) by (nonlinear_arith)
        requires
            a * a + b * b < (l + 1) * (l + 1),
    ;
    // Upper bound: (c*c + d*d) * l * l <= (a*a + b*b) * s * s <= (l*l + 2*l) * s * s.
    assert((c * c + d * d) * (l * l) <= (l * l + 2 * l) * (s * s)) by (nonlinear_arith)
        requires
            0 <= c * l <= a * s,
            0 <= d * l <= b * s,
            a * a + b * b <= l * l + 2 * l,
            c >= 0,
            d >= 0,
            l >= 1,
            s >= 1,
            a >= 0,
            b >= 0,
    ;
    assert(500 * (c * c + d * d) <= 501 * (s * s)) by (nonlinear_arith)
        requires
            (c * c + d * d) * (l * l) <= (l * l + 2 * l) * (s * s),
            l >= 1000,
            s >= 1,
            c >= 0,
            d >= 0,
    ;
    // Lower bound: l*l*s*s <= (a*a + b*b)*s*s < ((c+1)^2 + (d+1)^2) * l * l.
    assert((a * s) * (a * s) < ((c + 1) * (c + 1)) * (l * l)) by (nonlinear_arith)
        requires
            0 <= a * s < (c + 1) * l,
            l >= 1,
            c >= 0,
    ;
    assert((b * s) * (b * s) < ((d + 1) * (d + 1)) * (l * l)) by (nonlinear_arith)
        requires
            0 <= b * s < (d + 1) * l,
            l >= 1,
            d >= 0,
    ;
    assert((a * s) * (a * s) + (b * s) * (b * s) == (a * a + b * b) * (s * s))
        by (nonlinear_arith);
    assert((l * l) * (s * s) <= (a * a + b * b) * (s * s)) by (nonlinear_arith)
        requires
            l * l <= a * a + b * b,
    ;
    assert((l * l) * (s * s) < ((c + 1) * (c + 1) + (d + 1) * (d + 1)) * (l * l))
        by (nonlinear_arith)
        requires
            (l * l) * (s * s) <= (a * a + b * b) * (s * s),
            (a * s) * (a * s) + (b * s) * (b * s) == (a * a + b * b) * (s * s),
            (a * s) * (a * s) < ((c + 1) * (c + 1)) * (l * l),
            (b * s) * (b * s) < ((d + 1) * (d + 1)) * (l * l),
    ;
    assert(s * s < (c + 1) * (c + 1) + (d + 1) * (d + 1)) by (nonlinear_arith)
        requires
            (l * l) * (s * s) < ((c + 1) * (c + 1) + (d + 1) * (d + 1)) * (l * l),
            l >= 1,
    ;
    assert(a <= l && b <= l) by (nonlinear_arith)
        requires
            a * a + b * b < (l + 1) * (l + 1),
            a >= 0,
            b >= 0,
            l >= 0,
    ;
    assert(a * s <= l * s && b * s <= l * s) by (nonlinear_arith)
        requires
            a <= l,
            b <= l,
            s >= 1,
    ;
    vstd::arithmetic::div_mod::lemma_multiply_divide_le(a * s, l, s);
    vstd::arithmetic::div_mod::lemma_multiply_divide_le(b * s, l, s);
    assert(l * s == s * l) by (nonlinear_arith);
    assert(c <= s && d <= s);
    assert(c * c + d * d > s * s - 4 * s - 2) by (nonlinear_arith)
        requires
            s * s < (c + 1) * (c + 1) + (d + 1) * (d + 1),
            c <= s,
            d <= s,
            c >= 0,
            d >= 0,
    ;
}

/// Magnitude of a bounded coordinate.
fn abs_mag(x: i64) -> (r: u64)
    requires
        -VEC_LIMIT <= x <= VEC_LIMIT,
    ensures
        r == if x >= 0 {
            x as int
        } else {
            -(x as int)
        },
        r <= VEC_LIMIT,
{
    if x >= 0 {
        x as u64
    } else {
        (-x) as u64
    }
}

/// Rescale `v` toward magnitude `s`, keeping its direction. A zero vector is
/// returned unchanged: its direction is undefined, and nothing else would be
/// a deterministic choice.
pub fn project_to_speed(v: Vec2, s: u64) -> (r: Vec2)
    requires
        1 <= s <= MAX_PROJECT_SPEED,
        vec_in_range(v),
    ensures
        (r.x as int, r.y as int) == spec_project(v, s as int),
        -(s as int) <= r.x <= s as int,
        -(s as int) <= r.y <= s as int,
{
    if v.x == 0 && v.y == 0 {
        return Vec2 { x: 0, y: 0 };
    }
    let ax: u64 = abs_mag(v.x);
    let ay: u64 = abs_mag(v.y);
    proof {
        assert(ax * ax == v.x * v.x && ay * ay == v.y * v.y && ax * ax
            <= 1_000_000_000_000_000_000 && ay * ay <= 1_000_000_000_000_000_000)
            by (nonlinear_arith)
            requires
                ax == if v.x >= 0 { v.x as int } else { -(v.x as int) },
                ay == if v.y >= 0 { v.y as int } else { -(v.y as int) },
                ax <= VEC_LIMIT,
                ay <= VEC_LIMIT,
        ;
    }
    let nsq: u64 = ax * ax + ay * ay;
    let l: u64 = isqrt(nsq);
    proof {
        assert(nsq == norm_sq(v));
        lemma_norm_sq_nonneg(v);
        assert(nsq >= 1);
        assert(l == dir_len(v));
        if l == 0 {
            lemma_sqrt_floor_bounds(nsq as nat);
            assert(false);
        }
        assert(ax <= l && ay <= l) by (nonlinear_arith)
            requires
                ax * ax + ay * ay < (l + 1) * (l + 1),
                ax >= 0,
                ay >= 0,
                l >= 0,
        ;
        assert(l <= 2_000_000_000) by {
            lemma_sqrt_floor_bounds(nsq as nat);
            assert(l * l <= nsq);
            assert(l <= 2_000_000_000) by (nonlinear_arith)
                requires
                    l * l <= nsq,
                    nsq <= 2_000_000_000_000_000_000,
                    l >= 0,
            ;
        }
        assert(ax * s <= l * s && ay * s <= l * s && l * s <= 1_600_000_000_000_000)
            by (nonlinear_arith)
            requires
                ax <= l,
                ay <= l,
                l <= 2_000_000_000,
                1 <= s <= MAX_PROJECT_SPEED,
        ;
        vstd::arithmetic::div_mod::lemma_multiply_divide_le(ax * s, l as int, s as int);
        vstd::arithmetic::div_mod::lemma_multiply_divide_le(ay * s, l as int, s as int);
        assert(l * s == s * l) by (nonlinear_arith);
    }
    let px: u64 = (ax * s) / l;
    let py: u64 = (ay * s) / l;
    let rx: i64 = if v.x >= 0 {
        px as i64
    } else {
        -(px as i64)
    };
    let ry: i64 = if v.y >= 0 {
        py as i64
    } else {
        -(py as i64)
    };
    Vec2 { x: rx, y: ry }
}

} // verus!
