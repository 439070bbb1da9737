//! Plane geometry helpers: 2D vectors, the arena rectangle with its named
//! anchor points, and scalar clamping. Coordinates are milliunits.

use vstd::prelude::*;

verus! {

/// Largest coordinate magnitude the world ever uses, in milliunits
/// (two million world units): keeps every anchor computation inside `i64`.
pub const COORD_LIMIT: i64 = 2_000_000_000;

/// A point or displacement of the plane, in milliunits.
#[derive(Clone, Copy, PartialEq, Eq, Structural, Debug)]
pub struct Vec2 {
    pub x: i64,
    pub y: i64,
}

/// An axis-aligned rectangle given by its bottom-left corner and its extent,
/// in milliunits. The arena keeps `w > 0` and `h > 0`.
#[derive(Clone, Copy, PartialEq, Eq, Structural, Debug)]
pub struct Rectangle {
    pub x: i64,
    pub y: i64,
    pub w: i64,
    pub h: i64,
}

impl Rectangle {
    /// Positive extent, with every coordinate small enough that anchor
    /// arithmetic stays inside `i64`.
    pub open spec fn wf(self) -> bool {
        &&& 0 < self.w <= COORD_LIMIT
        &&& 0 < self.h <= COORD_LIMIT
        &&& -COORD_LIMIT <= self.x <= COORD_LIMIT
        &&& -COORD_LIMIT <= self.y <= COORD_LIMIT
    }

    pub fn left(self: &Self) -> (r: i64)
        ensures
            r == self.x,
    {
        self.x
    }

    pub fn right(self: &Self) -> (r: i64)
        requires
            self.wf(),
        ensures
            r == self.x + self.w,
    {
        self.x + self.w
    }

    pub fn top(self: &Self) -> (r: i64)
        requires
            self.wf(),
        ensures
            r == self.y + self.h,
    {
        self.y + self.h
    }

    pub fn bottom(self: &Self) -> (r: i64)
        ensures
            r == self.y,
    {
        self.y
    }

    pub fn top_left(self: &Self) -> (r: Vec2)
        requires
            self.wf(),
        ensures
            r.x == self.x,
            r.y == self.y + self.h,
    {
        Vec2 { x: self.left(), y: self.top() }
    }

    pub fn bottom_left(self: &Self) -> (r: Vec2)
        requires
            self.wf(),
        ensures
            r.x == self.x,
            r.y == self.y,
    {
        Vec2 { x: self.left(), y: self.bottom() }
    }

    pub fn top_right(self: &Self) -> (r: Vec2)
        requires
            self.wf(),
        ensures
            r.x == self.x + self.w,
            r.y == self.y + self.h,
    {
        Vec2 { x: self.right(), y: self.top() }
    }

    pub fn bottom_right(self: &Self) -> (r: Vec2)
        requires
            self.wf(),
        ensures
            r.x == self.x + self.w,
            r.y == self.y,
    {
        Vec2 { x: self.right(), y: self.bottom() }
    }

    pub fn top_middle(self: &Self) -> (r: Vec2)
        requires
            self.wf(),
        ensures
            r.x == (2 * self.x + self.w) / 2,
            r.y == self.y + self.h,
    {
        Vec2 { x: midpoint(self.left(), self.right()), y: self.top() }
    }

    pub fn bottom_middle(self: &Self) -> (r: Vec2)
        requires
            self.wf(),
        ensures
            r.x == (2 * self.x + self.w) / 2,
            r.y == self.y,
    {
        Vec2 { x: midpoint(self.left(), self.right()), y: self.bottom() }
    }

    pub fn left_middle(self: &Self) -> (r: Vec2)
        requires
            self.wf(),
        ensures
            r.x == self.x,
            r.y == (2 * self.y + self.h) / 2,
    {
        Vec2 { x: self.left(), y: midpoint(self.bottom(), self.top()) }
    }

    pub fn right_middle(self: &Self) -> (r: Vec2)
        requires
            self.wf(),
        ensures
            r.x == self.x + self.w,
            r.y == (2 * self.y + self.h) / 2,
    {
        Vec2 { x: self.right(), y: midpoint(self.bottom(), self.top()) }
    }
}

/// Largest extent of the arena and magnitude of its corners, in milliunits.
pub const ARENA_LIMIT: i64 = 400_000_000;

/// Largest position magnitude a live entity may reach, in milliunits.
pub const POS_LIMIT: i64 = 450_000_000;

/// An arena rectangle: well formed and small enough that positions near it
/// stay within `POS_LIMIT` and every difference of positions within the
/// range the speed projection accepts.
pub open spec fn arena_ok(r: Rectangle) -> bool {
    &&& r.wf()
    &&& -ARENA_LIMIT <= r.x
    &&& -ARENA_LIMIT <= r.y
    &&& r.x + r.w <= ARENA_LIMIT
    &&& r.y + r.h <= ARENA_LIMIT
}

/// Both coordinates of a position within `POS_LIMIT`.
pub open spec fn pos_in_range(v: Vec2) -> bool {
    &&& -POS_LIMIT <= v.x <= POS_LIMIT
    &&& -POS_LIMIT <= v.y <= POS_LIMIT
}

/// Midpoint of two coordinates, rounded toward negative infinity.
fn midpoint(a: i64, b: i64) -> (r: i64)
    requires
        -4_000_000_000 <= a <= 4_000_000_000,
        -4_000_000_000 <= b <= 4_000_000_000,
    ensures
        r == (a + b) / 2,
{
    let s: i64 = a + b;
    if s >= 0 {
        let r: i64 = ((s as u64) / 2) as i64;
        r
    } else {
        let n: u64 = (-s) as u64;
        let half: i64 = ((n + 1) / 2) as i64;
        let r: i64 = -half;
        proof {
            lemma_neg_half(s as int);
        }
        r
    }
}

/// Flooring halves of a negative number: `s / 2 == -((-s + 1) / 2)`.
proof fn lemma_neg_half(s: int)
    requires
        s < 0,
    ensures
        s / 2 == -((-s + 1) / 2),
{
    let q = (-s + 1) / 2;
    let r = (-s + 1) % 2;
    vstd::arithmetic::div_mod::lemma_fundamental_div_mod(-s + 1, 2);
    assert(s == -(2 * q + r) + 1);
    if r == 0 {
        assert(s == 2 * (-q) + 1);
        assert(s / 2 == -q) by {
            vstd::arithmetic::div_mod::lemma_fundamental_div_mod_converse(s, 2, -q, 1);
        }
    } else {
        assert(r == 1);
        assert(s == 2 * (-q));
        assert(s / 2 == -q) by {
            vstd::arithmetic::div_mod::lemma_fundamental_div_mod_converse(s, 2, -q, 0);
        }
    }
}

/// The value held to the closed interval `[min, max]`.
pub fn clamp(val: i64, min: i64, max: i64) -> (r: i64)
    ensures
        r == spec_clamp(val as int, min as int, max as int),
{
    if val < min {
        min
    } else if val > max {
        max
    } else {
        val
    }
}

/// What `clamp` returns.
pub open spec fn spec_clamp(val: int, min: int, max: int) -> int {
    if val < min {
        min
    } else if val > max {
        max
    } else {
        val
    }
}

} // verus!
