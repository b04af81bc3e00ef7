//! Integer 2D geometry: points, axis-aligned boxes, squared distances and an
//! integer square root. World coordinates are kept within a fixed bound so
//! that squared distances never overflow.

use vstd::prelude::*;

verus! {

/// Largest magnitude a world coordinate may have.
pub const WORLD_LIMIT: i64 = 1_000_000;

/// Largest magnitude a box corner may have: a box centred on an in-world
/// point may stick out of the world by up to its half extent.
pub const BOX_LIMIT: i64 = 2_000_000;

/// A point or extent in the 2D world, in whole world units.
#[derive(Clone, Copy, PartialEq, Eq, Structural, Debug)]
pub struct Vec2i {
    /// horizontal component
    pub x: i64,
    /// vertical component
    pub y: i64,
}

/// The componentwise sum of two points, as it lands in machine integers.
pub open spec fn v_add(a: Vec2i, b: Vec2i) -> Vec2i {
    Vec2i { x: (a.x + b.x) as i64, y: (a.y + b.y) as i64 }
}

/// An axis-aligned box given by its two extreme corners.
#[derive(Clone, Copy, PartialEq, Eq, Structural, Debug)]
pub struct Aabb {
    /// lower-left corner
    pub min: Vec2i,
    /// upper-right corner
    pub max: Vec2i,
}

/// True when a point lies within the world's coordinate bound.
pub open spec fn in_world(p: Vec2i) -> bool {
    -WORLD_LIMIT <= p.x <= WORLD_LIMIT && -WORLD_LIMIT <= p.y <= WORLD_LIMIT
}

/// True when the box is ordered and its corners lie within the box bound.
pub open spec fn aabb_ok(a: Aabb) -> bool {
    &&& a.min.x <= a.max.x
    &&& a.min.y <= a.max.y
    &&& -BOX_LIMIT <= a.min.x
    &&& -BOX_LIMIT <= a.min.y
    &&& a.max.x <= BOX_LIMIT
    &&& a.max.y <= BOX_LIMIT
}

/// The box of a rectangle of the given size centred on `center`; odd extents
/// lose their half unit to rounding.
pub open spec fn spec_rect_aabb(center: Vec2i, size: Vec2i) -> Aabb {
    Aabb {
        min: Vec2i { x: (center.x - size.x / 2) as i64, y: (center.y - size.y / 2) as i64 },
        max: Vec2i { x: (center.x + size.x / 2) as i64, y: (center.y + size.y / 2) as i64 },
    }
}

/// True for a rectangle size the world accepts.
pub open spec fn size_ok(size: Vec2i) -> bool {
    0 <= size.x <= WORLD_LIMIT && 0 <= size.y <= WORLD_LIMIT
}

/// Computes the box of a rectangle of the given size centred on `center`.
pub fn rect_aabb(center: Vec2i, size: Vec2i) -> (r: Aabb)
    requires
        in_world(center),
        size_ok(size),
    ensures
        r == spec_rect_aabb(center, size),
        aabb_ok(r),
{
    Aabb {
        min: Vec2i { x: center.x - size.x / 2, y: center.y - size.y / 2 },
        max: Vec2i { x: center.x + size.x / 2, y: center.y + size.y / 2 },
    }
}

/// The componentwise difference of two points, as it lands in machine
/// integers.
pub open spec fn v_sub(a: Vec2i, b: Vec2i) -> Vec2i {
    Vec2i { x: (a.x - b.x) as i64, y: (a.y - b.y) as i64 }
}

/// Subtracts two points whose difference stays in range.
pub fn vec_sub(a: Vec2i, b: Vec2i) -> (r: Vec2i)
    requires
        i64::MIN <= a.x - b.x <= i64::MAX,
        i64::MIN <= a.y - b.y <= i64::MAX,
    ensures
        r == v_sub(a, b),
        r.x == a.x - b.x,
        r.y == a.y - b.y,
{
    Vec2i { x: a.x - b.x, y: a.y - b.y }
}

/// Adds two points whose sum stays in range.
pub fn vec_add(a: Vec2i, b: Vec2i) -> (r: Vec2i)
    requires
        i64::MIN <= a.x + b.x <= i64::MAX,
        i64::MIN <= a.y + b.y <= i64::MAX,
    ensures
        r == v_add(a, b),
        r.x == a.x + b.x,
        r.y == a.y + b.y,
{
    Vec2i { x: a.x + b.x, y: a.y + b.y }
}

/// Squared Euclidean distance between two points.
pub open spec fn dist_sq(a: Vec2i, b: Vec2i) -> int {
    (a.x - b.x) * (a.x - b.x) + (a.y - b.y) * (a.y - b.y)
}

/// Computes the squared distance between two in-world points.
pub fn dist_sq_points(a: Vec2i, b: Vec2i) -> (d: u64)
    requires
        in_world(a),
        in_world(b),
    ensures
        d == dist_sq(a, b),
{
    let dx: i64 = a.x - b.x;
    let dy: i64 = a.y - b.y;
    assert(dx * dx + dy * dy <= 8_000_000_000_000i64 && dx * dx >= 0 && dy * dy >= 0)
        by (nonlinear_arith)
        requires
            -2_000_000 <= dx <= 2_000_000,
            -2_000_000 <= dy <= 2_000_000,
    ;
    (dx * dx + dy * dy) as u64
}

/// How far a value sits outside a closed interval, zero inside it.
pub open spec fn axis_gap(lo: int, hi: int, v: int) -> int {
    if v < lo {
        lo - v
    } else if v > hi {
        v - hi
    } else {
        0
    }
}

/// Squared distance from a point to the closed box: zero on and inside it.
pub open spec fn dist_sq_point_aabb(a: Aabb, p: Vec2i) -> int {
    axis_gap(a.min.x as int, a.max.x as int, p.x as int) * axis_gap(
        a.min.x as int,
        a.max.x as int,
        p.x as int,
    ) + axis_gap(a.min.y as int, a.max.y as int, p.y as int) * axis_gap(
        a.min.y as int,
        a.max.y as int,
        p.y as int,
    )
}

/// Computes the squared distance from an in-world point to a box.
pub fn point_aabb_dist_sq(a: &Aabb, p: Vec2i) -> (d: u64)
    requires
        aabb_ok(*a),
        in_world(p),
    ensures
        d == dist_sq_point_aabb(*a, p),
{
    let gx: i64 = if p.x < a.min.x {
        a.min.x - p.x
    } else if p.x > a.max.x {
        p.x - a.max.x
    } else {
        0
    };
    let gy: i64 = if p.y < a.min.y {
        a.min.y - p.y
    } else if p.y > a.max.y {
        p.y - a.max.y
    } else {
        0
    };
    assert(gx * gx + gy * gy <= 18_000_000_000_000i64 && gx * gx >= 0 && gy * gy >= 0)
        by (nonlinear_arith)
        requires
            0 <= gx <= 3_000_000,
            0 <= gy <= 3_000_000,
    ;
    (gx * gx + gy * gy) as u64
}

/// True when the point lies on or inside the box.
pub open spec fn aabb_contains(a: Aabb, p: Vec2i) -> bool {
    a.min.x <= p.x <= a.max.x && a.min.y <= p.y <= a.max.y
}

/// Tests whether the point lies on or inside the box.
pub fn aabb_contains_point(a: &Aabb, p: Vec2i) -> (r: bool)
    ensures
        r == aabb_contains(*a, p),
{
    a.min.x <= p.x && p.x <= a.max.x && a.min.y <= p.y && p.y <= a.max.y
}

/// True when the two boxes share interior area; boxes that merely touch along
/// an edge do not count.
pub open spec fn aabb_overlap_strict(a: Aabb, b: Aabb) -> bool {
    a.min.x < b.max.x && b.min.x < a.max.x && a.min.y < b.max.y && b.min.y < a.max.y
}

/// Tests whether the two boxes share interior area.
pub fn aabbs_overlap_strict(a: &Aabb, b: &Aabb) -> (r: bool)
    ensures
        r == aabb_overlap_strict(*a, *b),
{
    a.min.x < b.max.x && b.min.x < a.max.x && a.min.y < b.max.y && b.min.y < a.max.y
}

/// True when the two closed boxes intersect, touching edges included.
pub open spec fn aabb_overlap_closed(a: Aabb, b: Aabb) -> bool {
    a.min.x <= b.max.x && b.min.x <= a.max.x && a.min.y <= b.max.y && b.min.y <= a.max.y
}

/// Tests whether the two closed boxes intersect.
pub fn aabbs_overlap_closed(a: &Aabb, b: &Aabb) -> (r: bool)
    ensures
        r == aabb_overlap_closed(*a, *b),
{
    a.min.x <= b.max.x && b.min.x <= a.max.x && a.min.y <= b.max.y && b.min.y <= a.max.y
}

/// Division rounded toward zero, as machine division computes it.
pub open spec fn div_trunc(a: int, b: int) -> int {
    if a >= 0 {
        a / b
    } else {
        -((-a) / b)
    }
}

/// A value pushed into the closed interval `[lo, hi]`.
pub open spec fn spec_clamp(v: int, lo: int, hi: int) -> int {
    if v < lo {
        lo
    } else if v > hi {
        hi
    } else {
        v
    }
}

/// Pushes a value into the closed interval `[lo, hi]`.
pub fn clamp_i64(v: i64, lo: i64, hi: i64) -> (r: i64)
    requires
        lo <= hi,
    ensures
        r == spec_clamp(v as int, lo as int, hi as int),
{
    if v < lo {
        lo
    } else if v > hi {
        hi
    } else {
        v
    }
}

/// The square root of `n` rounded down, found by walking down from `r`.
pub open spec fn sqrt_from(n: nat, r: nat) -> nat
    decreases r,
{
    if r * r <= n {
        r
    } else if r == 0 {
        0
    } else {
        sqrt_from(n, (r - 1) as nat)
    }
}

/// The square root of `n` rounded down.
pub open spec fn sqrt_floor(n: nat) -> nat {
    sqrt_from(n, n)
}

/// Walking down from any point at or above the root finds the root.
proof fn lemma_sqrt_from_fixes(n: nat, r: nat, s: nat)
    requires
        r * r <= n,
        n < (r + 1) * (r + 1),
        r <= s,
    ensures
        sqrt_from(n, s) == r,
    decreases s,
{
    if s > r {
        assert(s * s >= (r + 1) * (r + 1)) by (nonlinear_arith)
            requires
                s >= r + 1,
        ;
        lemma_sqrt_from_fixes(n, r, (s - 1) as nat);
    }
}

/// The root is the unique value whose square brackets `n`.
pub proof fn lemma_sqrt_floor_unique(n: nat, r: nat)
    requires
        r * r <= n,
        n < (r + 1) * (r + 1),
    ensures
        sqrt_floor(n) == r,
{
    if r > 0 {
        assert(r <= r * r) by (nonlinear_arith)
            requires
                r >= 1,
        ;
    }
    lemma_sqrt_from_fixes(n, r, n);
}

/// Computes the integer square root: the largest `r` with `r * r <= n`.
pub fn isqrt(n: u64) -> (r: u64)
    ensures
        r * r <= n < (r + 1) * (r + 1),
        r == sqrt_floor(n as nat),
{
    let mut lo: u64 = 0;
    let mut hi: u64 = 4_294_967_295;
    proof {
        assert((hi + 1) * (hi + 1) > u64::MAX) by (nonlinear_arith)
            requires
                hi == 4_294_967_295u64,
        ;
    }
    while lo < hi
        invariant
            lo <= hi <= 4_294_967_295,
            lo * lo <= n,
            n < (hi + 1) * (hi + 1),
        decreases hi - lo,
    {
        let mid: u64 = lo + (hi - lo + 1) / 2;
        proof {
            assert(mid * mid <= 0xffff_fffe_0000_0001u128) by (nonlinear_arith)
                requires
                    mid <= 4_294_967_295u64,
            ;
        }
        let sq: u128 = (mid as u128) * (mid as u128);
        if sq <= n as u128 {
            lo = mid;
        } else {
            hi = mid - 1;
        }
    }
    proof {
        lemma_sqrt_floor_unique(n as nat, lo as nat);
    }
    lo
}

} // verus!
