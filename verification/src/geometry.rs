//! Points, boxes and the two geometric questions the rules ask: how far apart
//! two points are, and whether two boxes overlap.

use vstd::prelude::*;

verus! {

/// A point of the world, in whole world units.
#[derive(Clone, Copy, Debug, PartialEq, Eq, Structural)]
pub struct Position {
    pub x: i32,
    pub y: i32,
}

/// Width and height of an axis-aligned box, in whole world units.
#[derive(Clone, Copy, Debug, PartialEq, Eq, Structural)]
pub struct Size {
    pub width: u32,
    pub height: u32,
}

/// The point with the given coordinates, which must fit a [`Position`].
pub open spec fn point(x: int, y: int) -> Position {
    Position { x: x as i32, y: y as i32 }
}

/// The square of the straight-line distance between two points.
pub open spec fn distance_squared(a: Position, b: Position) -> int {
    (a.x - b.x) * (a.x - b.x) + (a.y - b.y) * (a.y - b.y)
}

/// Whether a distance `d` with `d * d == squared` satisfies `scale * d > reach`.
///
/// The comparison is made between squares, so no root is taken: a negative
/// `reach` is exceeded by every distance, and otherwise both sides are
/// non-negative and squaring keeps their order.
pub open spec fn exceeds(squared: int, scale: int, reach: int) -> bool {
    reach < 0 || scale * scale * squared > reach * reach
}

/// Whether the open intervals of half-widths `s1 / 2` and `s2 / 2` around the
/// centres `c1` and `c2` overlap, stated in doubled coordinates.
pub open spec fn spans_meet(c1: int, s1: int, c2: int, s2: int) -> bool {
    2 * c1 - s1 < 2 * c2 + s2 && 2 * c1 + s1 > 2 * c2 - s2
}

/// Whether two boxes, each given by its centre and size, intersect on both
/// axes.
pub open spec fn boxes_meet(a: Position, a_size: Size, b: Position, b_size: Size) -> bool {
    spans_meet(a.x as int, a_size.width as int, b.x as int, b_size.width as int)
        && spans_meet(a.y as int, a_size.height as int, b.y as int, b_size.height as int)
}

/// Computes the square of the distance between `a` and `b`.
pub fn squared_distance(a: Position, b: Position) -> (r: u128)
    ensures
        r == distance_squared(a, b),
        r <= 0x2_0000_0000_0000_0000,
{
    let dx: i64 = a.x as i64 - b.x as i64;
    let dy: i64 = a.y as i64 - b.y as i64;
    let ax: u128 = if dx < 0 {
        (-dx) as u128
    } else {
        dx as u128
    };
    let ay: u128 = if dy < 0 {
        (-dy) as u128
    } else {
        dy as u128
    };
    assert(ax * ax == dx * dx && ax * ax <= 0x1_0000_0000_0000_0000) by (nonlinear_arith)
        requires
            ax == dx || ax == -dx,
            0 <= ax <= 0x1_0000_0000,
    ;
    assert(ay * ay == dy * dy && ay * ay <= 0x1_0000_0000_0000_0000) by (nonlinear_arith)
        requires
            ay == dy || ay == -dy,
            0 <= ay <= 0x1_0000_0000,
    ;
    ax * ax + ay * ay
}

/// Decides whether `scale` times the distance between `a` and `b` is greater
/// than `reach`.
pub fn farther_than(a: Position, b: Position, scale: u8, reach: i64) -> (r: bool)
    ensures
        r == exceeds(distance_squared(a, b), scale as int, reach as int),
{
    if reach < 0 {
        return true;
    }
    let squared: u128 = squared_distance(a, b);
    let s: u128 = scale as u128;
    let t: u128 = reach as u128;
    assert(s * s <= 0x1_0000 && s * s * squared <= 0x2_0000_0000_0000_0000_0000) by (nonlinear_arith)
        requires
            0 <= s <= 0xff,
            0 <= squared <= 0x2_0000_0000_0000_0000,
    ;
    assert(t * t <= 0x4000_0000_0000_0000_0000_0000_0000_0000) by (nonlinear_arith)
        requires
            0 <= t <= 0x8000_0000_0000_0000,
    ;
    s * s * squared > t * t
}

/// Decides whether the box of size `a_size` centred on `a` and the box of
/// size `b_size` centred on `b` overlap. Boxes that only share an edge do not.
pub fn overlap(a: Position, a_size: Size, b: Position, b_size: Size) -> (r: bool)
    ensures
        r == boxes_meet(a, a_size, b, b_size),
{
    let ax: i64 = 2 * (a.x as i64);
    let ay: i64 = 2 * (a.y as i64);
    let bx: i64 = 2 * (b.x as i64);
    let by: i64 = 2 * (b.y as i64);
    let aw: i64 = a_size.width as i64;
    let ah: i64 = a_size.height as i64;
    let bw: i64 = b_size.width as i64;
    let bh: i64 = b_size.height as i64;
    ax - aw < bx + bw && ax + aw > bx - bw && ay - ah < by + bh && ay + ah > by - bh
}

/// Overlap does not depend on which box is named first.
pub proof fn lemma_overlap_symmetric(a: Position, a_size: Size, b: Position, b_size: Size)
    ensures
        boxes_meet(a, a_size, b, b_size) == boxes_meet(b, b_size, a, a_size),
{
}

/// Two spans of positive size meet exactly when some point lies strictly
/// inside both. The point is given in quarter units, in which every span
/// boundary and the middle between any two of them is a whole number.
pub proof fn lemma_spans_meet_share_point(c1: int, s1: int, c2: int, s2: int)
    requires
        s1 > 0,
        s2 > 0,
    ensures
        spans_meet(c1, s1, c2, s2) <==> exists|q: int|
            4 * c1 - 2 * s1 < q < 4 * c1 + 2 * s1 && #[trigger] inside_quarters(q, c2, s2),
{
    if spans_meet(c1, s1, c2, s2) {
        let low: int = if 2 * c1 - s1 > 2 * c2 - s2 {
            2 * c1 - s1
        } else {
            2 * c2 - s2
        };
        let q: int = 2 * low + 1;
        assert(inside_quarters(q, c2, s2));
    }
}

/// Whether the point `q`, in quarter units, lies strictly inside the span of
/// size `s` around the centre `c`.
pub open spec fn inside_quarters(q: int, c: int, s: int) -> bool {
    4 * c - 2 * s < q < 4 * c + 2 * s
}

/// Two boxes of one common side length `side` overlap exactly when their
/// centres are less than `side` apart on each axis.
pub proof fn lemma_equal_boxes_meet(a: Position, b: Position, side: u32)
    ensures
        boxes_meet(a, Size { width: side, height: side }, b, Size { width: side, height: side })
            <==> (-side < a.x - b.x < side && -side < a.y - b.y < side),
{
}

} // verus!
