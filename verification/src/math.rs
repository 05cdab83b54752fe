//! Points and rectangles in image space, in sub-units.
use vstd::prelude::*;
use crate::wide::U256;
use crate::units::{coord_ok, half, max_len, max_spec, min_len, min_spec};

verus! {

/// A point or an offset.
#[derive(Clone, Copy, Debug, PartialEq, Eq, Structural)]
pub struct Vec2D {
    pub x: i64,
    pub y: i64,
}

impl Vec2D {
    /// Both components are coordinates.
    pub open spec fn ok(&self) -> bool {
        coord_ok(self.x as int) && coord_ok(self.y as int)
    }

    /// Squared length.
    pub open spec fn norm2_spec(&self) -> int {
        self.x * self.x + self.y * self.y
    }

    pub fn new(x: i64, y: i64) -> (r: Vec2D)
        ensures
            r.x == x,
            r.y == y,
    {
        Vec2D { x, y }
    }

    /// The origin.
    pub fn zero() -> (r: Vec2D)
        ensures
            r.x == 0,
            r.y == 0,
    {
        Vec2D { x: 0, y: 0 }
    }

    /// `self` moved by `d`.
    pub fn plus(self, d: Vec2D) -> (r: Vec2D)
        requires
            i64::MIN <= self.x + d.x <= i64::MAX,
            i64::MIN <= self.y + d.y <= i64::MAX,
        ensures
            r.x == self.x + d.x,
            r.y == self.y + d.y,
    {
        Vec2D { x: self.x + d.x, y: self.y + d.y }
    }

    /// The offset from `d` to `self`.
    pub fn minus(self, d: Vec2D) -> (r: Vec2D)
        requires
            i64::MIN <= self.x - d.x <= i64::MAX,
            i64::MIN <= self.y - d.y <= i64::MAX,
        ensures
            r.x == self.x - d.x,
            r.y == self.y - d.y,
    {
        Vec2D { x: self.x - d.x, y: self.y - d.y }
    }
}

/// Squared distance between two points.
pub open spec fn dist2_spec(a: Vec2D, b: Vec2D) -> int {
    (a.x - b.x) * (a.x - b.x) + (a.y - b.y) * (a.y - b.y)
}

/// The square of a coordinate difference fits 128 bits with room to spare.
pub proof fn lemma_square_bound(d: int)
    requires
        -0x1000_0000_0000_0000 <= d <= 0x1000_0000_0000_0000,
    ensures
        0 <= d * d <= 0x100_0000_0000_0000_0000_0000_0000_0000,
{
    assert(0 <= d * d <= 0x100_0000_0000_0000_0000_0000_0000_0000) by (nonlinear_arith)
        requires
            -0x1000_0000_0000_0000 <= d <= 0x1000_0000_0000_0000,
    ;
}

/// Squared distance between two points.
pub fn dist2(a: Vec2D, b: Vec2D) -> (r: i128)
    requires
        -0x1000_0000_0000_0000 <= a.x - b.x <= 0x1000_0000_0000_0000,
        -0x1000_0000_0000_0000 <= a.y - b.y <= 0x1000_0000_0000_0000,
    ensures
        r == dist2_spec(a, b),
        0 <= r,
{
    let dx: i128 = (a.x - b.x) as i128;
    let dy: i128 = (a.y - b.y) as i128;
    proof {
        lemma_square_bound(dx as int);
        lemma_square_bound(dy as int);
    }
    dx * dx + dy * dy
}

/// An axis-aligned rectangle: its corner and the offset to the opposite one.
#[derive(Clone, Copy, Debug, PartialEq, Eq, Structural)]
pub struct Rect {
    pub pos: Vec2D,
    pub size: Vec2D,
}

impl Rect {
    /// Corner and size are coordinates.
    pub open spec fn ok(&self) -> bool {
        self.pos.ok() && self.size.ok()
    }

    /// The size is not negative.
    pub open spec fn canonical(&self) -> bool {
        self.size.x >= 0 && self.size.y >= 0
    }

    /// Right edge.
    pub open spec fn right(&self) -> int {
        self.pos.x + self.size.x
    }

    /// Bottom edge.
    pub open spec fn bottom(&self) -> int {
        self.pos.y + self.size.y
    }

    /// `p` lies on the rectangle, its edges included.
    pub open spec fn contains_spec(&self, p: Vec2D) -> bool {
        self.pos.x <= p.x <= self.right() && self.pos.y <= p.y <= self.bottom()
    }

    pub fn new(pos: Vec2D, size: Vec2D) -> (r: Rect)
        ensures
            r.pos == pos,
            r.size == size,
    {
        Rect { pos, size }
    }

    pub fn top_left(&self) -> (r: Vec2D)
        ensures
            r == self.pos,
    {
        self.pos
    }

    pub fn top_right(&self) -> (r: Vec2D)
        requires
            self.ok(),
        ensures
            r.x == self.right(),
            r.y == self.pos.y,
    {
        Vec2D { x: self.pos.x + self.size.x, y: self.pos.y }
    }

    pub fn bottom_left(&self) -> (r: Vec2D)
        requires
            self.ok(),
        ensures
            r.x == self.pos.x,
            r.y == self.bottom(),
    {
        Vec2D { x: self.pos.x, y: self.pos.y + self.size.y }
    }

    pub fn bottom_right(&self) -> (r: Vec2D)
        requires
            self.ok(),
        ensures
            r.x == self.right(),
            r.y == self.bottom(),
    {
        Vec2D { x: self.pos.x + self.size.x, y: self.pos.y + self.size.y }
    }

    /// Middle of the rectangle, rounded down to a sub-unit.
    pub fn center(&self) -> (r: Vec2D)
        requires
            self.ok(),
        ensures
            r.x == self.pos.x + self.size.x as int / 2,
            r.y == self.pos.y + self.size.y as int / 2,
    {
        Vec2D { x: self.pos.x + half(self.size.x), y: self.pos.y + half(self.size.y) }
    }

    /// The rectangle spanned by two opposite corners.
    pub fn from_corners(a: Vec2D, b: Vec2D) -> (r: Rect)
        requires
            -0x4000_0000_0000_0000 <= a.x <= 0x4000_0000_0000_0000 - 1,
            -0x4000_0000_0000_0000 <= a.y <= 0x4000_0000_0000_0000 - 1,
            -0x4000_0000_0000_0000 <= b.x <= 0x4000_0000_0000_0000 - 1,
            -0x4000_0000_0000_0000 <= b.y <= 0x4000_0000_0000_0000 - 1,
        ensures
            r.pos.x == min_spec(a.x as int, b.x as int),
            r.pos.y == min_spec(a.y as int, b.y as int),
            r.right() == max_spec(a.x as int, b.x as int),
            r.bottom() == max_spec(a.y as int, b.y as int),
            r.canonical(),
    {
        let x: i64 = min_len(a.x, b.x);
        let y: i64 = min_len(a.y, b.y);
        Rect {
            pos: Vec2D { x, y },
            size: Vec2D { x: max_len(a.x, b.x) - x, y: max_len(a.y, b.y) - y },
        }
    }

    /// The smallest rectangle that covers both.
    pub fn union(self, o: Rect) -> (r: Rect)
        requires
            self.ok(),
            o.ok(),
        ensures
            r.pos.x == min_spec(self.pos.x as int, o.pos.x as int),
            r.pos.y == min_spec(self.pos.y as int, o.pos.y as int),
            r.right() == max_spec(self.right(), o.right()),
            r.bottom() == max_spec(self.bottom(), o.bottom()),
    {
        let x: i64 = min_len(self.pos.x, o.pos.x);
        let y: i64 = min_len(self.pos.y, o.pos.y);
        let right: i64 = max_len(self.pos.x + self.size.x, o.pos.x + o.size.x);
        let bottom: i64 = max_len(self.pos.y + self.size.y, o.pos.y + o.size.y);
        Rect { pos: Vec2D { x, y }, size: Vec2D { x: right - x, y: bottom - y } }
    }

    /// The same rectangle moved by `d`.
    pub fn translated(self, d: Vec2D) -> (r: Rect)
        requires
            self.ok(),
            d.ok(),
        ensures
            r.pos.x == self.pos.x + d.x,
            r.pos.y == self.pos.y + d.y,
            r.size == self.size,
    {
        Rect { pos: Vec2D { x: self.pos.x + d.x, y: self.pos.y + d.y }, size: self.size }
    }

    /// The rectangle grown by `by` on every side.
    pub fn inflated(self, by: i64) -> (r: Rect)
        requires
            self.ok(),
            coord_ok(by as int),
        ensures
            r.pos.x == self.pos.x - by,
            r.pos.y == self.pos.y - by,
            r.size.x == self.size.x + 2 * by,
            r.size.y == self.size.y + 2 * by,
    {
        Rect {
            pos: Vec2D { x: self.pos.x - by, y: self.pos.y - by },
            size: Vec2D { x: self.size.x + 2 * by, y: self.size.y + 2 * by },
        }
    }

    /// `p` lies on the rectangle, its edges included.
    pub fn contains(&self, p: Vec2D) -> (r: bool)
        requires
            -0x4000_0000_0000_0000 <= self.pos.x + self.size.x <= 0x4000_0000_0000_0000,
            -0x4000_0000_0000_0000 <= self.pos.y + self.size.y <= 0x4000_0000_0000_0000,
        ensures
            r == self.contains_spec(p),
    {
        self.pos.x <= p.x && p.x <= self.pos.x + self.size.x && self.pos.y <= p.y && p.y
            <= self.pos.y + self.size.y
    }
}

/// `(pos, size)` with the corner moved so that the size is not negative; the
/// area covered is the same.
pub fn rect_ensure_positive_size(pos: Vec2D, size: Vec2D) -> (r: (Vec2D, Vec2D))
    requires
        pos.ok(),
        size.ok(),
    ensures
        r.0.x == min_spec(pos.x as int, pos.x + size.x),
        r.0.y == min_spec(pos.y as int, pos.y + size.y),
        r.0.x + r.1.x == max_spec(pos.x as int, pos.x + size.x),
        r.0.y + r.1.y == max_spec(pos.y as int, pos.y + size.y),
        r.1.x >= 0,
        r.1.y >= 0,
        r.1.ok(),
{
    let mut p: Vec2D = pos;
    let mut s: Vec2D = size;
    if s.x < 0 {
        p.x = p.x + s.x;
        s.x = -s.x;
    }
    if s.y < 0 {
        p.y = p.y + s.y;
        s.y = -s.y;
    }
    (p, s)
}

/// Cuts the canonical rectangle `(pos, size)` down to the part of it that
/// lies between the corners `lo` and `hi`.
pub fn rect_ensure_in_bounds(pos: Vec2D, size: Vec2D, lo: Vec2D, hi: Vec2D) -> (r: (Vec2D, Vec2D))
    requires
        pos.ok(),
        size.ok(),
        size.x >= 0,
        size.y >= 0,
        lo.ok(),
        hi.ok(),
    ensures
        r.0.x == max_spec(pos.x as int, lo.x as int),
        r.0.y == max_spec(pos.y as int, lo.y as int),
        r.0.x + r.1.x == min_spec(pos.x + size.x, hi.x as int),
        r.0.y + r.1.y == min_spec(pos.y + size.y, hi.y as int),
{
    let left: i64 = max_len(pos.x, lo.x);
    let top: i64 = max_len(pos.y, lo.y);
    let right: i64 = min_len(pos.x + size.x, hi.x);
    let bottom: i64 = min_len(pos.y + size.y, hi.y);
    (Vec2D { x: left, y: top }, Vec2D { x: right - left, y: bottom - top })
}

/// Scalar product of the offsets from `a` to `p` and from `a` to `b`.
pub open spec fn along_spec(p: Vec2D, a: Vec2D, b: Vec2D) -> int {
    (p.x - a.x) * (b.x - a.x) + (p.y - a.y) * (b.y - a.y)
}

/// Cross product of the offsets from `a` to `p` and from `a` to `b`.
pub open spec fn across_spec(p: Vec2D, a: Vec2D, b: Vec2D) -> int {
    (p.x - a.x) * (b.y - a.y) - (p.y - a.y) * (b.x - a.x)
}

/// `p` is at most `pick` away from the segment from `a` to `b`: from the end
/// it lies beyond, or from the line where it lies beside the segment.
pub open spec fn near_segment_spec(p: Vec2D, a: Vec2D, b: Vec2D, pick: int) -> bool {
    let along = along_spec(p, a, b);
    let len2 = dist2_spec(b, a);
    pick >= 0 && if along <= 0 {
        dist2_spec(p, a) <= pick * pick
    } else if along >= len2 {
        dist2_spec(p, b) <= pick * pick
    } else {
        across_spec(p, a, b) * across_spec(p, a, b) <= (pick * pick) * len2
    }
}

/// The product of two coordinate differences, with its bounds.
fn product(a: i64, b: i64) -> (r: i128)
    requires
        -0x200_0000_0000_0000 <= a <= 0x200_0000_0000_0000,
        -0x200_0000_0000_0000 <= b <= 0x200_0000_0000_0000,
    ensures
        r == a * b,
        -0x4_0000_0000_0000_0000_0000_0000_0000 <= r <= 0x4_0000_0000_0000_0000_0000_0000_0000,
{
    assert(-0x4_0000_0000_0000_0000_0000_0000_0000 <= a * b
        <= 0x4_0000_0000_0000_0000_0000_0000_0000) by (nonlinear_arith)
        requires
            -0x200_0000_0000_0000 <= a <= 0x200_0000_0000_0000,
            -0x200_0000_0000_0000 <= b <= 0x200_0000_0000_0000,
    ;
    a as i128 * b as i128
}

/// Whether `p` is at most `pick` away from the segment from `a` to `b`.
pub fn near_segment(p: Vec2D, a: Vec2D, b: Vec2D, pick: i64) -> (r: bool)
    requires
        p.ok(),
        a.ok(),
        b.ok(),
        pick <= 0x1000_0000_0000_0000,
    ensures
        r == near_segment_spec(p, a, b, pick as int),
{
    if pick < 0 {
        return false;
    }
    let dx: i64 = b.x - a.x;
    let dy: i64 = b.y - a.y;
    let ex: i64 = p.x - a.x;
    let ey: i64 = p.y - a.y;
    let along: i128 = product(ex, dx) + product(ey, dy);
    let len2: i128 = product(dx, dx) + product(dy, dy);
    proof {
        lemma_square_bound(pick as int);
    }
    let pick2: i128 = pick as i128 * pick as i128;
    if along <= 0 {
        dist2(p, a) <= pick2
    } else if along >= len2 {
        dist2(p, b) <= pick2
    } else {
        let across: i128 = product(ex, dy) - product(ey, dx);
        let side: u128 = if across >= 0 {
            across as u128
        } else {
            (-across) as u128
        };
        proof {
            assert(side as int * side as int == across as int * across as int) by (nonlinear_arith)
                requires
                    side as int == across as int || side as int == -(across as int),
            ;
        }
        let square = U256::product(side, side);
        square.at_most(U256::product(pick2 as u128, len2 as u128))
    }
}

/// It does not matter in which direction a segment is walked.
pub proof fn lemma_near_segment_symmetric(p: Vec2D, a: Vec2D, b: Vec2D, pick: int)
    ensures
        near_segment_spec(p, a, b, pick) == near_segment_spec(p, b, a, pick),
{
    let len2 = dist2_spec(b, a);
    assert(dist2_spec(a, b) == len2) by (nonlinear_arith)
        requires
            len2 == (b.x - a.x) * (b.x - a.x) + (b.y - a.y) * (b.y - a.y),
            dist2_spec(a, b) == (a.x - b.x) * (a.x - b.x) + (a.y - b.y) * (a.y - b.y),
    ;
    let along = along_spec(p, a, b);
    assert(along_spec(p, b, a) == len2 - along) by (nonlinear_arith)
        requires
            along == (p.x - a.x) * (b.x - a.x) + (p.y - a.y) * (b.y - a.y),
            along_spec(p, b, a) == (p.x - b.x) * (a.x - b.x) + (p.y - b.y) * (a.y - b.y),
            len2 == (b.x - a.x) * (b.x - a.x) + (b.y - a.y) * (b.y - a.y),
    ;
    let across = across_spec(p, a, b);
    assert(across_spec(p, b, a) == -across) by (nonlinear_arith)
        requires
            across == (p.x - a.x) * (b.y - a.y) - (p.y - a.y) * (b.x - a.x),
            across_spec(p, b, a) == (p.x - b.x) * (a.y - b.y) - (p.y - b.y) * (a.x - b.x),
    ;
    assert((-across) * (-across) == across * across) by (nonlinear_arith);
    assert(len2 >= 0) by (nonlinear_arith)
        requires
            len2 == (b.x - a.x) * (b.x - a.x) + (b.y - a.y) * (b.y - a.y),
    ;
    if len2 == 0 {
        assert(a == b) by (nonlinear_arith)
            requires
                0 == (b.x - a.x) * (b.x - a.x) + (b.y - a.y) * (b.y - a.y),
        ;
    }
}

} // verus!
