//! Points and rectangles with integer coordinates.

use vstd::prelude::*;

verus! {

#[derive(Clone, Copy, PartialEq, Eq, Debug, Structural)]
pub struct Point {
    pub x: i32,
    pub y: i32,
}

impl Point {
    pub fn new(x: i32, y: i32) -> (res: Self)
        ensures
            res == (Point { x, y }),
    {
        Point { x, y }
    }

    /// Whether `self + other` can be represented.
    pub open spec fn can_shift(self, other: Point) -> bool {
        &&& i32::MIN <= self.x + other.x <= i32::MAX
        &&& i32::MIN <= self.y + other.y <= i32::MAX
    }

    pub open spec fn shifted(self, other: Point) -> Point {
        Point { x: (self.x + other.x) as i32, y: (self.y + other.y) as i32 }
    }

    pub fn shift(&self, other: Point) -> (res: Point)
        requires
            self.can_shift(other),
        ensures
            res == self.shifted(other),
    {
        Point { x: self.x + other.x, y: self.y + other.y }
    }
}

/// A rectangle given by its top left corner and its size.
#[derive(Clone, Copy, PartialEq, Eq, Debug, Structural)]
pub struct Rect {
    pub x: i32,
    pub y: i32,
    pub width: i32,
    pub height: i32,
}

/// Half of `n`, rounded towards zero.
pub open spec fn half(n: int) -> int {
    if n >= 0 {
        n / 2
    } else {
        -((-n) / 2)
    }
}

/// Halves `n`, rounding towards zero.
pub fn halve(n: i32) -> (res: i32)
    ensures
        res == half(n as int),
{
    if n >= 0 {
        n / 2
    } else if n == i32::MIN {
        -0x4000_0000
    } else {
        -((-n) / 2)
    }
}

impl Rect {
    pub fn new(x: i32, y: i32, width: i32, height: i32) -> (res: Self)
        ensures
            res == (Rect { x, y, width, height }),
    {
        Rect { x, y, width, height }
    }

    pub open spec fn top_left(self) -> Point {
        Point { x: self.x, y: self.y }
    }

    pub fn tl(&self) -> (res: Point)
        ensures
            res == self.top_left(),
    {
        Point { x: self.x, y: self.y }
    }

    /// The far corner, which is no longer inside.
    pub open spec fn right(self) -> int {
        self.x + self.width
    }

    pub open spec fn bottom(self) -> int {
        self.y + self.height
    }

    /// Whether the middle can be represented.
    pub open spec fn has_middle(self) -> bool {
        &&& i32::MIN <= self.x + half(self.width as int) <= i32::MAX
        &&& i32::MIN <= self.y + half(self.height as int) <= i32::MAX
    }

    pub open spec fn middle(self) -> Point {
        Point {
            x: (self.x + half(self.width as int)) as i32,
            y: (self.y + half(self.height as int)) as i32,
        }
    }

    pub open spec fn has(self, point: Point) -> bool {
        &&& self.x <= point.x < self.right()
        &&& self.y <= point.y < self.bottom()
    }

    /// Whether `point` is inside. The right and bottom edges are not.
    pub fn contains(&self, point: Point) -> (res: bool)
        ensures
            res == self.has(point),
    {
        self.x <= point.x && (point.x as i64) < self.x as i64 + self.width as i64 && self.y
            <= point.y && (point.y as i64) < self.y as i64 + self.height as i64
    }

    /// Whether some point is inside of both.
    pub open spec fn meets(self, other: Rect) -> bool {
        exists|point: Point| #[trigger] self.has(point) && other.has(point)
    }

    /// The smallest rectangle with `a` and `b` as opposite corners.
    pub fn from_points(a: Point, b: Point) -> (res: Self)
        requires
            a.x - b.x <= i32::MAX,
            b.x - a.x <= i32::MAX,
            a.y - b.y <= i32::MAX,
            b.y - a.y <= i32::MAX,
        ensures
            res.x == if a.x <= b.x { a.x } else { b.x },
            res.y == if a.y <= b.y { a.y } else { b.y },
            res.width == if a.x <= b.x { b.x - a.x } else { a.x - b.x },
            res.height == if a.y <= b.y { b.y - a.y } else { a.y - b.y },
    {
        let x: i32 = if a.x <= b.x { a.x } else { b.x };
        let y: i32 = if a.y <= b.y { a.y } else { b.y };
        let width: i32 = if a.x <= b.x { b.x - a.x } else { a.x - b.x };
        let height: i32 = if a.y <= b.y { b.y - a.y } else { a.y - b.y };
        Rect { x, y, width, height }
    }

    /// Whether the two overlap in at least one point.
    pub fn overlaps(&self, other: Rect) -> (res: bool)
        ensures
            res == self.meets(other),
    {
        let left: i64 = if self.x >= other.x { self.x as i64 } else { other.x as i64 };
        let top: i64 = if self.y >= other.y { self.y as i64 } else { other.y as i64 };
        let right_a: i64 = self.x as i64 + self.width as i64;
        let right_b: i64 = other.x as i64 + other.width as i64;
        let bottom_a: i64 = self.y as i64 + self.height as i64;
        let bottom_b: i64 = other.y as i64 + other.height as i64;
        let right: i64 = if right_a <= right_b { right_a } else { right_b };
        let bottom: i64 = if bottom_a <= bottom_b { bottom_a } else { bottom_b };
        let res: bool = left < right && top < bottom;
        proof {
            if res {
                let corner = Point { x: left as i32, y: top as i32 };
                assert(self.has(corner) && other.has(corner));
            }
        }
        res
    }
}

/// The square of the distance between two points.
pub open spec fn squared_distance(a: Point, b: Point) -> nat {
    ((a.x - b.x) * (a.x - b.x) + (a.y - b.y) * (a.y - b.y)) as nat
}

pub fn distance_squared(a: Point, b: Point) -> (res: u128)
    ensures
        res == squared_distance(a, b),
{
    let dx: i128 = a.x as i128 - b.x as i128;
    let dy: i128 = a.y as i128 - b.y as i128;
    proof {
        lemma_square(dx as int);
        lemma_square(dy as int);
    }
    (dx * dx + dy * dy) as u128
}

proof fn lemma_square(d: int)
    requires
        -0x1_0000_0000 <= d <= 0x1_0000_0000,
    ensures
        0 <= d * d <= 0x1_0000_0000_0000_0000,
{
    assert(0 <= d * d <= 0x1_0000_0000_0000_0000) by (nonlinear_arith)
        requires
            -0x1_0000_0000 <= d <= 0x1_0000_0000,
    ;
}

/// Whether `r` is the square root of `n`, rounded down.
pub open spec fn is_root(n: nat, r: nat) -> bool {
    r * r <= n < (r + 1) * (r + 1)
}

/// The square root of `n`, rounded down.
pub open spec fn root(n: nat) -> nat {
    choose|r: nat| #[trigger] is_root(n, r)
}

proof fn lemma_root_is_unique(n: nat, a: nat, b: nat)
    requires
        is_root(n, a),
        is_root(n, b),
    ensures
        a == b,
{
    if a < b {
        assert((a + 1) * (a + 1) <= b * b) by (nonlinear_arith)
            requires
                a + 1 <= b,
        ;
    } else if b < a {
        assert((b + 1) * (b + 1) <= a * a) by (nonlinear_arith)
            requires
                b + 1 <= a,
        ;
    }
}

/// Every number has a square root, rounded down.
pub proof fn lemma_root_exists(n: nat)
    ensures
        is_root(n, root(n)),
    decreases n,
{
    if n == 0 {
        assert(is_root(0, 0)) by (nonlinear_arith);
    } else {
        let before = (n - 1) as nat;
        lemma_root_exists(before);
        let r = root(before);
        if n < (r + 1) * (r + 1) {
            assert(is_root(n, r));
        } else {
            assert((r + 1) * (r + 1) < (r + 2) * (r + 2)) by (nonlinear_arith);
            assert(is_root(n, r + 1));
        }
    }
}

/// Takes the square root of `n`, rounding down.
pub fn square_root(n: u64) -> (res: u64)
    ensures
        is_root(n as nat, res as nat),
        res == root(n as nat),
        res <= 0xFFFF_FFFF,
{
    let mut low: u64 = 0;
    let mut high: u64 = 0x1_0000_0000;
    while low + 1 < high
        invariant
            low < high <= 0x1_0000_0000,
            low * low <= n < high * high,
        decreases high - low,
    {
        let middle: u64 = low + (high - low) / 2;
        assert(middle * middle <= 0xFFFF_FFFF * 0xFFFF_FFFF) by (nonlinear_arith)
            requires
                middle <= 0xFFFF_FFFF,
        ;
        if middle * middle <= n {
            low = middle;
        } else {
            high = middle;
        }
    }
    proof {
        assert(is_root(n as nat, low as nat));
        lemma_root_is_unique(n as nat, low as nat, root(n as nat));
    }
    low
}

/// The middle of a rectangle.
pub fn mid_point(rect: Rect) -> (res: Point)
    requires
        rect.has_middle(),
    ensures
        res == rect.middle(),
{
    let dx: i32 = halve(rect.width);
    let dy: i32 = halve(rect.height);
    Point { x: rect.x + dx, y: rect.y + dy }
}

/// The middle of a rectangle is half of its size away from its corner, rounded towards that corner.
pub proof fn law_middle_is_half_the_size_away(rect: Rect)
    requires
        rect.has_middle(),
    ensures
        ({
            let middle = rect.middle();
            let (dx, dy) = (middle.x - rect.x, middle.y - rect.y);
            &&& rect.width >= 0 ==> 2 * dx <= rect.width <= 2 * dx + 1
            &&& rect.width < 0 ==> 2 * dx - 1 <= rect.width <= 2 * dx
            &&& rect.height >= 0 ==> 2 * dy <= rect.height <= 2 * dy + 1
            &&& rect.height < 0 ==> 2 * dy - 1 <= rect.height <= 2 * dy
        }),
{
}

/// A rectangle holds a point from its corner on, as far as its size goes, and not further: its corner
/// is inside unless it is empty, and the opposite one is not.
pub proof fn law_rectangle_holds_what_lies_inside(rect: Rect, point: Point)
    ensures
        rect.has(point) <==> 0 <= point.x - rect.x < rect.width && 0 <= point.y - rect.y
            < rect.height,
{
}

/// Two rectangles meet exactly where they do so along both axes.
pub proof fn law_rectangles_meet_along_both_axes(a: Rect, b: Rect)
    ensures
        a.meets(b) <==> {
            &&& a.width > 0 && a.height > 0 && b.width > 0 && b.height > 0
            &&& a.x < b.x + b.width && b.x < a.x + a.width
            &&& a.y < b.y + b.height && b.y < a.y + a.height
        },
        a.meets(b) == b.meets(a),
{
    let corner = Point {
        x: if a.x >= b.x {
            a.x
        } else {
            b.x
        },
        y: if a.y >= b.y {
            a.y
        } else {
            b.y
        },
    };
    if a.width > 0 && a.height > 0 && b.width > 0 && b.height > 0 && a.x < b.x + b.width && b.x
        < a.x + a.width && a.y < b.y + b.height && b.y < a.y + a.height {
        assert(a.has(corner) && b.has(corner));
    }
    if a.meets(b) {
        let point = choose|point: Point| #[trigger] a.has(point) && b.has(point);
        assert(b.has(point) && a.has(point));
    }
    if b.meets(a) {
        let point = choose|point: Point| #[trigger] b.has(point) && a.has(point);
        assert(a.has(point) && b.has(point));
    }
}

/// Shifting a point adds both coordinates, and shifting it back gives the point again.
pub proof fn law_points_are_shifted_by_coordinates(point: Point, by: Point, back: Point)
    requires
        point.can_shift(by),
        back.x == -by.x,
        back.y == -by.y,
    ensures
        point.shifted(by).x - point.x == by.x,
        point.shifted(by).y - point.y == by.y,
        point.shifted(by).shifted(back) == point,
{
}

/// A corner of a rectangle, its right and its bottom edge are as far apart as it is wide and high.
pub proof fn law_edges_are_the_size_apart(rect: Rect)
    ensures
        rect.top_left().x == rect.x,
        rect.top_left().y == rect.y,
        rect.right() - rect.top_left().x == rect.width,
        rect.bottom() - rect.top_left().y == rect.height,
{
}

/// The distance of two points is the same in both directions. Along a row or a column its square is
/// that of the difference.
pub proof fn law_distance_is_symmetric(a: Point, b: Point)
    ensures
        squared_distance(a, b) == squared_distance(b, a),
        a.y == b.y ==> squared_distance(a, b) == (a.x - b.x) * (a.x - b.x),
        a.x == b.x ==> squared_distance(a, b) == (a.y - b.y) * (a.y - b.y),
{
    let (dx, dy) = (a.x - b.x, a.y - b.y);
    assert(dx * dx >= 0 && dy * dy >= 0 && (-dx) * (-dx) == dx * dx && (-dy) * (-dy) == dy * dy)
        by (nonlinear_arith);
    assert(a.y == b.y ==> dy * dy == 0) by (nonlinear_arith)
        requires
            dy == a.y - b.y,
    ;
    assert(a.x == b.x ==> dx * dx == 0) by (nonlinear_arith)
        requires
            dx == a.x - b.x,
    ;
}

} // verus!
