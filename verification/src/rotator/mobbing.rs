//! Which of the mobs that were detected are worth going to.

use vstd::prelude::*;

use crate::geometry::Point;

verus! {

/// Whether the position of a mob can be measured from the bottom of the minimap.
pub open spec fn mob_fits(point: Point, height: i32) -> bool {
    i32::MIN <= height - point.y <= i32::MAX
}

/// The position of a mob, measured from the bottom of the minimap, unless it is further up than
/// the player can be pulled by grappling.
pub open spec fn mob_position(point: Point, height: i32, pos: Point, threshold: i32) -> Option<Point> {
    let y = height - point.y;
    if y <= pos.y || y - pos.y <= threshold {
        Some(Point { x: point.x, y: y as i32 })
    } else {
        None
    }
}

/// The positions of all mobs that are not too far up, in order.
pub open spec fn mob_positions(points: Seq<Point>, height: i32, pos: Point, threshold: i32) -> Seq<
    Point,
>
    decreases points.len(),
{
    if points.len() == 0 {
        seq![]
    } else {
        let before = mob_positions(points.drop_last(), height, pos, threshold);
        match mob_position(points.last(), height, pos, threshold) {
            Some(point) => before.push(point),
            None => before,
        }
    }
}

/// The mobs that the player may go to, of those detected on a minimap of that height.
pub fn auto_mob_positions(points: &Vec<Point>, height: i32, pos: Point, threshold: i32) -> (res: Vec<
    Point,
>)
    requires
        forall|i: int| 0 <= i < points@.len() ==> mob_fits(#[trigger] points@[i], height),
    ensures
        res@ == mob_positions(points@, height, pos, threshold),
{
    let mut res: Vec<Point> = Vec::new();
    let mut i: usize = 0;
    assert(points@.take(0) =~= seq![]);
    while i < points.len()
        invariant
            i <= points.len(),
            forall|i: int| 0 <= i < points@.len() ==> mob_fits(#[trigger] points@[i], height),
            res@ == mob_positions(points@.take(i as int), height, pos, threshold),
        decreases points.len() - i,
    {
        assert(points@.take(i + 1).drop_last() =~= points@.take(i as int));
        assert(mob_fits(points@[i as int], height));
        let y: i32 = height - points[i].y;
        if y <= pos.y || y as i64 - pos.y as i64 <= threshold as i64 {
            res.push(Point { x: points[i].x, y });
        }
        i = i + 1;
    }
    assert(points@.take(i as int) =~= points@);
    res
}

} // verus!
