//! Being on the way to some destination.

use vstd::prelude::*;

use crate::geometry::Point;
use crate::player::timeout::Timeout;

verus! {

/// The destinations that follow the current one.
#[derive(Clone, Copy, PartialEq, Eq, Debug, Structural)]
pub struct MovingIntermediates {
    /// How many destinations follow.
    pub remaining: usize,
    /// The very last destination.
    pub last: Point,
}

#[derive(Clone, Copy, PartialEq, Eq, Debug, Structural)]
pub struct Moving {
    /// Where the player was last seen.
    pub pos: Point,
    pub dest: Point,
    /// Whether the destination must be met exactly.
    pub exact: bool,
    pub completed: bool,
    pub timeout: Timeout,
    pub intermediates: Option<MovingIntermediates>,
}

/// The distance and the signed way from `from` to `to`.
pub open spec fn way(from: i32, to: i32) -> (int, int) {
    let direction = to - from;
    (if direction >= 0 { direction } else { -direction }, direction)
}

/// Whether the way between the two can be represented.
pub open spec fn way_fits(from: i32, to: i32) -> bool {
    -i32::MAX <= to - from <= i32::MAX
}

fn way_between(from: i32, to: i32) -> (res: (i32, i32))
    requires
        way_fits(from, to),
    ensures
        (res.0 as int, res.1 as int) == way(from, to),
{
    let direction: i32 = to - from;
    let distance: i32 = if direction >= 0 { direction } else { -direction };
    (distance, direction)
}

impl Moving {
    pub open spec fn intermediate(self) -> bool {
        match self.intermediates {
            Some(intermediates) => intermediates.remaining > 0,
            None => false,
        }
    }

    /// The destination that ends the whole way.
    pub open spec fn last_dest(self) -> Point {
        if self.intermediate() {
            self.intermediates->0.last
        } else {
            self.dest
        }
    }

    /// The destination looked at: the current one or the last one.
    pub open spec fn aim(self, current_destination: bool) -> Point {
        if current_destination {
            self.dest
        } else {
            self.last_dest()
        }
    }

    /// Whether more destinations follow the current one.
    pub fn is_destination_intermediate(&self) -> (res: bool)
        ensures
            res == self.intermediate(),
    {
        match self.intermediates {
            Some(intermediates) => intermediates.remaining > 0,
            None => false,
        }
    }

    fn aim_at(&self, current_destination: bool) -> (res: Point)
        ensures
            res == self.aim(current_destination),
    {
        if current_destination {
            return self.dest;
        }
        match self.intermediates {
            Some(intermediates) => if intermediates.remaining > 0 {
                intermediates.last
            } else {
                self.dest
            },
            None => self.dest,
        }
    }

    /// The horizontal distance and way from `cur_pos` to the destination.
    pub fn x_distance_direction_from(&self, current_destination: bool, cur_pos: Point) -> (res: (
        i32,
        i32,
    ))
        requires
            way_fits(cur_pos.x, self.aim(current_destination).x),
        ensures
            (res.0 as int, res.1 as int) == way(cur_pos.x, self.aim(current_destination).x),
    {
        way_between(cur_pos.x, self.aim_at(current_destination).x)
    }

    /// The vertical distance and way from `cur_pos` to the destination. Up is positive.
    pub fn y_distance_direction_from(&self, current_destination: bool, cur_pos: Point) -> (res: (
        i32,
        i32,
    ))
        requires
            way_fits(cur_pos.y, self.aim(current_destination).y),
        ensures
            (res.0 as int, res.1 as int) == way(cur_pos.y, self.aim(current_destination).y),
    {
        way_between(cur_pos.y, self.aim_at(current_destination).y)
    }

    /// The same way with the timeout marked as started or not.
    pub open spec fn with_started(self, started: bool) -> Moving {
        Moving { timeout: Timeout { started, ..self.timeout }, ..self }
    }

    pub fn timeout_started(self, started: bool) -> (res: Moving)
        ensures
            res == self.with_started(started),
    {
        Moving { timeout: Timeout { started, ..self.timeout }, ..self }
    }
}

/// The way leads from the one to the other, and the distance is its length, the same in both
/// directions.
pub proof fn law_way_leads_there(from: i32, to: i32)
    ensures
        from + way(from, to).1 == to,
        way(from, to).0 >= 0,
        way(from, to).0 == way(from, to).1 || way(from, to).0 == -way(from, to).1,
        way(to, from).0 == way(from, to).0,
{
}

/// What is aimed at is the current destination, or else the very last one where others follow.
pub proof fn law_last_destination_is_aimed_at(moving: Moving, current_destination: bool)
    ensures
        moving.aim(current_destination) == match moving.intermediates {
            Some(intermediates) if !current_destination && intermediates.remaining > 0
                => intermediates.last,
            _ => moving.dest,
        },
        moving.intermediate() <==> moving.intermediates is Some
            && moving.intermediates->0.remaining > 0,
{
}

} // verus!
