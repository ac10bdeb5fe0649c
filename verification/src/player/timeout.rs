//! Counting the ticks that a state has been left waiting.

use vstd::prelude::*;

use crate::geometry::Point;
use crate::player::moving::Moving;

verus! {

/// How long something has been going on, in ticks.
#[derive(Clone, Copy, PartialEq, Eq, Debug, Structural)]
pub struct Timeout {
    /// The ticks since the last reset.
    pub current: u32,
    /// The ticks since the start, whatever was reset.
    pub total: u32,
    pub started: bool,
}

impl Default for Timeout {
    fn default() -> (res: Self)
        ensures
            res == fresh(),
    {
        Timeout { current: 0, total: 0, started: false }
    }
}

/// A timeout that has not started.
pub open spec fn fresh() -> Timeout {
    Timeout { current: 0, total: 0, started: false }
}

/// Where a timeout stands after one more tick.
#[derive(Clone, Copy, PartialEq, Eq, Debug, Structural)]
pub enum Lifecycle {
    /// It starts in this tick.
    Started(Timeout),
    /// It has run out.
    Ended,
    /// It has advanced.
    Updated(Timeout),
}

/// One more tick of `timeout`, which runs out at `max_timeout`.
pub open spec fn ticked(timeout: Timeout, max_timeout: u32) -> Lifecycle {
    if !timeout.started {
        Lifecycle::Started(Timeout { started: true, ..timeout })
    } else if timeout.current >= max_timeout {
        Lifecycle::Ended
    } else {
        Lifecycle::Updated(
            Timeout {
                current: (timeout.current + 1) as u32,
                total: (timeout.total + 1) as u32,
                started: true,
            },
        )
    }
}

pub fn next_timeout_lifecycle(timeout: Timeout, max_timeout: u32) -> (res: Lifecycle)
    requires
        timeout.total < u32::MAX,
    ensures
        res == ticked(timeout, max_timeout),
{
    if !timeout.started {
        return Lifecycle::Started(Timeout { started: true, ..timeout });
    }
    if timeout.current >= max_timeout {
        return Lifecycle::Ended;
    }
    Lifecycle::Updated(
        Timeout { current: timeout.current + 1, total: timeout.total + 1, started: true },
    )
}

/// The number of ticks after which a timeout left alone has run out.
pub open spec fn after_ticks(timeout: Timeout, max_timeout: u32, ticks: nat) -> Lifecycle
    decreases ticks,
{
    if ticks == 0 {
        Lifecycle::Updated(timeout)
    } else {
        match after_ticks(timeout, max_timeout, (ticks - 1) as nat) {
            Lifecycle::Started(next) => ticked(next, max_timeout),
            Lifecycle::Updated(next) => ticked(next, max_timeout),
            Lifecycle::Ended => Lifecycle::Ended,
        }
    }
}

/// A fresh timeout starts in its first tick, advances for exactly `max_timeout` ticks more, and
/// has run out in every tick after that.
pub proof fn law_timeout_runs_out(max_timeout: u32, ticks: nat)
    ensures
        1 <= ticks <= max_timeout + 1 ==> after_ticks(fresh(), max_timeout, ticks) == if ticks == 1
        {
            Lifecycle::Started(Timeout { current: 0, total: 0, started: true })
        } else {
            Lifecycle::Updated(
                Timeout { current: (ticks - 1) as u32, total: (ticks - 1) as u32, started: true },
            )
        },
        ticks > max_timeout + 1 ==> after_ticks(fresh(), max_timeout, ticks) is Ended,
    decreases ticks,
{
    if ticks > 1 {
        law_timeout_runs_out(max_timeout, (ticks - 1) as nat);
    } else if ticks == 1 {
        assert(after_ticks(fresh(), max_timeout, 0) == Lifecycle::Updated(fresh()));
    }
}

/// The axis on which moving resets the timeout.
#[derive(Clone, Copy, PartialEq, Eq, Debug, Structural)]
pub enum ChangeAxis {
    Horizontal,
    Vertical,
    Both,
}

#[derive(Clone, Copy, PartialEq, Eq, Debug, Structural)]
pub enum MovingLifecycle {
    Started(Moving),
    Ended(Moving),
    Updated(Moving),
}

/// Whether the player left its place along `axis`.
pub open spec fn moved_along(from: Point, to: Point, axis: ChangeAxis) -> bool {
    match axis {
        ChangeAxis::Horizontal => from.x != to.x,
        ChangeAxis::Vertical => from.y != to.y,
        ChangeAxis::Both => from.x != to.x || from.y != to.y,
    }
}

/// One more tick of `moving` with the player seen at `cur_pos`.
///
/// The ticks start over whenever the player moves along `axis`.
pub open spec fn moving_ticked(
    moving: Moving,
    cur_pos: Point,
    max_timeout: u32,
    axis: ChangeAxis,
) -> MovingLifecycle {
    match ticked(moving.timeout, max_timeout) {
        Lifecycle::Started(timeout) => MovingLifecycle::Started(
            Moving { pos: cur_pos, timeout, ..moving },
        ),
        Lifecycle::Ended => MovingLifecycle::Ended(Moving { pos: cur_pos, ..moving }),
        Lifecycle::Updated(timeout) => MovingLifecycle::Updated(
            Moving {
                pos: cur_pos,
                timeout: if moved_along(moving.pos, cur_pos, axis) {
                    Timeout { current: 0, ..timeout }
                } else {
                    timeout
                },
                ..moving
            },
        ),
    }
}

pub fn next_moving_lifecycle_with_axis(
    moving: Moving,
    cur_pos: Point,
    max_timeout: u32,
    axis: ChangeAxis,
) -> (res: MovingLifecycle)
    requires
        moving.timeout.total < u32::MAX,
    ensures
        res == moving_ticked(moving, cur_pos, max_timeout, axis),
{
    match next_timeout_lifecycle(moving.timeout, max_timeout) {
        Lifecycle::Started(timeout) => MovingLifecycle::Started(
            Moving { pos: cur_pos, timeout, ..moving },
        ),
        Lifecycle::Ended => MovingLifecycle::Ended(Moving { pos: cur_pos, ..moving }),
        Lifecycle::Updated(timeout) => {
            let moved: bool = match axis {
                ChangeAxis::Horizontal => moving.pos.x != cur_pos.x,
                ChangeAxis::Vertical => moving.pos.y != cur_pos.y,
                ChangeAxis::Both => moving.pos.x != cur_pos.x || moving.pos.y != cur_pos.y,
            };
            let timeout: Timeout = if moved {
                Timeout { current: 0, ..timeout }
            } else {
                timeout
            };
            MovingLifecycle::Updated(Moving { pos: cur_pos, timeout, ..moving })
        },
    }
}

/// A timeout that has started runs out in the tick in which it has counted as many ticks as it may,
/// and before that every tick counts as one.
pub proof fn law_timeout_counts_every_tick(timeout: Timeout, max_timeout: u32)
    requires
        timeout.current < u32::MAX,
        timeout.total < u32::MAX,
    ensures
        ticked(timeout, max_timeout) is Started <==> !timeout.started,
        ticked(timeout, max_timeout) is Ended <==> timeout.started && timeout.current
            >= max_timeout,
        ticked(timeout, max_timeout) matches Lifecycle::Started(next) ==> next.started
            && next.current == timeout.current && next.total == timeout.total,
        ticked(timeout, max_timeout) matches Lifecycle::Updated(next) ==> next.started
            && next.current == timeout.current + 1 && next.total == timeout.total + 1,
{
}

/// While the player moves along the axis the ticks start over, but the total does not. The player is
/// seen where it is now, and where it is going to does not change.
pub proof fn law_moving_on_starts_the_ticks_over(
    moving: Moving,
    cur_pos: Point,
    max_timeout: u32,
    axis: ChangeAxis,
)
    requires
        moving.timeout.started,
        moving.timeout.current < max_timeout,
        moving.timeout.total < u32::MAX,
    ensures
        ({
            let moved_x = moving.pos.x != cur_pos.x;
            let moved_y = moving.pos.y != cur_pos.y;
            let moved = match axis {
                ChangeAxis::Horizontal => moved_x,
                ChangeAxis::Vertical => moved_y,
                ChangeAxis::Both => moved_x || moved_y,
            };
            &&& moving_ticked(moving, cur_pos, max_timeout, axis) matches MovingLifecycle::Updated(
                next,
            )
            &&& next.pos == cur_pos
            &&& next.dest == moving.dest
            &&& next.exact == moving.exact
            &&& next.completed == moving.completed
            &&& next.intermediates == moving.intermediates
            &&& next.timeout.started
            &&& next.timeout.total == moving.timeout.total + 1
            &&& next.timeout.current == if moved {
                0
            } else {
                moving.timeout.current + 1
            }
        }),
{
}

/// A movement ends just when its timeout has run out, with the player where it is now, even where it
/// has just moved.
pub proof fn law_movement_ends_with_its_timeout(
    moving: Moving,
    cur_pos: Point,
    max_timeout: u32,
    axis: ChangeAxis,
)
    ensures
        moving_ticked(moving, cur_pos, max_timeout, axis) is Started <==> !moving.timeout.started,
        moving_ticked(moving, cur_pos, max_timeout, axis) is Ended <==> moving.timeout.started
            && moving.timeout.current >= max_timeout,
        moving_ticked(moving, cur_pos, max_timeout, axis) matches MovingLifecycle::Started(next)
            ==> next.pos == cur_pos && next.dest == moving.dest && next.timeout.current
            == moving.timeout.current && next.timeout.started,
        moving_ticked(moving, cur_pos, max_timeout, axis) matches MovingLifecycle::Ended(next)
            ==> next == (Moving { pos: cur_pos, ..moving }),
{
}

} // verus!
