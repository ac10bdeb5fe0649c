//! What a fall does from tick to tick.

use vstd::prelude::*;

use crate::bridge::{InputCommand, KeyKind};
use crate::geometry::Point;
use crate::models::actions::ActionKeyWith;
use crate::player::actions::PlayerAction;
use crate::player::context::{LastMovement, PlayerConfiguration, PlayerContext};
use crate::player::fall::{drop_inputs, falling_step, Falling, FallingFollowup};
use crate::player::moving::Moving;
use crate::player::timeout::{moving_ticked, ChangeAxis, MovingLifecycle, Timeout};
use crate::player::Player;

verus! {

/// Whether a fall that has started goes on in this tick.
pub open spec fn goes_on(falling: Falling, context: PlayerContext) -> bool {
    &&& context.last_known_pos is Some
    &&& falling.moving.timeout.started
    &&& context.config.move_timeout <= u32::MAX - 3
    &&& falling.moving.timeout.current < context.config.move_timeout + 3
    &&& falling.moving.timeout.total < u32::MAX
}

/// A fall is completed exactly by the player getting below the anchor, that is by its position
/// getting a smaller `y` than that of the anchor, and once completed it stays so. Apart from that, and
/// from the time that passes, a tick without an action changes nothing.
pub proof fn law_fall_is_completed_below_the_anchor(falling: Falling, context: PlayerContext)
    requires
        goes_on(falling, context),
        context.priority_action is None,
        context.normal_action is None,
    ensures
        ({
            let step = falling_step(falling, context);
            let pos = context.last_known_pos->0;
            &&& step.state matches Player::Falling(next)
            &&& next.moving.completed == (falling.moving.completed || pos.y < falling.anchor.y)
            &&& next.moving.pos == pos
            &&& next.moving.dest == falling.moving.dest
            &&& next.anchor == falling.anchor
            &&& next.timeout_on_complete == falling.timeout_on_complete
            &&& next.moving.timeout.started
            &&& next.moving.timeout.total == falling.moving.timeout.total + 1
            &&& next.moving.timeout.current == if falling.moving.completed
                && falling.timeout_on_complete {
                context.config.move_timeout + 3
            } else if pos.y != falling.moving.pos.y {
                0
            } else {
                falling.moving.timeout.current + 1
            }
            &&& step.input.len() == 0
            &&& step.last_movement == context.last_movement
            &&& step.followup == FallingFollowup::Nothing
        }),
{
}

/// Whatever the player is to do, a fall that is still going on after a tick is completed exactly
/// where it was completed before or the player is below the anchor now.
pub proof fn law_action_does_not_complete_a_fall(falling: Falling, context: PlayerContext)
    requires
        goes_on(falling, context),
    ensures
        falling_step(falling, context).state matches Player::Falling(next)
            ==> next.moving.completed == (falling.moving.completed
            || context.last_known_pos->0.y < falling.anchor.y),
{
}

/// A fall that is to end early does so in the second tick after the player got below the anchor: the
/// player then moves on to where it was going.
pub proof fn law_completed_fall_ends_early(
    falling: Falling,
    first: PlayerContext,
    second: PlayerContext,
    third: PlayerContext,
)
    requires
        goes_on(falling, first),
        falling.timeout_on_complete,
        falling.moving.timeout.total < u32::MAX - 3,
        first.last_known_pos->0.y < falling.anchor.y,
        !falling.moving.completed,
        first.config == second.config,
        second.config == third.config,
        second.last_known_pos is Some,
        third.last_known_pos is Some,
        first.priority_action is None && first.normal_action is None,
        second.priority_action is None && second.normal_action is None,
        third.priority_action is None && third.normal_action is None,
        falling.moving.timeout.current + 1 < first.config.move_timeout + 3,
    ensures
        ({
            let once = falling_step(falling, first).state;
            let twice = falling_step(once->Falling_0, second).state;
            let last = falling_step(twice->Falling_0, third).state;
            &&& once is Falling
            &&& twice is Falling
            &&& last == Player::Moving(
                falling.moving.dest,
                falling.moving.exact,
                falling.moving.intermediates,
            )
        }),
{
}

/// A fall runs out of time once the player has not moved up or down for the allowed ticks and three
/// more, and then nothing is sent.
pub proof fn law_fall_runs_out_of_time(falling: Falling, context: PlayerContext)
    requires
        falling.moving.timeout.started,
        context.config.move_timeout <= u32::MAX - 3,
        falling.moving.timeout.current >= context.config.move_timeout + 3,
    ensures
        ({
            let step = falling_step(falling, context);
            &&& step.state == Player::Moving(
                falling.moving.dest,
                falling.moving.exact,
                falling.moving.intermediates,
            )
            &&& step.input.len() == 0
            &&& step.followup == FallingFollowup::Nothing
            &&& step.last_movement == context.last_movement
        }),
{
}

/// A drop begins only with the player standing still above its destination, with no key left to wait
/// for. Until it stands still, it is waited for it, from where it is now; where it is not above its
/// destination, it moves on.
pub proof fn law_drop_begins_standing_still(falling: Falling, context: PlayerContext)
    requires
        !falling.moving.timeout.started,
        context.last_known_pos is Some,
    ensures
        ({
            let step = falling_step(falling, context);
            let pos = context.last_known_pos->0;
            let drops = !context.stalling && context.is_stationary && pos.y > falling.moving.dest.y;
            &&& step.input.len() > 0 <==> drops
            &&& step.last_movement == if drops {
                Some(LastMovement::Falling)
            } else {
                context.last_movement
            }
            &&& step.followup == if context.stalling {
                FallingFollowup::ClearStallingBuffer
            } else {
                FallingFollowup::Nothing
            }
            &&& if context.stalling || !context.is_stationary || drops {
                &&& step.state matches Player::Falling(next)
                &&& next.moving.timeout.started == drops
                &&& next.moving.pos == pos
                &&& next.moving.dest == falling.moving.dest
                &&& next.moving.completed == falling.moving.completed
                &&& next.anchor == if !context.stalling && !context.is_stationary {
                    pos
                } else {
                    falling.anchor
                }
                &&& next.timeout_on_complete == falling.timeout_on_complete
            } else {
                step.state == Player::Moving(
                    falling.moving.dest,
                    falling.moving.exact,
                    falling.moving.intermediates,
                )
            }
            &&& drops ==> step.input == drop_inputs(context.config, pos.y - falling.moving.dest.y)
        }),
{
}

/// To teleport down, the player needs the key for it, must be allowed to, and must be less than
/// sixteen pixels above its destination, or twenty where it teleports further. The down key is held
/// meanwhile. Otherwise the down key is followed by the one to jump with.
pub proof fn law_short_drops_are_teleported(config: PlayerConfiguration, distance: int)
    ensures
        ({
            let inputs = drop_inputs(config, distance);
            let teleports = config.teleport_key is Some && !config.disable_teleport_on_fall
                && distance < if config.has_extended_teleport_range {
                20
            } else {
                16int
            };
            inputs =~= if teleports {
                seq![
                    InputCommand::KeyDown(KeyKind::Down),
                    InputCommand::Sleep(30),
                    InputCommand::KeyFor(config.teleport_key->0, 80),
                    InputCommand::Sleep(30),
                    InputCommand::KeyUp(KeyKind::Down),
                ]
            } else {
                seq![InputCommand::Key(KeyKind::Down), InputCommand::Key(config.jump_key)]
            }
        }),
{
}

/// A key that may be used anywhere is used as soon as the fall is completed less than five pixels
/// away from the destination, by a player who does not teleport, and in no other case.
pub proof fn law_key_is_used_near_the_destination(falling: Falling, context: PlayerContext)
    requires
        goes_on(falling, context),
        context.next() is Some,
        context.next()->0 is Key,
    ensures
        ({
            let step = falling_step(falling, context);
            let key = context.next()->0->Key_0;
            let pos = context.last_known_pos->0;
            let completed = falling.moving.completed || pos.y < falling.anchor.y;
            let near = -5 < pos.y - falling.moving.dest.y < 5;
            let used = key.with == ActionKeyWith::Any && context.config.teleport_key is None
                && completed && near;
            &&& used ==> step.state == Player::UseKey(key)
            &&& !used ==> step.state is Falling
            &&& step.input.len() == 0
            &&& step.followup == FallingFollowup::Nothing
        }),
{
}

/// While mobbing, a completed fall to a place on the way ends once the player is not above it, with
/// the down key released. Otherwise mobbing goes on, measured to the very last place, except that a
/// player who can teleport has to complete the fall first.
pub proof fn law_mobbing_goes_on_from_a_fall(falling: Falling, context: PlayerContext)
    requires
        goes_on(falling, context),
        context.next() is Some,
        context.next()->0 is AutoMob,
    ensures
        ({
            let step = falling_step(falling, context);
            let pos = context.last_known_pos->0;
            let moving = falling.moving;
            let completed = moving.completed || pos.y < falling.anchor.y;
            let on_the_way = moving.intermediates is Some && moving.intermediates->0.remaining > 0;
            let last = if on_the_way {
                moving.intermediates->0.last
            } else {
                moving.dest
            };
            let ends = completed && on_the_way && pos.y <= moving.dest.y;
            &&& ends ==> {
                &&& step.state == Player::Moving(moving.dest, moving.exact, moving.intermediates)
                &&& step.input =~= seq![InputCommand::KeyUp(KeyKind::Down)]
                &&& step.followup == FallingFollowup::Nothing
            }
            &&& !ends ==> step.state is Falling && step.input.len() == 0
            &&& !ends && context.config.teleport_key is Some && !completed ==> step.followup
                == FallingFollowup::Nothing
            &&& !ends && (context.config.teleport_key is None || completed) ==> {
                let (dx, dy) = (last.x - pos.x, last.y - pos.y);
                &&& step.followup matches FallingFollowup::AutoMob(followup)
                &&& context.next() == Some(PlayerAction::AutoMob(followup.mob))
                &&& -i32::MAX <= dx <= i32::MAX ==> followup.x_direction == dx
                    && followup.x_distance == if dx >= 0 {
                    dx
                } else {
                    -dx
                }
                &&& -i32::MAX <= dy <= i32::MAX ==> followup.y_distance == if dy >= 0 {
                    dy
                } else {
                    -dy
                }
            }
        }),
{
}

/// A movement starts in its first tick, ends once it has not got on for the allowed ticks, and
/// getting on along the axis that counts starts the ticks over. It always notes where the player is.
pub proof fn law_getting_on_starts_the_ticks_over(
    moving: Moving,
    pos: Point,
    max_timeout: u32,
    axis: ChangeAxis,
)
    requires
        moving.timeout.total < u32::MAX,
    ensures
        ({
            let got_on = match axis {
                ChangeAxis::Horizontal => moving.pos.x != pos.x,
                ChangeAxis::Vertical => moving.pos.y != pos.y,
                ChangeAxis::Both => moving.pos.x != pos.x || moving.pos.y != pos.y,
            };
            match moving_ticked(moving, pos, max_timeout, axis) {
                MovingLifecycle::Started(next) => {
                    &&& !moving.timeout.started
                    &&& next == (Moving {
                        pos,
                        timeout: Timeout { started: true, ..moving.timeout },
                        ..moving
                    })
                },
                MovingLifecycle::Ended(next) => {
                    &&& moving.timeout.started
                    &&& moving.timeout.current >= max_timeout
                    &&& next == (Moving { pos, ..moving })
                },
                MovingLifecycle::Updated(next) => {
                    &&& moving.timeout.started
                    &&& moving.timeout.current < max_timeout
                    &&& next.pos == pos
                    &&& next.timeout.started
                    &&& next.timeout.total == moving.timeout.total + 1
                    &&& next.timeout.current == if got_on {
                        0
                    } else {
                        moving.timeout.current + 1
                    }
                    &&& next == (Moving { pos, timeout: next.timeout, ..moving })
                },
            }
        }),
{
}

} // verus!
