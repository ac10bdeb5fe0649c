//! Dropping down from a platform.

use vstd::prelude::*;

use crate::bridge::{InputCommand, KeyKind};
use crate::ecs::{PlayerEntity, Resources};
use crate::geometry::Point;
use crate::models::actions::ActionKeyWith;
use crate::player::actions::{AutoMob, PlayerAction};
use crate::player::context::{next_action, LastMovement, PlayerConfiguration, PlayerContext};
use crate::player::moving::{way, way_fits, Moving};
use crate::player::timeout::{
    moving_ticked, next_moving_lifecycle_with_axis, ChangeAxis, MovingLifecycle, Timeout,
};
use crate::player::Player;

verus! {

/// Minimum y distance from the destination required to perform a fall.
pub const FALLING_THRESHOLD: i32 = 4;

/// Maximum y distance from the destination allowed to transition to using a key during
/// a [`PlayerAction::Key`] with [`ActionKeyWith::Any`].
pub const FALLING_TO_USE_KEY_THRESHOLD: i32 = 5;

/// The ticks by which falling may take longer than any other movement.
pub const FALLING_EXTRA_TIMEOUT: u32 = 3;

/// Maximum y distance from the destination allowed to skip normal falling and use teleportation
/// for mage.
pub const TELEPORT_FALL_THRESHOLD: i32 = 16;

/// Maximum y distance from the destination allowed to skip normal falling and use teleportation
/// for mage when teleport boost is enabled.
pub const EXTENDED_TELEPORT_FALL_THRESHOLD: i32 = 20;

/// How long the game is given to take notice of the down key.
pub const DROP_PAUSE_MILLIS: u64 = 30;

/// How long the key to teleport down with is pressed.
pub const DROP_KEY_MILLIS: u64 = 80;

#[derive(Clone, Copy, PartialEq, Eq, Debug, Structural)]
pub struct Falling {
    pub moving: Moving,
    pub anchor: Point,
    pub timeout_on_complete: bool,
}

/// What is left to be done after an update.
#[derive(Clone, Copy, PartialEq, Eq, Debug, Structural)]
pub enum FallingFollowup {
    Nothing,
    /// Waits of keys used earlier are to be given up where that is possible.
    ClearStallingBuffer,
    /// The player goes on mobbing from this far away.
    AutoMob(AutoMobFollowup),
}

#[derive(Clone, Copy, PartialEq, Eq, Debug, Structural)]
pub struct AutoMobFollowup {
    pub mob: AutoMob,
    pub x_distance: i32,
    pub x_direction: i32,
    pub y_distance: i32,
}

/// What an update of a fall makes of the player.
pub struct FallingStep {
    pub state: Player,
    pub last_movement: Option<LastMovement>,
    pub input: Seq<InputCommand>,
    pub followup: FallingFollowup,
}

impl Falling {
    pub fn new(moving: Moving, anchor: Point, timeout_on_complete: bool) -> (res: Self)
        ensures
            res == (Falling { moving, anchor, timeout_on_complete }),
    {
        Falling { moving, anchor, timeout_on_complete }
    }

    fn moving(self, moving: Moving) -> (res: Self)
        ensures
            res == (Falling { moving, ..self }),
    {
        Falling { moving, ..self }
    }

    fn anchor(self, anchor: Point) -> (res: Self)
        ensures
            res == (Falling { anchor, ..self }),
    {
        Falling { anchor, ..self }
    }
}

/// Maximum number of ticks before a fall times out.
pub open spec fn falling_timeout(config: PlayerConfiguration) -> u32 {
    (config.move_timeout + FALLING_EXTRA_TIMEOUT) as u32
}

/// On the way to where a fall was meant to lead.
pub open spec fn back_to_moving(moving: Moving) -> Player {
    Player::Moving(moving.dest, moving.exact, moving.intermediates)
}

/// Whether the player teleports down instead of dropping.
pub open spec fn teleports_down(config: PlayerConfiguration, y_distance: int) -> bool {
    &&& !config.disable_teleport_on_fall
    &&& config.teleport_key is Some
    &&& y_distance < if config.has_extended_teleport_range {
        EXTENDED_TELEPORT_FALL_THRESHOLD
    } else {
        TELEPORT_FALL_THRESHOLD
    }
}

/// The inputs of a drop. To drop by jumping, the down key is followed by the one to jump with. To
/// teleport, the down key is held all the while, with time to take notice of it before and after.
pub open spec fn drop_inputs(config: PlayerConfiguration, y_distance: int) -> Seq<InputCommand> {
    if teleports_down(config, y_distance) {
        seq![
            InputCommand::KeyDown(KeyKind::Down),
            InputCommand::Sleep(DROP_PAUSE_MILLIS),
            InputCommand::KeyFor(config.teleport_key->0, DROP_KEY_MILLIS),
            InputCommand::Sleep(DROP_PAUSE_MILLIS),
            InputCommand::KeyUp(KeyKind::Down),
        ]
    } else {
        seq![InputCommand::Key(KeyKind::Down), InputCommand::Key(config.jump_key)]
    }
}

/// The start of a fall.
pub open spec fn falling_started(falling: Falling, moving: Moving, context: PlayerContext) -> FallingStep {
    let (y_distance, y_direction) = way(moving.pos.y, moving.dest.y);
    let quiet = FallingStep {
        state: Player::Falling(Falling { moving: moving.with_started(false), ..falling }),
        last_movement: context.last_movement,
        input: seq![],
        followup: FallingFollowup::Nothing,
    };
    if context.stalling {
        FallingStep { followup: FallingFollowup::ClearStallingBuffer, ..quiet }
    } else if !context.is_stationary {
        FallingStep {
            state: Player::Falling(
                Falling { moving: moving.with_started(false), anchor: moving.pos, ..falling },
            ),
            ..quiet
        }
    } else if y_direction >= 0 {
        FallingStep { state: back_to_moving(moving), ..quiet }
    } else {
        FallingStep {
            state: Player::Falling(Falling { moving, ..falling }),
            last_movement: Some(LastMovement::Falling),
            input: drop_inputs(context.config, y_distance),
            ..quiet
        }
    }
}

/// The way once the player is below the anchor, or once it stays there.
pub open spec fn fall_progressed(falling: Falling, moving: Moving, config: PlayerConfiguration) -> Moving {
    if !moving.completed {
        Moving { completed: moving.pos.y < falling.anchor.y, ..moving }
    } else if falling.timeout_on_complete {
        Moving {
            timeout: Timeout { current: falling_timeout(config), ..moving.timeout },
            ..moving
        }
    } else {
        moving
    }
}

/// Whether a player can be falling with that to do.
pub open spec fn allows_falling(action: Option<PlayerAction>) -> bool {
    match action {
        None => true,
        Some(PlayerAction::Key(_)) => true,
        Some(PlayerAction::Move(_)) => true,
        Some(PlayerAction::AutoMob(_)) => true,
        Some(PlayerAction::PingPong(_)) => true,
        Some(PlayerAction::SolveRune) => true,
        Some(_) => false,
    }
}

/// What the action to be carried out makes of a fall that goes on.
pub open spec fn falling_continued(falling: Falling, moving: Moving, context: PlayerContext) -> FallingStep {
    let (y_distance, y_direction) = way(moving.pos.y, moving.dest.y);
    let on = FallingStep {
        state: Player::Falling(Falling { moving, ..falling }),
        last_movement: context.last_movement,
        input: seq![],
        followup: FallingFollowup::Nothing,
    };
    match context.next() {
        Some(PlayerAction::AutoMob(mob)) => if moving.completed && moving.intermediate()
            && y_direction >= 0 {
            FallingStep {
                state: back_to_moving(moving),
                input: seq![InputCommand::KeyUp(KeyKind::Down)],
                ..on
            }
        } else if context.config.teleport_key is Some && !moving.completed {
            on
        } else {
            let (x_distance, x_direction) = way(moving.pos.x, moving.last_dest().x);
            let (y_distance, _) = way(moving.pos.y, moving.last_dest().y);
            FallingStep {
                followup: FallingFollowup::AutoMob(
                    AutoMobFollowup {
                        mob,
                        x_distance: x_distance as i32,
                        x_direction: x_direction as i32,
                        y_distance: y_distance as i32,
                    },
                ),
                ..on
            }
        },
        Some(PlayerAction::Key(key)) => if key.with is Any && context.config.teleport_key is None
            && moving.completed && y_distance < FALLING_TO_USE_KEY_THRESHOLD {
            FallingStep { state: Player::UseKey(key), ..on }
        } else {
            on
        },
        _ => on,
    }
}

/// One more tick of a fall.
pub open spec fn falling_step(falling: Falling, context: PlayerContext) -> FallingStep {
    match moving_ticked(
        falling.moving,
        context.last_known_pos->0,
        falling_timeout(context.config),
        ChangeAxis::Vertical,
    ) {
        MovingLifecycle::Started(moving) => falling_started(falling, moving, context),
        MovingLifecycle::Ended(moving) => FallingStep {
            state: back_to_moving(moving),
            last_movement: context.last_movement,
            input: seq![],
            followup: FallingFollowup::Nothing,
        },
        MovingLifecycle::Updated(moving) => falling_continued(
            falling,
            fall_progressed(falling, moving, context.config),
            context,
        ),
    }
}

/// Whether mobbing goes on from a fall.
pub open spec fn goes_on_mobbing(moving: Moving, context: PlayerContext) -> bool {
    &&& context.next() matches Some(PlayerAction::AutoMob(_))
    &&& !(moving.completed && moving.intermediate() && moving.pos.y <= moving.dest.y)
    &&& context.config.teleport_key is None || moving.completed
}

/// Whether the distances that a fall that goes on is measured by can be represented.
pub open spec fn ways_fit(moving: Moving, context: PlayerContext) -> bool {
    &&& way_fits(moving.pos.y, moving.dest.y)
    &&& goes_on_mobbing(moving, context) ==> {
        &&& way_fits(moving.pos.x, moving.last_dest().x)
        &&& way_fits(moving.pos.y, moving.last_dest().y)
    }
}

/// Whether a fall can be updated: the player is somewhere, the action allows for it and all
/// distances that are looked at can be represented.
pub open spec fn can_fall(falling: Falling, context: PlayerContext) -> bool {
    &&& context.last_known_pos is Some
    &&& falling.moving.timeout.total < u32::MAX
    &&& context.config.move_timeout <= u32::MAX - FALLING_EXTRA_TIMEOUT
    &&& match moving_ticked(
        falling.moving,
        context.last_known_pos->0,
        falling_timeout(context.config),
        ChangeAxis::Vertical,
    ) {
        MovingLifecycle::Started(moving) => !context.stalling && context.is_stationary ==> way_fits(
            moving.pos.y,
            moving.dest.y,
        ),
        MovingLifecycle::Ended(_) => true,
        MovingLifecycle::Updated(moving) => {
            &&& allows_falling(context.next())
            &&& ways_fit(fall_progressed(falling, moving, context.config), context)
        },
    }
}

/// Updates the [`Player::Falling`] contextual state.
///
/// This state performs a drop down action. It is completed as soon as the player current `y`
/// position is below `anchor`. If `timeout_on_complete` is true, it will timeout when the
/// action is complete and return to [`Player::Moving`]. Timing out early is used to perform a
/// composite action `drop down and then double jump`.
///
/// Before performing a drop down, it will wait for player to become stationary in case the player
/// is already moving. Or if the player is already at destination or lower, it will returns
/// to [`Player::Moving`].
pub fn update_falling_state(resources: &mut Resources, player: &mut PlayerEntity) -> (res:
    FallingFollowup)
    requires
        old(player).state matches Player::Falling(falling) && can_fall(
            falling,
            old(player).context,
        ),
    ensures
        ({
            let step = falling_step(old(player).state->Falling_0, old(player).context);
            &&& *final(player) == (PlayerEntity {
                state: step.state,
                context: PlayerContext {
                    last_movement: step.last_movement,
                    ..old(player).context
                },
                ..*old(player)
            })
            &&& final(resources).input@ == old(resources).input@ + step.input
            &&& *final(resources) == (Resources {
                input: final(resources).input,
                ..*old(resources)
            })
            &&& res == step.followup
        }),
{
    let falling: Falling = match &player.state {
        Player::Falling(falling) => *falling,
        _ => vstd::pervasive::unreached(),
    };
    let pos: Point = player.context.last_known_pos.unwrap();
    let timeout: u32 = player.context.config.move_timeout + FALLING_EXTRA_TIMEOUT;
    assert(resources.input@ + seq![] =~= resources.input@);
    match next_moving_lifecycle_with_axis(falling.moving, pos, timeout, ChangeAxis::Vertical) {
        MovingLifecycle::Started(moving) => start_falling(resources, player, falling, moving),
        MovingLifecycle::Ended(moving) => {
            player.state = Player::Moving(moving.dest, moving.exact, moving.intermediates);
            FallingFollowup::Nothing
        },
        MovingLifecycle::Updated(moving) => {
            let moving: Moving = progress(falling, moving, &player.context.config);
            update_from_action(resources, player, falling, moving)
        },
    }
}

fn progress(falling: Falling, moving: Moving, config: &PlayerConfiguration) -> (res: Moving)
    requires
        config.move_timeout <= u32::MAX - FALLING_EXTRA_TIMEOUT,
    ensures
        res == fall_progressed(falling, moving, *config),
{
    let mut moving: Moving = moving;
    if !moving.completed {
        moving.completed = moving.pos.y < falling.anchor.y;
    } else if falling.timeout_on_complete {
        moving.timeout.current = config.move_timeout + FALLING_EXTRA_TIMEOUT;
    }
    moving
}

fn start_falling(
    resources: &mut Resources,
    player: &mut PlayerEntity,
    falling: Falling,
    moving: Moving,
) -> (res: FallingFollowup)
    requires
        !old(player).context.stalling && old(player).context.is_stationary ==> way_fits(
            moving.pos.y,
            moving.dest.y,
        ),
    ensures
        ({
            let step = falling_started(falling, moving, old(player).context);
            &&& *final(player) == (PlayerEntity {
                state: step.state,
                context: PlayerContext {
                    last_movement: step.last_movement,
                    ..old(player).context
                },
                ..*old(player)
            })
            &&& final(resources).input@ == old(resources).input@ + step.input
            &&& *final(resources) == (Resources {
                input: final(resources).input,
                ..*old(resources)
            })
            &&& res == step.followup
        }),
{
    assert(resources.input@ + seq![] =~= resources.input@);
    if player.context.stalling {
        player.state = Player::Falling(falling.moving(moving.timeout_started(false)));
        return FallingFollowup::ClearStallingBuffer;
    }
    // Stall until stationary before doing a fall by resetting timeout started
    if !player.context.is_stationary {
        player.state = Player::Falling(
            falling.moving(moving.timeout_started(false)).anchor(moving.pos),
        );
        return FallingFollowup::Nothing;
    }
    // Check if destination is already reached before starting
    let (y_distance, y_direction): (i32, i32) = moving.y_distance_direction_from(true, moving.pos);
    if y_direction >= 0 {
        player.state = Player::Moving(moving.dest, moving.exact, moving.intermediates);
        return FallingFollowup::Nothing;
    }
    player.context.last_movement = Some(LastMovement::Falling);
    player.state = Player::Falling(falling.moving(moving));
    send_drop(resources, &player.context.config, y_distance);
    FallingFollowup::Nothing
}

/// Does the fall: down along with teleport, or down followed by jump.
fn send_drop(resources: &mut Resources, config: &PlayerConfiguration, y_distance: i32)
    ensures
        final(resources).input@ == old(resources).input@ + drop_inputs(*config, y_distance as int),
        *final(resources) == (Resources { input: final(resources).input, ..*old(resources) }),
{
    let threshold: i32 = if config.has_extended_teleport_range {
        EXTENDED_TELEPORT_FALL_THRESHOLD
    } else {
        TELEPORT_FALL_THRESHOLD
    };
    match config.teleport_key {
        Some(key) if !config.disable_teleport_on_fall && y_distance < threshold => {
            resources.input.push(InputCommand::KeyDown(KeyKind::Down));
            resources.input.push(InputCommand::Sleep(DROP_PAUSE_MILLIS));
            resources.input.push(InputCommand::KeyFor(key, DROP_KEY_MILLIS));
            resources.input.push(InputCommand::Sleep(DROP_PAUSE_MILLIS));
            resources.input.push(InputCommand::KeyUp(KeyKind::Down));
        },
        _ => {
            resources.input.push(InputCommand::Key(KeyKind::Down));
            resources.input.push(InputCommand::Key(config.jump_key));
        },
    }
    assert(resources.input@ =~= old(resources).input@ + drop_inputs(*config, y_distance as int));
}

fn update_from_action(
    resources: &mut Resources,
    player: &mut PlayerEntity,
    falling: Falling,
    moving: Moving,
) -> (res: FallingFollowup)
    requires
        allows_falling(old(player).context.next()),
        ways_fit(moving, old(player).context),
    ensures
        ({
            let step = falling_continued(falling, moving, old(player).context);
            &&& *final(player) == (PlayerEntity {
                state: step.state,
                context: PlayerContext {
                    last_movement: step.last_movement,
                    ..old(player).context
                },
                ..*old(player)
            })
            &&& final(resources).input@ == old(resources).input@ + step.input
            &&& *final(resources) == (Resources {
                input: final(resources).input,
                ..*old(resources)
            })
            &&& res == step.followup
        }),
{
    // Sets initial next state first
    player.state = Player::Falling(falling.moving(moving));
    let cur_pos: Point = moving.pos;
    let (y_distance, y_direction): (i32, i32) = moving.y_distance_direction_from(true, cur_pos);
    let has_teleport_key: bool = player.context.config.teleport_key.is_some();
    assert(resources.input@ + seq![] =~= resources.input@);
    match next_action(&player.context) {
        Some(PlayerAction::AutoMob(mob)) => {
            // Ignore `timeout_on_complete` for auto-mobbing intermediate destination
            if moving.completed && moving.is_destination_intermediate() && y_direction >= 0 {
                resources.input.push(InputCommand::KeyUp(KeyKind::Down));
                player.state = Player::Moving(moving.dest, moving.exact, moving.intermediates);
                return FallingFollowup::Nothing;
            }
            if has_teleport_key && !moving.completed {
                return FallingFollowup::Nothing;
            }
            let (x_distance, x_direction): (i32, i32) = moving.x_distance_direction_from(
                false,
                cur_pos,
            );
            let (y_distance, _): (i32, i32) = moving.y_distance_direction_from(false, cur_pos);
            FallingFollowup::AutoMob(
                AutoMobFollowup { mob, x_distance, x_direction, y_distance },
            )
        },
        Some(PlayerAction::Key(key)) => {
            if matches!(key.with, ActionKeyWith::Any) && !has_teleport_key && moving.completed
                && y_distance < FALLING_TO_USE_KEY_THRESHOLD {
                player.state = Player::UseKey(key);
            }
            FallingFollowup::Nothing
        },
        _ => FallingFollowup::Nothing,
    }
}

/// The keys that are kept down after the first `count` inputs.
pub open spec fn held_after(inputs: Seq<InputCommand>, count: nat) -> Set<KeyKind>
    decreases count,
{
    if count == 0 {
        Set::empty()
    } else {
        let before = held_after(inputs, (count - 1) as nat);
        match inputs[count - 1] {
            InputCommand::KeyDown(key) => before.insert(key),
            InputCommand::Key(key) | InputCommand::KeyFor(key, _) | InputCommand::KeyUp(key) =>
                before.remove(key),
            InputCommand::Mouse(_, _, _) | InputCommand::Sleep(_) => before,
        }
    }
}

/// A drop keeps no key down, and the first key that it presses is the down key. Where it teleports,
/// the down key is down when the key to teleport with is pressed.
pub proof fn law_drop_leaves_no_key_held(config: PlayerConfiguration, y_distance: int)
    ensures
        ({
            let inputs = drop_inputs(config, y_distance);
            &&& held_after(inputs, inputs.len()) =~= Set::empty()
            &&& inputs[0] == InputCommand::Key(KeyKind::Down) || inputs[0]
                == InputCommand::KeyDown(KeyKind::Down)
            &&& teleports_down(config, y_distance) ==> {
                &&& inputs[2] == InputCommand::KeyFor(config.teleport_key->0, DROP_KEY_MILLIS)
                &&& held_after(inputs, 2).contains(KeyKind::Down)
            }
        }),
{
    reveal_with_fuel(held_after, 6);
}

/// A fall that has ended early on completion is over in the next tick: the player goes on moving
/// to where it was going.
pub proof fn law_timed_out_fall_ends(falling: Falling, moving: Moving, context: PlayerContext)
    requires
        falling.timeout_on_complete,
        moving.completed,
        moving.timeout.started,
        context.last_known_pos is Some,
    ensures
        ({
            let progressed = fall_progressed(falling, moving, context.config);
            let next = falling_step(Falling { moving: progressed, ..falling }, context);
            next.state == back_to_moving(moving)
        }),
{
}

/// A player who is not higher than its destination never starts to drop.
pub proof fn law_no_drop_at_or_below_the_destination(falling: Falling, context: PlayerContext)
    requires
        !falling.moving.timeout.started,
        context.last_known_pos is Some,
        context.last_known_pos->0.y <= falling.moving.dest.y,
    ensures
        falling_step(falling, context).input.len() == 0,
{
}

} // verus!
