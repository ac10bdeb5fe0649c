use komari::bridge::{InputCommand, KeyKind};
use komari::clock::Instant;
use komari::ecs::{OperationState, PlayerEntity, Resources};
use komari::geometry::Point;
use komari::models::actions::{
    ActionKeyDirection, ActionKeyWith, Position, WaitAfterBuffered,
};
use komari::models::keys::LinkKeyBinding;
use komari::player::actions::{AutoMob, Key, PlayerAction};
use komari::player::context::{LastMovement, PlayerConfiguration, PlayerContext};
use komari::player::fall::{
    update_falling_state, AutoMobFollowup, Falling, FallingFollowup, FALLING_EXTRA_TIMEOUT,
};
use komari::player::moving::{Moving, MovingIntermediates};
use komari::player::timeout::{
    next_moving_lifecycle_with_axis, next_timeout_lifecycle, ChangeAxis, Lifecycle,
    MovingLifecycle, Timeout,
};
use komari::player::Player;

const POS: Point = Point { x: 100, y: 100 };

const ORIGIN: Point = Point { x: 0, y: 0 };

const MOVE_TIMEOUT: u32 = 5;

const TIMEOUT: u32 = MOVE_TIMEOUT + FALLING_EXTRA_TIMEOUT;

fn mock_resources() -> Resources {
    Resources::new(None, OperationState::Running, Instant { nanos: 0 })
}

fn mock_player_entity_with_jump(pos: Point) -> PlayerEntity {
    let mut context = PlayerContext::new(PlayerConfiguration {
        jump_key: KeyKind::Space,
        teleport_key: None,
        familiar_key: None,
        has_extended_teleport_range: false,
        disable_teleport_on_fall: false,
        move_timeout: MOVE_TIMEOUT,
        grappling_threshold: 24,
        familiars_swap_fail_limit: 3,
    });
    context.last_known_pos = Some(pos);
    context.is_stationary = true;

    PlayerEntity {
        state: Player::Idle,
        context,
        last_destinations: None,
        can_override_state: false,
        can_override_state_anywhere: false,
    }
}

fn mock_moving(pos: Point, dest: Point) -> Moving {
    Moving {
        pos,
        dest,
        exact: false,
        completed: false,
        timeout: Timeout::default(),
        intermediates: None,
    }
}

fn falling_of(player: &PlayerEntity) -> Falling {
    match player.state {
        Player::Falling(falling) => falling,
        _ => panic!("state is not falling"),
    }
}

#[test]
fn update_falling_state_started() {
    let moving = mock_moving(POS, Point::new(POS.x, POS.y - 5)); // ensures falling
    let mut player = mock_player_entity_with_jump(POS);
    player.state = Player::Falling(Falling { moving, anchor: ORIGIN, timeout_on_complete: false });
    let mut resources = mock_resources();

    update_falling_state(&mut resources, &mut player);

    assert_eq!(
        resources.input,
        vec![InputCommand::Key(KeyKind::Down), InputCommand::Key(KeyKind::Space)]
    );
    assert!(falling_of(&player).moving.timeout.started);
    assert_eq!(player.context.last_movement, Some(LastMovement::Falling));
}

#[test]
fn update_falling_state_started_stalls_when_not_stationary() {
    let moving = mock_moving(POS, Point::new(POS.x, POS.y - 5));
    let mut player = mock_player_entity_with_jump(POS);
    player.context.is_stationary = false;
    player.state = Player::Falling(Falling { moving, anchor: ORIGIN, timeout_on_complete: false });
    let mut resources = mock_resources();

    update_falling_state(&mut resources, &mut player);

    assert!(resources.input.is_empty());
    assert!(!falling_of(&player).moving.timeout.started);
    assert_eq!(falling_of(&player).anchor, POS);
    assert_eq!(player.context.last_movement, None);
}

fn mock_completed() -> Moving {
    let mut moving = mock_moving(POS, Point::new(POS.x, POS.y - 5)).timeout_started(true);
    moving.completed = true;
    moving.timeout.total = 5;
    moving
}

#[test]
fn update_falling_completes_and_timeouts_if_enabled() {
    let mut player = mock_player_entity_with_jump(POS);
    player.state = Player::Falling(Falling {
        moving: mock_completed(),
        anchor: ORIGIN,
        timeout_on_complete: true,
    });

    update_falling_state(&mut mock_resources(), &mut player);

    assert!(falling_of(&player).moving.completed);
    assert_eq!(falling_of(&player).moving.timeout.current, TIMEOUT);
}

#[test]
fn update_falling_completes_without_timeout_if_disabled() {
    let mut player = mock_player_entity_with_jump(POS);
    player.state = Player::Falling(Falling {
        moving: mock_completed(),
        anchor: ORIGIN,
        timeout_on_complete: false,
    });

    update_falling_state(&mut mock_resources(), &mut player);

    assert_eq!(falling_of(&player).moving.timeout.current, 1);
}

#[test]
fn timed_out_fall_goes_back_to_moving() {
    let mut player = mock_player_entity_with_jump(POS);
    player.state = Player::Falling(Falling::new(mock_completed(), ORIGIN, true));
    let mut resources = mock_resources();

    update_falling_state(&mut resources, &mut player);
    update_falling_state(&mut resources, &mut player);

    match player.state {
        Player::Moving(dest, exact, intermediates) => {
            assert_eq!(dest, Point::new(POS.x, POS.y - 5));
            assert!(!exact);
            assert_eq!(intermediates, None);
        }
        _ => panic!("state is not moving"),
    }
}

#[test]
fn fall_to_a_higher_place_is_not_started() {
    let mut player = mock_player_entity_with_jump(POS);
    let moving = mock_moving(POS, Point::new(POS.x, POS.y));
    player.state = Player::Falling(Falling::new(moving, ORIGIN, false));
    let mut resources = mock_resources();

    update_falling_state(&mut resources, &mut player);

    assert!(matches!(player.state, Player::Moving(_, false, None)));
    assert!(resources.input.is_empty());
    assert_eq!(player.context.last_movement, None);
}

#[test]
fn fall_waits_for_earlier_keys() {
    let mut player = mock_player_entity_with_jump(POS);
    player.context.stalling = true;
    let moving = mock_moving(POS, Point::new(POS.x, POS.y - 5));
    player.state = Player::Falling(Falling::new(moving, ORIGIN, false));
    let mut resources = mock_resources();

    let followup = update_falling_state(&mut resources, &mut player);

    assert_eq!(followup, FallingFollowup::ClearStallingBuffer);
    assert!(!falling_of(&player).moving.timeout.started);
    assert_eq!(falling_of(&player).anchor, ORIGIN);
}

#[test]
fn short_fall_is_teleported() {
    for (distance, extended, disabled, key) in [
        (15, false, false, KeyKind::T),
        (16, false, false, KeyKind::Space),
        (19, true, false, KeyKind::T),
        (20, true, false, KeyKind::Space),
        (15, false, true, KeyKind::Space),
    ] {
        let mut player = mock_player_entity_with_jump(POS);
        player.context.config.teleport_key = Some(KeyKind::T);
        player.context.config.has_extended_teleport_range = extended;
        player.context.config.disable_teleport_on_fall = disabled;
        let moving = mock_moving(POS, Point::new(POS.x, POS.y - distance));
        player.state = Player::Falling(Falling::new(moving, ORIGIN, false));
        let mut resources = mock_resources();

        update_falling_state(&mut resources, &mut player);

        let expected = if key == KeyKind::T {
            vec![
                InputCommand::KeyDown(KeyKind::Down),
                InputCommand::Sleep(30),
                InputCommand::KeyFor(KeyKind::T, 80),
                InputCommand::Sleep(30),
                InputCommand::KeyUp(KeyKind::Down),
            ]
        } else {
            vec![InputCommand::Key(KeyKind::Down), InputCommand::Key(key)]
        };
        assert_eq!(resources.input, expected);
    }
}

fn mock_key(with: ActionKeyWith) -> Key {
    Key {
        key: KeyKind::Q,
        key_hold_ticks: 0,
        key_hold_buffered_to_wait_after: false,
        link_key: LinkKeyBinding::Unlinked,
        count: 1,
        position: None,
        direction: ActionKeyDirection::Any,
        with,
        wait_before_use_ticks: 0,
        wait_before_use_ticks_random_range: 0,
        wait_after_use_ticks: 0,
        wait_after_use_ticks_random_range: 0,
        wait_after_buffered: WaitAfterBuffered::Unbuffered,
    }
}

#[test]
fn key_is_used_close_to_the_destination() {
    for (distance, with, used) in [
        (4, ActionKeyWith::Any, true),
        (5, ActionKeyWith::Any, false),
        (4, ActionKeyWith::Stationary, false),
    ] {
        let mut player = mock_player_entity_with_jump(POS);
        player.context.set_normal_action(Some(1), PlayerAction::Key(mock_key(with)));
        let mut moving = mock_completed();
        moving.dest = Point::new(POS.x, POS.y - distance);
        player.state = Player::Falling(Falling::new(moving, ORIGIN, false));

        update_falling_state(&mut mock_resources(), &mut player);

        assert_eq!(matches!(player.state, Player::UseKey(_)), used);
    }
}

fn mock_mob() -> AutoMob {
    AutoMob {
        key: KeyKind::Q,
        key_hold_ticks: 0,
        link_key: LinkKeyBinding::Unlinked,
        count: 1,
        with: ActionKeyWith::Any,
        wait_before_ticks: 0,
        wait_before_ticks_random_range: 0,
        wait_after_ticks: 0,
        wait_after_ticks_random_range: 0,
        position: Position { x: 0, x_random_range: 0, y: 0, allow_adjusting: false },
        is_pathing: false,
    }
}

#[test]
fn mobbing_goes_on_while_falling() {
    let mut player = mock_player_entity_with_jump(POS);
    player.context.set_normal_action(None, PlayerAction::AutoMob(mock_mob()));
    let mut moving = mock_completed();
    moving.intermediates = Some(MovingIntermediates { remaining: 2, last: Point::new(90, 60) });
    player.state = Player::Falling(Falling::new(moving, ORIGIN, false));
    let mut resources = mock_resources();

    let followup = update_falling_state(&mut resources, &mut player);
    assert_eq!(
        followup,
        FallingFollowup::AutoMob(AutoMobFollowup {
            mob: mock_mob(),
            x_distance: 10,
            x_direction: -10,
            y_distance: 40,
        })
    );

    // At an intermediate destination the player goes on from there.
    moving.dest = POS;
    player.state = Player::Falling(Falling::new(moving, ORIGIN, false));
    let followup = update_falling_state(&mut resources, &mut player);
    assert_eq!(followup, FallingFollowup::Nothing);
    assert_eq!(resources.input, vec![InputCommand::KeyUp(KeyKind::Down)]);
    assert!(matches!(player.state, Player::Moving(POS, false, Some(_))));
}

#[test]
fn timeout_runs_out_in_time() {
    let mut timeout = Timeout::default();
    match next_timeout_lifecycle(timeout, 2) {
        Lifecycle::Started(next) => timeout = next,
        other => panic!("{other:?}"),
    }
    for tick in 1..=2 {
        match next_timeout_lifecycle(timeout, 2) {
            Lifecycle::Updated(next) => {
                assert_eq!(next.current, tick);
                timeout = next;
            }
            other => panic!("{other:?}"),
        }
    }
    assert_eq!(next_timeout_lifecycle(timeout, 2), Lifecycle::Ended);
}

#[test]
fn moving_along_the_axis_starts_over() {
    let mut moving = mock_moving(POS, ORIGIN).timeout_started(true);
    moving.timeout.current = 3;
    let there = Point::new(POS.x, POS.y - 1);
    match next_moving_lifecycle_with_axis(moving, there, 9, ChangeAxis::Vertical) {
        MovingLifecycle::Updated(next) => {
            assert_eq!(next.timeout.current, 0);
            assert_eq!(next.timeout.total, 1);
            assert_eq!(next.pos, there);
        }
        other => panic!("{other:?}"),
    }
    match next_moving_lifecycle_with_axis(moving, there, 9, ChangeAxis::Horizontal) {
        MovingLifecycle::Updated(next) => assert_eq!(next.timeout.current, 4),
        other => panic!("{other:?}"),
    }
}
