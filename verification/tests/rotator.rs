use std::collections::VecDeque;
use std::sync::Arc;

use komari::bridge::KeyKind;
use komari::clock::{Duration, Instant};
use komari::detect::{Detector, QuickSlotsHexaBooster, SolErda};
use komari::ecs::{
    Buff, BuffEntity, BuffKind, Minimap, MinimapEntity, MinimapIdle, OperationState, PlayerEntity,
    Resources, Skill, World,
};
use komari::geometry::{Point, Rect};
use komari::models::actions::{
    Action, ActionCondition, ActionKey, ActionKeyDirection, ActionKeyWith, ActionMove, Bound,
    EliteBossBehavior, ExchangeHexaBoosterCondition, FamiliarRarities, Familiars, Position,
    SwappableFamiliars, WaitAfterBuffered,
};
use komari::models::keys::{LinkKeyBinding, MobbingKey};
use komari::player::actions::{Booster, FamiliarsSwap, PingPong, PingPongDirection, PlayerAction};
use komari::player::context::{PlayerConfiguration, PlayerContext, Quadrant};
use komari::player::Player;
use komari::rotator::action::{
    elite_boss_use_key_priority_action, exchange_hexa_booster_priority_action,
    familiars_swap_priority_action, panic_priority_action, priority_action, rotator_action,
    solve_rune_priority_action, unstuck_priority_action, use_booster_priority_action, LinkedAction,
    PriorityAction, RotatorAction,
};
use komari::rotator::conditions::{
    at_least_millis_passed_since, is_buff_wanted, should_exchange_hexa_booster,
    should_queue_fixed_action, Condition, ConditionResult, Detection, Gate,
    PriorityActionQueueInfo,
};
use komari::rotator::default_rotator::{
    has_side_loaded_action_executing, next_action_id, DefaultRotator, Rotator,
};
use komari::rotator::mobbing::auto_mob_positions;
use komari::rotator::model::{MobSighting, Observation, RotatorMode};
use komari::rotator::parts::RotatorBuildArgs;
use komari::task::Update;

const COOLDOWN_BETWEEN_QUEUE_MILLIS: u64 = 20_000;

const HERE: Position = Position { x: 0, x_random_range: 0, y: 0, allow_adjusting: false };

const NORMAL_ACTION: Action = Action::Move(ActionMove {
    position: HERE,
    condition: ActionCondition::Any,
    wait_after_move_millis: 0,
});

const PRIORITY_ACTION: Action = Action::Move(ActionMove {
    position: HERE,
    condition: ActionCondition::ErdaShowerOffCooldown,
    wait_after_move_millis: 0,
});

const LINKED_ACTION: Action = Action::Move(ActionMove {
    position: HERE,
    condition: ActionCondition::Linked,
    wait_after_move_millis: 0,
});

fn millis(millis: u64) -> Duration {
    Duration::from_millis(millis)
}

fn now() -> Instant {
    Instant { nanos: 1_000_000 * 1_000_000 }
}

fn ago(duration: Duration) -> Option<Instant> {
    Some(Instant { nanos: now().nanos - duration.nanos })
}

fn mock_context() -> PlayerContext {
    PlayerContext::new(PlayerConfiguration {
        jump_key: KeyKind::Space,
        teleport_key: None,
        familiar_key: None,
        has_extended_teleport_range: false,
        disable_teleport_on_fall: false,
        move_timeout: 5,
        grappling_threshold: 24,
        familiars_swap_fail_limit: 3,
    })
}

fn mock_world() -> World {
    World {
        minimap: MinimapEntity { state: Minimap::Detecting, portals: vec![] },
        player: PlayerEntity {
            state: Player::Idle,
            context: mock_context(),
            last_destinations: None,
            can_override_state: true,
            can_override_state_anywhere: true,
        },
        erda_shower: Skill::Detecting,
        buffs: vec![],
    }
}

fn mock_idle() -> MinimapIdle {
    MinimapIdle { bbox: Rect::new(0, 0, 0, 0), rune: None, has_any_other_player: false }
}

fn mock_detector() -> Arc<Detector> {
    Arc::new(Detector {
        lie_detector_shape_preparing: false,
        lie_detector_shape: None,
        familiar_menu_opened: false,
        familiar_slots: vec![],
        familiar_free_boxes: vec![],
        familiar_level_button: None,
        familiar_hover_level: None,
        familiar_cards: vec![],
        familiar_scrollbar: None,
        familiar_save_button: None,
    })
}

fn mock_resources(detector: Option<Arc<Detector>>) -> Resources {
    Resources::new(detector, OperationState::Running, now())
}

fn nothing_observed() -> Observation {
    Observation { now: now(), updates: vec![], mobs: None }
}

fn normal() -> PlayerAction {
    PlayerAction::from_action(NORMAL_ACTION)
}

fn always(result: ConditionResult, inner: RotatorAction, queue_to_front: bool) -> PriorityAction {
    PriorityAction {
        condition: Condition::Always(result),
        condition_kind: None,
        inner,
        metadata: None,
        queue_to_front,
        queue_info: PriorityActionQueueInfo::default(),
    }
}

fn mock_args(map_actions: Vec<Action>, buffs: Vec<(BuffKind, KeyKind)>) -> RotatorBuildArgs {
    RotatorBuildArgs {
        mode: RotatorMode::default(),
        map_actions,
        character_actions: vec![],
        buffs,
        familiars: Familiars {
            enable_familiars_swapping: false,
            swap_check_millis: 0,
            swappable_familiars: SwappableFamiliars::All,
            swappable_rarities: FamiliarRarities { rare: false, epic: false },
        },
        familiar_essence_key: KeyKind::A,
        elite_boss_behavior: EliteBossBehavior::CycleChannel,
        elite_boss_behavior_key: KeyKind::A,
        hexa_booster_exchange_condition: ExchangeHexaBoosterCondition::Never,
        hexa_booster_exchange_amount: 1,
        hexa_booster_exchange_all: false,
        enable_panic_mode: true,
        enable_rune_solving: true,
        enable_transparent_shape_solving: true,
        enable_violetta_solving: true,
        enable_reset_normal_actions_on_erda: false,
        enable_using_generic_booster: false,
        enable_using_hexa_booster: false,
    }
}

#[test]
fn rotator_at_least_millis_passed_since() {
    assert!(at_least_millis_passed_since(None, 1000, now()));
    assert!(at_least_millis_passed_since(ago(millis(2000)), 1000, now()));
    assert!(!at_least_millis_passed_since(ago(millis(500)), 1000, now()));
}

#[test]
fn rotator_should_queue_fixed_action_every_millis() {
    let world = mock_world();

    assert!(should_queue_fixed_action(
        &world,
        ago(millis(3000)),
        ActionCondition::EveryMillis(2000),
        now()
    ));
    assert!(!should_queue_fixed_action(
        &world,
        ago(millis(1000)),
        ActionCondition::EveryMillis(2000),
        now()
    ));
}

#[test]
fn rotator_should_queue_fixed_action_erda_shower() {
    let mut world = mock_world();

    world.erda_shower = Skill::Idle;
    assert!(!should_queue_fixed_action(
        &world,
        ago(millis(COOLDOWN_BETWEEN_QUEUE_MILLIS - 1000)),
        ActionCondition::ErdaShowerOffCooldown,
        now()
    ));
    assert!(should_queue_fixed_action(
        &world,
        ago(millis(COOLDOWN_BETWEEN_QUEUE_MILLIS)),
        ActionCondition::ErdaShowerOffCooldown,
        now()
    ));

    world.erda_shower = Skill::Detecting;
    assert!(!should_queue_fixed_action(
        &world,
        ago(millis(COOLDOWN_BETWEEN_QUEUE_MILLIS)),
        ActionCondition::ErdaShowerOffCooldown,
        now()
    ));
}

#[test]
fn rotator_build_actions() {
    let mut rotator = DefaultRotator::default();
    let actions = vec![NORMAL_ACTION, NORMAL_ACTION, PRIORITY_ACTION];
    let buffs = vec![(BuffKind::Rune, KeyKind::A); 4];
    let args = mock_args(actions, buffs);

    rotator.build_actions(&args);
    assert_eq!(rotator.priority_actions.len(), 11);
    assert_eq!(rotator.normal_actions.len(), 2);
}

#[test]
fn rotator_rotate_action_start_to_end_then_reverse() {
    let mut rotator = DefaultRotator::default();
    let mut world = mock_world();
    let resources = mock_resources(None);
    let observed = nothing_observed();
    rotator.normal_rotate_mode = RotatorMode::StartToEndThenReverse;
    for i in 0..3 {
        rotator.normal_actions.push((i, RotatorAction::Single(normal())));
    }

    rotator.rotate_action(&resources, &mut world, &observed);
    assert_eq!(world.player.context.normal_action_id, Some(0));
    assert!(!rotator.normal_actions_backward);
    assert_eq!(rotator.normal_index, 1);

    world.player.context.clear_actions_aborted();
    rotator.rotate_action(&resources, &mut world, &observed);
    assert_eq!(world.player.context.normal_action_id, Some(1));
    assert!(!rotator.normal_actions_backward);
    assert_eq!(rotator.normal_index, 2);

    world.player.context.clear_actions_aborted();
    rotator.rotate_action(&resources, &mut world, &observed);
    assert_eq!(world.player.context.normal_action_id, Some(2));
    assert!(rotator.normal_actions_backward);
    assert_eq!(rotator.normal_index, 1);

    world.player.context.clear_actions_aborted();
    rotator.rotate_action(&resources, &mut world, &observed);
    assert_eq!(world.player.context.normal_action_id, Some(1));
    assert!(rotator.normal_actions_backward);
    assert_eq!(rotator.normal_index, 2);

    world.player.context.clear_actions_aborted();
    rotator.rotate_action(&resources, &mut world, &observed);
    assert_eq!(world.player.context.normal_action_id, Some(0));
    assert!(!rotator.normal_actions_backward);
    assert_eq!(rotator.normal_index, 1);
}

#[test]
fn rotator_rotate_action_start_to_end() {
    let mut world = mock_world();
    let mut rotator = DefaultRotator::default();
    let resources = mock_resources(None);
    let observed = nothing_observed();
    rotator.normal_rotate_mode = RotatorMode::StartToEnd;
    for i in 0..2 {
        rotator.normal_actions.push((i, RotatorAction::Single(normal())));
    }

    rotator.rotate_action(&resources, &mut world, &observed);
    assert!(world.player.context.has_normal_action());
    assert!(!rotator.normal_actions_backward);
    assert_eq!(rotator.normal_index, 1);

    world.player.context.clear_actions_aborted();

    rotator.rotate_action(&resources, &mut world, &observed);
    assert!(world.player.context.has_normal_action());
    assert!(!rotator.normal_actions_backward);
    assert_eq!(rotator.normal_index, 0);
}

#[test]
fn rotator_priority_actions_queue() {
    let mut rotator = DefaultRotator::default();
    let mut minimap = mock_idle();
    minimap.rune = Some(Point::new(0, 0));
    let mut world = mock_world();
    world.minimap.state = Minimap::Idle(minimap);
    world.buffs.push(BuffEntity { kind: BuffKind::Rune, state: Buff::No });
    rotator.priority_actions.insert(
        55,
        PriorityAction {
            condition: Condition::SolveRune,
            condition_kind: None,
            inner: RotatorAction::Single(PlayerAction::SolveRune),
            metadata: None,
            queue_to_front: true,
            queue_info: PriorityActionQueueInfo::default(),
        },
    );
    let resources = mock_resources(None);

    rotator.rotate_action(&resources, &mut world, &nothing_observed());
    assert_eq!(rotator.priority_actions_queue.len(), 0);
    assert_eq!(world.player.context.priority_action_id, Some(55));
}

#[test]
fn rotator_priority_actions_queue_to_front() {
    let mut rotator = DefaultRotator::default();
    let mut world = mock_world();
    let resources = mock_resources(None);
    let observed = nothing_observed();
    // queue 2 non-front priority actions
    for id in [2, 3] {
        rotator.priority_actions.insert(
            id,
            always(ConditionResult::Queue, RotatorAction::Single(normal()), false),
        );
    }

    rotator.rotate_action(&resources, &mut world, &observed);
    assert_eq!(rotator.priority_actions_queue.len(), 1);
    assert_eq!(world.player.context.priority_action_id, Some(2));

    // add 1 front priority action
    rotator
        .priority_actions
        .insert(4, always(ConditionResult::Queue, RotatorAction::Single(normal()), true));

    // non-front priority action get replaced
    rotator.rotate_action(&resources, &mut world, &observed);
    assert_eq!(rotator.priority_actions_queue, VecDeque::from_iter([2, 3]));
    assert_eq!(world.player.context.priority_action_id, Some(4));

    // add another front priority action
    rotator
        .priority_actions
        .insert(5, always(ConditionResult::Queue, RotatorAction::Single(normal()), true));

    // queued front priority action cannot be replaced
    // by another front priority action
    rotator.rotate_action(&resources, &mut world, &observed);
    assert_eq!(rotator.priority_actions_queue, VecDeque::from_iter([5, 2, 3]));
    assert_eq!(world.player.context.priority_action_id, Some(4));
}

fn two_linked() -> LinkedAction {
    LinkedAction {
        inner: normal(),
        next: Some(Box::new(LinkedAction { inner: normal(), next: None })),
    }
}

#[test]
fn rotator_priority_linked_action() {
    let mut rotator = DefaultRotator::default();
    let mut world = mock_world();
    let resources = mock_resources(None);
    let observed = nothing_observed();
    rotator
        .priority_actions
        .insert(2, always(ConditionResult::Queue, RotatorAction::Linked(two_linked()), false));

    // linked action queued
    rotator.rotate_action(&resources, &mut world, &observed);
    assert!(rotator.priority_actions_queue.is_empty());
    assert!(rotator.priority_queuing_linked_action.is_some());
    assert_eq!(world.player.context.priority_action_id, Some(2));

    // linked action cannot be replaced by queue to front
    rotator.priority_actions.insert(
        4,
        always(ConditionResult::Queue, RotatorAction::Single(PlayerAction::SolveRune), true),
    );
    rotator.rotate_action(&resources, &mut world, &observed);
    assert_eq!(rotator.priority_actions_queue, VecDeque::from_iter([4]));

    world.player.context.clear_actions_aborted();
    rotator.rotate_action(&resources, &mut world, &observed);
    assert!(rotator.priority_queuing_linked_action.is_none());
    assert_eq!(rotator.priority_actions_queue, VecDeque::from_iter([4]));
    assert_eq!(world.player.context.priority_action_id, Some(2));
}

#[test]
fn rotate_ping_pong_direction() {
    let mut player = mock_context();
    let mut rotator = DefaultRotator::default();
    let mut idle = mock_idle();
    idle.bbox = Rect::new(0, 0, 100, 100); // x: [0, 100]
    let bound = Bound { x: 20, y: 20, width: 80, height: 80 };

    // Closer to right, further than left -> Go left
    player.last_known_pos = Some(Point::new(80, 50));
    rotator.rotate_ping_pong(&mut player, Minimap::Idle(idle), MobbingKey::default(), bound);

    assert!(matches!(
        player.normal_action,
        Some(PlayerAction::PingPong(PingPong { direction: PingPongDirection::Left, .. }))
    ));

    // Closer to left, further than right -> Go right
    player.clear_actions_aborted();
    player.last_known_pos = Some(Point::new(10, 50));
    rotator.rotate_ping_pong(&mut player, Minimap::Idle(idle), MobbingKey::default(), bound);

    assert!(matches!(
        player.normal_action,
        Some(PlayerAction::PingPong(PingPong { direction: PingPongDirection::Right, .. }))
    ));
}

#[test]
fn rotator_priority_action_is_ignored_when_executing() {
    let mut rotator = DefaultRotator::default();
    let mut world = mock_world();
    let resources = mock_resources(None);

    // Insert a priority action with condition_kind = None
    let action_id = 99;
    rotator.priority_actions.insert(
        action_id,
        always(ConditionResult::Queue, RotatorAction::Single(normal()), false),
    );
    // Simulate the action is currently being executed by the player
    world.player.context.set_priority_action(Some(action_id), normal());

    // Call rotate_priority_actions
    rotator.rotate_priority_actions(&resources, &mut world, &nothing_observed());

    let action = rotator.priority_actions.get(&action_id).unwrap();

    // Assert the action was marked as ignored
    assert!(action.queue_info.ignoring);
    assert!(action.queue_info.last_queued_time.is_some());

    // It should not be in the queue
    assert!(!rotator.priority_actions_queue.contains(&action_id));
}

#[test]
fn rotator_priority_linked_action_is_ignored_when_executing() {
    let mut rotator = DefaultRotator::default();
    let mut world = mock_world();
    let resources = mock_resources(None);

    let action_id = 42;
    let mut linked = always(
        ConditionResult::Queue,
        RotatorAction::Linked(LinkedAction { inner: normal(), next: None }),
        false,
    );
    linked.condition_kind = Some(ActionCondition::Linked);
    rotator.priority_actions.insert(action_id, linked);

    // Simulate action is being executed
    world.player.context.set_priority_action(Some(action_id), normal());

    rotator.rotate_priority_actions(&resources, &mut world, &nothing_observed());

    let action = rotator.priority_actions.get(&action_id).unwrap();

    assert!(action.queue_info.ignoring);
    assert!(action.queue_info.last_queued_time.is_some());
    assert!(!rotator.priority_actions_queue.contains(&action_id));
}

#[test]
fn rotator_erda_shower_action_ignored_if_another_erda_is_queued() {
    let mut rotator = DefaultRotator::default();
    let mut world = mock_world();
    let resources = mock_resources(None);

    let first_erda_id = 1;
    let second_erda_id = 2;

    let mut first = always(ConditionResult::Queue, RotatorAction::Single(normal()), false);
    first.condition_kind = Some(ActionCondition::ErdaShowerOffCooldown);
    first.queue_info.last_queued_time = Some(now());
    rotator.priority_actions.insert(first_erda_id, first);

    let mut second = always(ConditionResult::Queue, RotatorAction::Single(normal()), false);
    second.condition_kind = Some(ActionCondition::ErdaShowerOffCooldown);
    rotator.priority_actions.insert(second_erda_id, second);

    // Queue the first erda action manually
    rotator.priority_actions_queue.push_back(first_erda_id);

    // Run rotate
    rotator.rotate_priority_actions(&resources, &mut world, &nothing_observed());

    let second_erda = rotator.priority_actions.get(&second_erda_id).unwrap();

    assert!(second_erda.queue_info.ignoring);
    assert!(second_erda.queue_info.last_queued_time.is_some());
    assert!(!rotator.priority_actions_queue.contains(&second_erda_id));
}

/// Lets the detection of an action answer after a few ticks.
fn queue_or_give_up(action: &PriorityAction, resources: &Resources, world: &World, last: Option<Instant>) {
    let answers = [Update::Pending, Update::Pending, Update::Answer(true)];
    for update in answers {
        let result = action.condition.evaluate(resources, world, last, now(), update);
        if matches!(result, ConditionResult::Queue) {
            return;
        }
    }
    panic!("queue result");
}

#[test]
fn unstuck_priority_action_triggers_when_esc_settings_detected() {
    let resources = mock_resources(Some(mock_detector()));
    let action = unstuck_priority_action();
    assert_eq!(action.condition.detection(), Some((Detection::EscSettings, 3_000)));
    queue_or_give_up(&action, &resources, &mock_world(), None);
}

#[test]
fn elite_boss_use_key_priority_action_triggers_when_elite_present() {
    let resources = mock_resources(Some(mock_detector()));
    let action = elite_boss_use_key_priority_action(KeyKind::A);
    assert_eq!(action.condition.detection(), Some((Detection::EliteBossBar, 5_000)));
    queue_or_give_up(&action, &resources, &mock_world(), None);
}

#[test]
fn panic_priority_action_triggers_when_has_other_players() {
    let resources = mock_resources(None);
    let mut idle = mock_idle();
    idle.has_any_other_player = true;
    let mut world = mock_world();
    world.minimap.state = Minimap::Idle(idle);

    let action = panic_priority_action();
    queue_or_give_up(&action, &resources, &world, ago(millis(16000)));
}

#[test]
fn detections_are_asked_for_only_where_they_are_waited_for() {
    let mut rotator = DefaultRotator::default();
    rotator.priority_actions.insert(7, unstuck_priority_action());
    rotator.priority_actions.insert(8, solve_rune_priority_action());
    let world = mock_world();

    let asked = rotator.detection_requests(&mock_resources(Some(mock_detector())), &world, now());
    assert_eq!(asked, vec![(7, Detection::EscSettings, 3_000)]);
    // Without a frame there is nothing to detect anything on.
    assert_eq!(rotator.detection_requests(&mock_resources(None), &world, now()), vec![]);
}

#[test]
fn reported_detection_queues_its_action() {
    let mut rotator = DefaultRotator::default();
    rotator.priority_actions.insert(7, unstuck_priority_action());
    let mut world = mock_world();
    let resources = mock_resources(Some(mock_detector()));

    rotator.rotate_priority_actions(&resources, &mut world, &nothing_observed());
    assert!(rotator.priority_actions_queue.is_empty());

    let observed =
        Observation { now: now(), updates: vec![(7, Update::Answer(true))], mobs: None };
    rotator.rotate_priority_actions(&resources, &mut world, &observed);
    assert_eq!(rotator.priority_actions_queue, VecDeque::from_iter([7]));
    let action = rotator.priority_actions.get(&7).unwrap();
    assert_eq!(action.queue_info.last_queued_time, Some(now()));
}

#[test]
fn halting_rotates_only_injected_actions() {
    let mut rotator = DefaultRotator::default();
    rotator.normal_actions.push((0, RotatorAction::Single(normal())));
    let mut world = mock_world();
    let mut resources = mock_resources(None);
    resources.operation = OperationState::Halting;

    rotator.rotate_action(&resources, &mut world, &nothing_observed());
    assert!(!world.player.context.has_normal_action());
    assert!(!world.player.context.has_priority_action());

    rotator.inject_action(PlayerAction::Unstuck);
    rotator.inject_action(PlayerAction::SolveRune);
    rotator.rotate_action(&resources, &mut world, &nothing_observed());
    assert_eq!(world.player.context.priority_action, Some(PlayerAction::Unstuck));
    assert!(has_side_loaded_action_executing(&world.player.context));
    assert_eq!(rotator.priority_actions_side_queue.len(), 1);
}

#[test]
fn injected_action_waits_for_a_built_one() {
    let mut rotator = DefaultRotator::default();
    rotator.priority_actions.insert(
        7,
        always(ConditionResult::Skip, RotatorAction::Single(PlayerAction::SolveRune), false),
    );
    rotator.priority_actions.insert(
        8,
        always(ConditionResult::Skip, RotatorAction::Single(PlayerAction::SolveShape), true),
    );
    rotator.priority_actions_queue.push_back(8);
    let mut world = mock_world();
    world.player.context.set_priority_action(Some(7), PlayerAction::SolveRune);
    rotator.inject_action(PlayerAction::Unstuck);

    rotator.rotate_priority_actions_queue(&mut world.player);
    assert_eq!(world.player.context.priority_action_id, Some(7));
    assert_eq!(world.player.context.priority_action, Some(PlayerAction::SolveRune));
    assert_eq!(rotator.priority_actions_side_queue.len(), 1);
    assert_eq!(rotator.priority_actions_queue.len(), 1);

    // So it does while halting.
    let mut resources = mock_resources(None);
    resources.operation = OperationState::Halting;
    rotator.rotate_action(&resources, &mut world, &nothing_observed());
    assert_eq!(world.player.context.priority_action_id, Some(7));
    assert_eq!(rotator.priority_actions_side_queue.len(), 1);

    // Once the built one is done, the injected one comes before what is queued.
    world.player.context.clear_action_completed();
    rotator.rotate_priority_actions_queue(&mut world.player);
    assert_eq!(world.player.context.priority_action, Some(PlayerAction::Unstuck));
    assert_eq!(world.player.context.priority_action_id, None);
    assert!(rotator.priority_actions_side_queue.is_empty());

    world.player.context.clear_action_completed();
    rotator.rotate_priority_actions_queue(&mut world.player);
    assert_eq!(world.player.context.priority_action_id, Some(8));
}

#[test]
fn going_back_and_forth_goes_on_and_on() {
    for (count, expected) in [
        (1, vec![0, 0, 0, 0]),
        (2, vec![0, 1, 0, 1, 0]),
        (3, vec![0, 1, 2, 1, 0, 1, 2, 1, 0]),
    ] {
        let mut rotator = DefaultRotator::default();
        for i in 0..count {
            rotator.normal_actions.push((i, RotatorAction::Single(normal())));
        }
        let mut player = mock_context();
        for id in expected {
            player.clear_actions_aborted();
            rotator.rotate_start_to_end_then_reverse(&mut player);
            assert_eq!(player.normal_action_id, Some(id));
        }
    }
}

#[test]
fn resetting_forgets_what_was_queued() {
    let mut rotator = DefaultRotator::default();
    rotator.normal_index = 3;
    rotator.normal_actions_backward = true;
    rotator.priority_actions_queue.push_back(1);
    rotator.priority_queuing_linked_action = Some((1, Box::new(two_linked())));

    rotator.reset_queue();
    assert_eq!(rotator.normal_index, 0);
    assert!(!rotator.normal_actions_backward);
    assert!(rotator.priority_actions_queue.is_empty());
    assert!(rotator.priority_queuing_linked_action.is_none());
}

#[test]
fn linked_actions_are_built_into_one() {
    let actions = vec![NORMAL_ACTION, LINKED_ACTION, LINKED_ACTION, NORMAL_ACTION];
    let (action, next) = rotator_action(0, &actions);
    assert_eq!(next, 3);
    match action {
        RotatorAction::Linked(linked) => {
            let second = linked.next.unwrap();
            assert!(second.next.unwrap().next.is_none());
        }
        RotatorAction::Single(_) => panic!("linked"),
    }

    let mut rotator = DefaultRotator::default();
    rotator.build_actions(&mock_args(actions, vec![]));
    assert_eq!(rotator.normal_actions.len(), 2);
    assert!(matches!(rotator.normal_actions[0].1, RotatorAction::Linked(_)));
    assert!(matches!(rotator.normal_actions[1].1, RotatorAction::Single(_)));
}

#[test]
fn building_again_replaces_everything() {
    let mut rotator = DefaultRotator::default();
    rotator.build_actions(&mock_args(vec![NORMAL_ACTION, PRIORITY_ACTION], vec![]));
    let before = rotator.priority_actions.len();
    rotator.build_actions(&mock_args(vec![NORMAL_ACTION, PRIORITY_ACTION], vec![]));
    assert_eq!(rotator.priority_actions.len(), before);
    assert_eq!(rotator.normal_actions.len(), 1);
}

#[test]
fn ids_go_around() {
    let mut next_id = u32::MAX;
    assert_eq!(next_action_id(&mut next_id), u32::MAX);
    assert_eq!(next_action_id(&mut next_id), 0);
    assert_eq!(next_id, 1);
}

#[test]
fn erda_actions_do_not_pile_up() {
    let mut rotator = DefaultRotator::default();
    let mut world = mock_world();
    world.erda_shower = Skill::Idle;
    let resources = mock_resources(None);
    for id in [1, 2] {
        let inner = RotatorAction::Single(PlayerAction::from_action(PRIORITY_ACTION));
        let condition = ActionCondition::ErdaShowerOffCooldown;
        rotator.priority_actions.insert(id, priority_action(inner, condition, false));
        rotator.rotate_priority_actions(&resources, &mut world, &nothing_observed());
        assert_eq!(rotator.priority_actions_queue, VecDeque::from_iter([1]));
    }
}

#[test]
fn only_one_booster_is_queued() {
    let mut rotator = DefaultRotator::default();
    rotator.priority_actions.insert(1, use_booster_priority_action(Booster::Generic));
    rotator.priority_actions.insert(2, use_booster_priority_action(Booster::Hexa));
    let mut world = mock_world();
    let resources = mock_resources(Some(mock_detector()));
    let observed = Observation {
        now: now(),
        updates: vec![(1, Update::Answer(true)), (2, Update::Answer(true))],
        mobs: None,
    };

    rotator.rotate_priority_actions(&resources, &mut world, &observed);
    assert_eq!(rotator.priority_actions_queue.len(), 1);
}

#[test]
fn exhausted_booster_is_ignored() {
    let action = use_booster_priority_action(Booster::Hexa);
    let resources = mock_resources(Some(mock_detector()));
    let mut world = mock_world();
    let last = ago(millis(20_000));
    assert_eq!(action.condition.gate(&resources, &world, last, now()), Gate::Poll);
    world.player.context.hexa_booster_exhausted = true;
    assert_eq!(
        action.condition.gate(&resources, &world, last, now()),
        Gate::Settled(ConditionResult::Ignore)
    );
}

#[test]
fn exclusive_buffs_are_not_wanted_together() {
    let mut world = mock_world();
    assert!(is_buff_wanted(&world, BuffKind::ExpCouponX2));
    world.buffs.push(BuffEntity { kind: BuffKind::ExpCouponX3, state: Buff::Yes });
    assert!(!is_buff_wanted(&world, BuffKind::ExpCouponX2));
    assert!(!is_buff_wanted(&world, BuffKind::ExpCouponX3));
    assert!(is_buff_wanted(&world, BuffKind::WealthAcquisitionPotion));
}

#[test]
fn sol_erda_is_exchanged_when_there_is_enough() {
    let unavailable = Some(QuickSlotsHexaBooster::Unavailable);
    let full = ExchangeHexaBoosterCondition::Full;
    let some = ExchangeHexaBoosterCondition::AtLeastOne;
    assert_eq!(should_exchange_hexa_booster(full, None, None), Update::Failed);
    assert_eq!(should_exchange_hexa_booster(full, unavailable, None), Update::Failed);
    assert_eq!(
        should_exchange_hexa_booster(full, Some(QuickSlotsHexaBooster::Available), None),
        Update::Answer(false)
    );
    assert_eq!(
        should_exchange_hexa_booster(full, unavailable, Some(SolErda::AtLeastOne)),
        Update::Answer(false)
    );
    assert_eq!(
        should_exchange_hexa_booster(full, unavailable, Some(SolErda::Full)),
        Update::Answer(true)
    );
    assert_eq!(
        should_exchange_hexa_booster(some, unavailable, Some(SolErda::AtLeastOne)),
        Update::Answer(true)
    );
    let action = exchange_hexa_booster_priority_action(some, 2, false);
    assert_eq!(
        action.condition.detection(),
        Some((Detection::HexaBoosterExchangeable(some), 10_000))
    );
}

#[test]
fn familiars_are_swapped_in_time() {
    let swap = FamiliarsSwap {
        swappable_slots: SwappableFamiliars::All,
        swappable_rarities: FamiliarRarities { rare: true, epic: true },
    };
    let action = familiars_swap_priority_action(swap, 5_000);
    let resources = mock_resources(None);
    let mut world = mock_world();
    let due = |world: &World, last| {
        action.condition.evaluate(&resources, world, last, now(), Update::Pending)
    };
    assert_eq!(due(&world, ago(millis(4_999))), ConditionResult::Skip);
    assert_eq!(due(&world, ago(millis(5_000))), ConditionResult::Queue);
    world.player.context.familiars_swap_fail_count = 3;
    assert_eq!(due(&world, ago(millis(5_000))), ConditionResult::Skip);
}

#[test]
fn mobs_lead_the_player() {
    let mut rotator = DefaultRotator::default();
    let mut player = mock_context();
    player.last_known_pos = Some(Point::new(10, 10));
    let mut idle = mock_idle();
    idle.bbox = Rect::new(0, 0, 100, 100);
    let sighting = Some(MobSighting {
        reachable: vec![Point::new(30, 40)],
        choice: Some(0),
        pathing_point: Point::new(80, 80),
    });

    rotator.rotate_auto_mobbing(&mut player, Minimap::Idle(idle), MobbingKey::default(), &sighting);
    match player.normal_action {
        Some(PlayerAction::AutoMob(mob)) => {
            assert_eq!(mob.key, KeyKind::A);
            assert_eq!(mob.count, 1);
            assert!(!mob.is_pathing);
            assert_eq!(mob.position.x, 30);
        }
        other => panic!("{other:?}"),
    }

    // While the player is busy nothing else is found for it to do.
    let before = player;
    rotator.rotate_auto_mobbing(&mut player, Minimap::Idle(idle), MobbingKey::default(), &sighting);
    assert_eq!(player, before);
}

#[test]
fn player_is_led_on_where_no_mob_can_be_reached() {
    let mut rotator = DefaultRotator::default();
    let mut player = mock_context();
    player.last_known_pos = Some(Point::new(10, 10));
    let pathing_point = Point::new(80, 80);
    let sighting = Some(MobSighting { reachable: vec![], choice: None, pathing_point });
    let idle = Minimap::Idle(mock_idle());
    rotator.rotate_auto_mobbing(&mut player, idle, MobbingKey::default(), &None);
    assert!(!player.has_normal_action());
    rotator.rotate_auto_mobbing(&mut player, idle, MobbingKey::default(), &sighting);
    assert!(matches!(
        player.normal_action,
        Some(PlayerAction::AutoMob(mob)) if mob.is_pathing && mob.position.x == 80
    ));
}

#[test]
fn mobs_too_far_up_are_left_alone() {
    let points = vec![Point::new(1, 90), Point::new(2, 60), Point::new(3, 10)];
    assert_eq!(
        auto_mob_positions(&points, 100, Point::new(0, 20), 24),
        vec![Point::new(1, 10), Point::new(2, 40)]
    );
}

#[test]
fn player_is_led_on_after_too_many_mobs_in_one_quadrant() {
    let mut rotator = DefaultRotator::default();
    let mut player = mock_context();
    player.last_known_pos = Some(Point::new(10, 10));
    player.auto_mob_last_quadrant = Some(Quadrant::TopLeft);
    let mut idle = mock_idle();
    idle.bbox = Rect::new(0, 0, 100, 100);
    let sighting = Some(MobSighting {
        reachable: vec![Point::new(30, 40)],
        choice: Some(0),
        pathing_point: Point::new(80, 80),
    });

    let mut led_on = vec![];
    for call in 1..=14 {
        player.clear_actions_aborted();
        if call == 12 {
            // The player is in another quadrant from now on.
            player.auto_mob_last_quadrant = Some(Quadrant::TopRight);
        }
        rotator.rotate_auto_mobbing(
            &mut player,
            Minimap::Idle(idle),
            MobbingKey::default(),
            &sighting,
        );
        assert_eq!(player.normal_action_id, None);
        match player.normal_action {
            Some(PlayerAction::AutoMob(mob)) if mob.is_pathing => {
                led_on.push(call);
                assert_eq!(mob.position.x, 80);
            }
            Some(PlayerAction::AutoMob(mob)) => assert_eq!(mob.position.x, 30),
            other => panic!("{other:?}"),
        }
    }
    assert_eq!(led_on, vec![5, 10]);
    assert_eq!(rotator.auto_mob_quadrant_consecutive_count, Some((Quadrant::TopRight, 3)));
}

#[test]
fn key_actions_keep_their_settings() {
    let key = ActionKey {
        key: KeyKind::Q,
        key_hold_millis: 66,
        key_hold_buffered_to_wait_after: true,
        link_key: LinkKeyBinding::After(KeyKind::W),
        count: 3,
        position: None,
        condition: ActionCondition::EveryMillis(1000),
        direction: ActionKeyDirection::Left,
        with: ActionKeyWith::DoubleJump,
        wait_before_use_millis: 99,
        wait_before_use_millis_random_range: 0,
        wait_after_use_millis: 100,
        wait_after_use_millis_random_range: 33,
        wait_after_buffered: WaitAfterBuffered::Interruptible,
        queue_to_front: Some(true),
    };
    assert!(Action::Key(key).queue_to_front());
    match PlayerAction::from_action(Action::Key(key)) {
        PlayerAction::Key(key) => {
            assert_eq!(key.key_hold_ticks, 2);
            assert_eq!(key.wait_before_use_ticks, 3);
            assert_eq!(key.wait_after_use_ticks, 3);
            assert_eq!(key.wait_after_use_ticks_random_range, 1);
            assert_eq!(key.link_key, LinkKeyBinding::After(KeyKind::W));
        }
        other => panic!("{other:?}"),
    }
}
