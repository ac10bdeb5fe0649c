//! Whose turn it is: what is handed to the player, and what a rotator is built from.

use vstd::prelude::*;

use crate::bridge::KeyKind;
use crate::clock::Instant;
use crate::ecs::{BuffKind, Minimap, MinimapIdle, PlayerEntity, Resources, World};
use crate::geometry::Point;
use crate::models::actions::{
    Action, ActionCondition, ActionKeyDirection, ActionKeyWith, Bound, EliteBossBehavior,
    ExchangeHexaBoosterCondition, WaitAfterBuffered,
};
use crate::models::keys::{LinkKeyBinding, MobbingKey};
use crate::player::actions::{
    player_action, ticks, Booster, ExchangeBooster, FamiliarsSwap, Key, Panic, PanicTo,
    PingPongDirection, PlayerAction, UseBooster,
};
use crate::player::context::PlayerContext;
use crate::rotator::action::{
    action_at, law_linked_actions_keep_their_order, lemma_linked_run_fits, linked_run,
    ActionMetadata, PriorityAction, RotatorAction,
};
use crate::rotator::conditions::{Condition, PriorityActionQueueInfo};
use crate::rotator::mobbing::mob_positions;
use crate::rotator::model::{
    erda_busy, mob_action, ping_pong_action, reported, MobSighting, Observation, RotatorMode, RotatorView,
};
use crate::rotator::parts::{buff_parts, configured_parts, part_if, Part, RotatorBuildArgs};
use crate::rotator::table::lookup;
use crate::task::Update;

verus! {

/// Whether nothing may interrupt what the player does: its state may not be replaced, it carries out
/// a linked action, or one that was injected, or steps of a linked normal action are left.
pub open spec fn undisturbed(rotator: RotatorView, player: PlayerEntity) -> bool {
    let context = player.context;
    ||| !player.can_override_state
    ||| context.priority_action is Some && context.priority_action_id is None
    ||| (context.priority_action_id matches Some(id) && lookup(rotator.entries, id) matches Some(
        action,
    ) && action.inner is Linked)
    ||| rotator.normal_queuing_linked_action is Some
    ||| (context.normal_action_id matches Some(id) && exists|i: int|
        0 <= i < rotator.normal_actions.len() && (#[trigger] rotator.normal_actions[i]).0 == id
            && rotator.normal_actions[i].1 is Linked)
}

/// While nothing may interrupt the player, rotating the queue changes nothing.
pub proof fn law_player_is_left_undisturbed(rotator: RotatorView, player: PlayerEntity)
    requires
        undisturbed(rotator, player),
    ensures
        rotator.queue_rotated(player) == (rotator, player.context),
{
}

/// A player who may be interrupted and has no priority action is handed what waits: first the next
/// step of a linked action, then what was injected, then the front of the queue. What is handed out
/// does not wait any longer, all else does.
pub proof fn law_idle_player_is_handed_what_waits(rotator: RotatorView, player: PlayerEntity)
    requires
        !undisturbed(rotator, player),
        player.context.priority_action is None,
        player.context.priority_action_id is None,
    ensures
        ({
            let (after, context) = rotator.queue_rotated(player);
            let before = player.context;
            &&& context.normal_action == before.normal_action
            &&& context.normal_action_id == before.normal_action_id
            &&& after.entries == rotator.entries
            &&& match rotator.priority_queuing_linked_action {
                Some((id, linked)) => {
                    &&& context.priority_action == Some(linked.inner)
                    &&& context.priority_action_id == Some(id)
                    &&& after.queue == rotator.queue
                    &&& after.side_queue == rotator.side_queue
                },
                None => if rotator.side_queue.len() > 0 {
                    &&& context.priority_action == Some(rotator.side_queue[0])
                    &&& context.priority_action_id is None
                    &&& after.side_queue == rotator.side_queue.drop_first()
                    &&& after.queue == rotator.queue
                } else if rotator.queue.len() == 0 {
                    after == rotator && context == before
                } else {
                    &&& after.queue == rotator.queue.drop_first()
                    &&& after.side_queue == rotator.side_queue
                    &&& match lookup(rotator.entries, rotator.queue[0]) {
                        None => context == before,
                        Some(action) => {
                            &&& context.priority_action_id == Some(rotator.queue[0])
                            &&& context.priority_action == Some(action.inner.steps()[0])
                            &&& after.priority_queuing_linked_action == match action.inner {
                                RotatorAction::Linked(linked) => match linked.next {
                                    Some(next) => Some((rotator.queue[0], next)),
                                    None => None,
                                },
                                RotatorAction::Single(_) => None,
                            }
                        },
                    }
                },
            }
        }),
{
}

/// A priority action is interrupted only by one that was queued to the front, and not where it was
/// queued to the front itself. Then it is queued again, in front of all others; otherwise nothing
/// changes.
pub proof fn law_priority_action_is_interrupted_by_the_front_only(
    rotator: RotatorView,
    player: PlayerEntity,
)
    requires
        !undisturbed(rotator, player),
        player.context.priority_action is Some,
        rotator.priority_queuing_linked_action is None,
        rotator.side_queue.len() == 0,
        rotator.queue.len() > 0,
        lookup(rotator.entries, rotator.queue[0]) is Some,
    ensures
        ({
            let (after, context) = rotator.queue_rotated(player);
            let id = player.context.priority_action_id->0;
            let front = lookup(rotator.entries, rotator.queue[0])->0;
            let current_is_front = lookup(rotator.entries, id) matches Some(action)
                && action.queue_to_front;
            if front.queue_to_front && !current_is_front {
                &&& context.priority_action_id == Some(rotator.queue[0])
                &&& context.priority_action == Some(front.inner.steps()[0])
                &&& after.queue == seq![id] + rotator.queue.drop_first()
            } else {
                &&& after == rotator
                &&& context == player.context
            }
        }),
{
}

/// A player with a normal action is not handed another one, in whatever mode.
pub proof fn law_normal_action_is_not_replaced(
    rotator: RotatorView,
    context: PlayerContext,
    minimap: Minimap,
    mobs: Option<MobSighting>,
)
    requires
        context.normal_action is Some,
    ensures
        rotator.normal_rotated(context, minimap, mobs) == (rotator, context),
{
}

/// Each mode hands out its own kind of action to a player without one: from start to end the action
/// at the index, going back and forth the one whose turn it is, while mobbing a mob, where mobs were
/// looked for, and in ping pong a way back and forth. What is left of a linked action comes first.
pub proof fn law_mode_decides_what_is_handed_out(
    rotator: RotatorView,
    context: PlayerContext,
    minimap: Minimap,
    mobs: Option<MobSighting>,
)
    requires
        rotator.wf(),
        context.normal_action is None,
    ensures
        ({
            let (after, next) = rotator.normal_rotated(context, minimap, mobs);
            let located = minimap is Idle && context.last_known_pos is Some;
            let len = rotator.normal_actions.len();
            let index = rotator.normal_index;
            &&& after.entries == rotator.entries
            &&& after.queue == rotator.queue
            &&& after.side_queue == rotator.side_queue
            &&& next.priority_action == context.priority_action
            &&& next.priority_action_id == context.priority_action_id
            &&& match rotator.normal_rotate_mode {
                RotatorMode::AutoMobbing(_, _) => {
                    &&& next.normal_action is Some <==> located && mobs is Some
                    &&& next.normal_action matches Some(action) ==> action is AutoMob
                    &&& next.normal_action_id is Some ==> next == context
                },
                RotatorMode::PingPong(_, _) => {
                    &&& next.normal_action is Some <==> located
                    &&& next.normal_action matches Some(action) ==> action is PingPong
                    &&& after == rotator
                },
                mode => if len == 0 {
                    after == rotator && next == context
                } else {
                    match rotator.normal_queuing_linked_action {
                        Some((id, linked)) => {
                            &&& next.normal_action == Some(linked.inner)
                            &&& next.normal_action_id == Some(id)
                            &&& after.normal_index == index
                            &&& after.normal_queuing_linked_action == match linked.next {
                                Some(rest) => Some((id, rest)),
                                None => None,
                            }
                        },
                        None => {
                            let turns = mode is StartToEndThenReverse && index + 1 == len;
                            let backward = rotator.normal_actions_backward != turns;
                            let from = if turns {
                                0
                            } else {
                                index
                            };
                            let at = if mode is StartToEndThenReverse && backward {
                                len - 1 - from
                            } else {
                                from
                            };
                            let (id, action) = rotator.normal_actions[at];
                            &&& next.normal_action == Some(action.steps()[0])
                            &&& next.normal_action_id == Some(id)
                            &&& after.normal_index == (if from + 1 == len {
                                0
                            } else {
                                from + 1
                            })
                            &&& after.normal_actions == rotator.normal_actions
                            &&& mode is StartToEndThenReverse ==> after.normal_actions_backward
                                == backward
                            &&& after.normal_queuing_linked_action == match action {
                                RotatorAction::Linked(linked) => match linked.next {
                                    Some(rest) => Some((id, rest)),
                                    None => None,
                                },
                                RotatorAction::Single(_) => None,
                            }
                        },
                    }
                },
            }
        }),
{
}

/// In ping pong the player goes first to the side of the minimap that is further away, or to the right
/// where both are equally far. The bound is the given one, measured from the bottom of the minimap:
/// the two together with what is above and below make up its height.
pub proof fn law_ping_pong_goes_to_the_further_side(
    pos: Point,
    idle: MinimapIdle,
    key: MobbingKey,
    bound: Bound,
)
    requires
        i32::MIN <= idle.bbox.height - (bound.y + bound.height) <= i32::MAX,
    ensures
        ({
            let to_left = pos.x - idle.bbox.x;
            let to_right = idle.bbox.x + idle.bbox.width - pos.x;
            &&& ping_pong_action(pos, idle, key, bound) matches PlayerAction::PingPong(way)
            &&& way.direction == PingPongDirection::Left <==> to_left > to_right
            &&& way.bound.x == bound.x
            &&& way.bound.width == bound.width
            &&& way.bound.height == bound.height
            &&& way.bound.y + bound.height + bound.y == idle.bbox.height
            &&& way.key == key.key
            &&& way.link_key == key.link_key
            &&& way.with == key.with
            &&& way.count >= 1
            &&& key.count >= 1 ==> way.count == key.count
        }),
{
}

/// So many ticks of a thirtieth of a second, cut to whole milliseconds, fit into the milliseconds, and
/// no more.
pub proof fn law_ticks_fit_into_the_time(millis: u64)
    requires
        millis < 33 * 0x1_0000_0000,
    ensures
        33 * ticks(millis) <= millis < 33 * (ticks(millis) + 1),
{
}

/// What the player carries out is what was configured, with all times in ticks.
pub proof fn law_player_does_what_is_configured(action: Action)
    ensures
        match (action, player_action(action)) {
            (Action::Move(from), PlayerAction::Move(to)) => {
                &&& to.position == from.position
                &&& to.wait_after_move_ticks == ticks(from.wait_after_move_millis)
            },
            (Action::Key(from), PlayerAction::Key(to)) => {
                &&& to.key == from.key
                &&& to.link_key == from.link_key
                &&& to.count == from.count
                &&& to.position == from.position
                &&& to.direction == from.direction
                &&& to.with == from.with
                &&& to.key_hold_ticks == ticks(from.key_hold_millis)
                &&& to.key_hold_buffered_to_wait_after == from.key_hold_buffered_to_wait_after
                &&& to.wait_before_use_ticks == ticks(from.wait_before_use_millis)
                &&& to.wait_before_use_ticks_random_range == ticks(
                    from.wait_before_use_millis_random_range,
                )
                &&& to.wait_after_use_ticks == ticks(from.wait_after_use_millis)
                &&& to.wait_after_use_ticks_random_range == ticks(
                    from.wait_after_use_millis_random_range,
                )
                &&& to.wait_after_buffered == from.wait_after_buffered
            },
            _ => false,
        },
{
}

/// The mobs that the player may go to are those that are not further above it than it can be pulled,
/// in order, each measured from the bottom of the minimap.
pub proof fn law_mobs_within_reach_are_kept(
    points: Seq<Point>,
    height: i32,
    pos: Point,
    threshold: i32,
)
    requires
        threshold >= 0,
    ensures
        mob_positions(points, height, pos, threshold) == points.filter(
            |point: Point| height - point.y <= pos.y + threshold,
        ).map_values(|point: Point| Point { x: point.x, y: (height - point.y) as i32 }),
    decreases points.len(),
{
    reveal(Seq::filter);
    let near = |point: Point| height - point.y <= pos.y + threshold;
    let turned = |point: Point| Point { x: point.x, y: (height - point.y) as i32 };
    if points.len() > 0 {
        law_mobs_within_reach_are_kept(points.drop_last(), height, pos, threshold);
        let before = points.drop_last().filter(near);
        assert(before.push(points.last()).map_values(turned) =~= before.map_values(turned).push(
            turned(points.last()),
        ));
    } else {
        assert(points.filter(near).map_values(turned) =~= seq![]);
    }
    assert(mob_positions(points, height, pos, threshold) =~= points.filter(near).map_values(turned));
}

/// All steps of the parts, one after the other.
pub open spec fn steps_of(parts: Seq<Part>) -> Seq<PlayerAction>
    decreases parts.len(),
{
    if parts.len() == 0 {
        seq![]
    } else {
        steps_of(parts.drop_last()) + match parts.last() {
            Part::Priority(action) => action.inner.steps(),
            Part::Normal(action) => action.steps(),
        }
    }
}

proof fn lemma_steps_of_first(parts: Seq<Part>)
    requires
        parts.len() > 0,
    ensures
        steps_of(parts) =~= steps_of(seq![parts[0]]) + steps_of(parts.drop_first()),
    decreases parts.len(),
{
    if parts.len() == 1 {
        assert(parts =~= seq![parts[0]]);
        assert(parts.drop_first() =~= seq![]);
    } else {
        lemma_steps_of_first(parts.drop_last());
        assert(parts.drop_last().drop_first() =~= parts.drop_first().drop_last());
        assert(parts.drop_first().last() == parts.last());
    }
}

/// Whatever is configured is carried out sooner or later: put together, the steps of what a rotator is
/// built from are all configured actions in their order, none twice and none left out.
pub proof fn law_all_configured_actions_are_built(
    mode: RotatorMode,
    actions: Seq<Action>,
    start: int,
)
    requires
        0 <= start <= actions.len(),
        !(mode is AutoMobbing),
    ensures
        steps_of(configured_parts(mode, actions, start)) =~= actions.skip(start).map_values(
            |action: Action| player_action(action),
        ),
    decreases actions.len() - start,
{
    if start < actions.len() {
        lemma_linked_run_fits(actions, start + 1);
        let next = start + 1 + linked_run(actions, start + 1);
        law_all_configured_actions_are_built(mode, actions, next);
        law_linked_actions_keep_their_order(actions, start);
        let parts = configured_parts(mode, actions, start);
        let rest = configured_parts(mode, actions, next);
        assert(parts.drop_first() =~= rest);
        lemma_steps_of_first(parts);
        let first = seq![parts[0]];
        assert(first.drop_last() =~= seq![]);
        assert(steps_of(first.drop_last()) =~= seq![]);
        assert(first.last() == parts[0]);
        assert(steps_of(first) =~= action_at(actions, start).steps());
    }
}

/// A configured action with a time of its own or one that waits for Erda Shower becomes a priority
/// action with just that condition, to the front as configured. Any other one is a normal action, and
/// is left out while mobbing.
pub proof fn law_condition_decides_the_kind_of_action(
    mode: RotatorMode,
    actions: Seq<Action>,
    start: int,
)
    requires
        0 <= start < actions.len(),
    ensures
        ({
            let action = actions[start];
            let condition = match action {
                Action::Move(action) => action.condition,
                Action::Key(action) => action.condition,
            };
            let front = match action {
                Action::Move(_) => false,
                Action::Key(action) => action.queue_to_front == Some(true),
            };
            let parts = configured_parts(mode, actions, start);
            let rest = configured_parts(
                mode,
                actions,
                start + 1 + linked_run(actions, start + 1),
            );
            if condition is EveryMillis || condition == ActionCondition::ErdaShowerOffCooldown {
                &&& parts.len() == rest.len() + 1
                &&& parts[0] matches Part::Priority(built)
                &&& built.condition == Condition::Fixed(condition)
                &&& built.condition_kind == Some(condition)
                &&& built.queue_to_front == front
                &&& built.metadata is None
                &&& built.queue_info.last_queued_time is None
                &&& built.inner == action_at(actions, start)
                &&& parts.drop_first() =~= rest
            } else if mode is AutoMobbing {
                parts =~= rest
            } else {
                &&& parts.len() == rest.len() + 1
                &&& parts[0] == Part::Normal(action_at(actions, start))
                &&& parts.drop_first() =~= rest
            }
        }),
{
    lemma_linked_run_fits(actions, start + 1);
}

/// An action goes together with exactly those after it that are linked to it.
pub proof fn law_linked_actions_go_together(actions: Seq<Action>, start: int)
    requires
        0 <= start <= actions.len(),
    ensures
        ({
            let run = linked_run(actions, start);
            &&& start + run <= actions.len()
            &&& forall|i: int|
                start <= i < start + run ==> match #[trigger] actions[i] {
                    Action::Move(action) => action.condition == ActionCondition::Linked,
                    Action::Key(action) => action.condition == ActionCondition::Linked,
                }
            &&& start + run < actions.len() ==> match actions[start + run] {
                Action::Move(action) => action.condition != ActionCondition::Linked,
                Action::Key(action) => action.condition != ActionCondition::Linked,
            }
        }),
    decreases actions.len() - start,
{
    if start < actions.len() {
        law_linked_actions_go_together(actions, start + 1);
    }
}

/// A priority action that comes with the rotator itself: it is queued to the front and was never
/// queued before.
pub open spec fn of_its_own(
    condition: Condition,
    action: PlayerAction,
    metadata: Option<ActionMetadata>,
) -> Part {
    Part::Priority(
        PriorityAction {
            condition,
            condition_kind: None,
            inner: RotatorAction::Single(action),
            metadata,
            queue_to_front: true,
            queue_info: PriorityActionQueueInfo { ignoring: false, last_queued_time: None },
        },
    )
}

/// Pressing a key once, after and before some ticks.
pub open spec fn press(key: KeyKind, with: ActionKeyWith, before: u32, after: u32) -> PlayerAction {
    PlayerAction::Key(
        Key {
            key,
            key_hold_ticks: 0,
            key_hold_buffered_to_wait_after: false,
            link_key: LinkKeyBinding::Unlinked,
            count: 1,
            position: None,
            direction: ActionKeyDirection::Any,
            with,
            wait_before_use_ticks: before,
            wait_before_use_ticks_random_range: 0,
            wait_after_use_ticks: after,
            wait_after_use_ticks_random_range: 0,
            wait_after_buffered: WaitAfterBuffered::Unbuffered,
        },
    )
}

proof fn lemma_either(a: Seq<Part>, b: Seq<Part>, x: Part)
    ensures
        (a + b).contains(x) <==> a.contains(x) || b.contains(x),
{
    let all = a + b;
    if all.contains(x) {
        let i = choose|i: int| 0 <= i < all.len() && all[i] == x;
        if i < a.len() {
            assert(a[i] == x);
        } else {
            assert(b[i - a.len()] == x);
        }
    }
    if a.contains(x) {
        let i = choose|i: int| 0 <= i < a.len() && a[i] == x;
        assert(all[i] == x);
    }
    if b.contains(x) {
        let i = choose|i: int| 0 <= i < b.len() && b[i] == x;
        assert(all[a.len() + i] == x);
    }
}

proof fn lemma_only(enabled: bool, part: PriorityAction, x: Part)
    ensures
        part_if(enabled, part).contains(x) <==> enabled && x == Part::Priority(part),
{
    if enabled {
        assert(part_if(enabled, part)[0] == Part::Priority(part));
    }
}

proof fn lemma_configured(mode: RotatorMode, actions: Seq<Action>, start: int, x: Part)
    requires
        configured_parts(mode, actions, start).contains(x),
    ensures
        x matches Part::Priority(action) ==> action.condition is Fixed,
    decreases actions.len() - start,
{
    if 0 <= start < actions.len() {
        lemma_linked_run_fits(actions, start + 1);
        let parts = configured_parts(mode, actions, start);
        let next = start + 1 + linked_run(actions, start + 1);
        let rest = configured_parts(mode, actions, next);
        let i = choose|i: int| 0 <= i < parts.len() && parts[i] == x;
        if parts.len() > rest.len() {
            if i > 0 {
                assert(rest[i - 1] == x);
                lemma_configured(mode, actions, next, x);
            }
        } else {
            assert(parts =~= rest);
            lemma_configured(mode, actions, next, x);
        }
    }
}

/// Boosters are used, Sol Erda is exchanged and familiars are swapped exactly where that is enabled,
/// in the way that is configured.
pub proof fn law_enabled_upkeep_is_built(args: &RotatorBuildArgs)
    ensures
        forall|kind: Booster| #[trigger]
            args.parts().contains(
                of_its_own(
                    Condition::UseBooster(kind),
                    PlayerAction::UseBooster(UseBooster { kind }),
                    Some(ActionMetadata::UseBooster),
                ),
            ) == match kind {
                Booster::Generic => args.enable_using_generic_booster,
                Booster::Hexa => args.enable_using_hexa_booster,
            },
        args.parts().contains(
            of_its_own(
                Condition::ExchangeHexaBooster(args.hexa_booster_exchange_condition),
                PlayerAction::ExchangeBooster(
                    ExchangeBooster {
                        amount: args.hexa_booster_exchange_amount,
                        all: args.hexa_booster_exchange_all,
                    },
                ),
                None,
            ),
        ) == (args.hexa_booster_exchange_condition != ExchangeHexaBoosterCondition::Never),
        args.parts().contains(
            of_its_own(
                Condition::FamiliarsSwap(args.familiars.swap_check_millis),
                PlayerAction::FamiliarsSwap(
                    FamiliarsSwap {
                        swappable_slots: args.familiars.swappable_familiars,
                        swappable_rarities: args.familiars.swappable_rarities,
                    },
                ),
                None,
            ),
        ) == args.familiars.enable_familiars_swapping,
{
    assert forall|kind: Booster| #[trigger]
        args.parts().contains(
            of_its_own(
                Condition::UseBooster(kind),
                PlayerAction::UseBooster(UseBooster { kind }),
                Some(ActionMetadata::UseBooster),
            ),
        ) == match kind {
            Booster::Generic => args.enable_using_generic_booster,
            Booster::Hexa => args.enable_using_hexa_booster,
        } by {
        lemma_own_part(
            args,
            of_its_own(
                Condition::UseBooster(kind),
                PlayerAction::UseBooster(UseBooster { kind }),
                Some(ActionMetadata::UseBooster),
            ),
        );
    }
    lemma_own_part(
        args,
        of_its_own(
            Condition::ExchangeHexaBooster(args.hexa_booster_exchange_condition),
            PlayerAction::ExchangeBooster(
                ExchangeBooster {
                    amount: args.hexa_booster_exchange_amount,
                    all: args.hexa_booster_exchange_all,
                },
            ),
            None,
        ),
    );
    lemma_own_part(
        args,
        of_its_own(
            Condition::FamiliarsSwap(args.familiars.swap_check_millis),
            PlayerAction::FamiliarsSwap(
                FamiliarsSwap {
                    swappable_slots: args.familiars.swappable_familiars,
                    swappable_rarities: args.familiars.swappable_rarities,
                },
            ),
            None,
        ),
    );
}

/// Runes and both puzzles are solved, and the player panics, exactly where that is enabled. What is
/// done about an elite boss is the one thing that is configured. A player that is stuck is always
/// freed.
pub proof fn law_enabled_reactions_are_built(args: &RotatorBuildArgs)
    ensures
        args.parts().contains(of_its_own(Condition::SolveRune, PlayerAction::SolveRune, None))
            == args.enable_rune_solving,
        args.parts().contains(
            of_its_own(Condition::SolveTransparentShape, PlayerAction::SolveShape, None),
        ) == args.enable_transparent_shape_solving,
        args.parts().contains(
            of_its_own(Condition::SolveVioletta, PlayerAction::SolveVioletta, None),
        ) == args.enable_violetta_solving,
        args.parts().contains(
            of_its_own(
                Condition::EliteBoss,
                PlayerAction::Panic(Panic { to: PanicTo::Channel }),
                None,
            ),
        ) == (args.elite_boss_behavior == EliteBossBehavior::CycleChannel),
        args.parts().contains(
            of_its_own(
                Condition::EliteBoss,
                press(args.elite_boss_behavior_key, ActionKeyWith::Stationary, 10, 10),
                None,
            ),
        ) == (args.elite_boss_behavior == EliteBossBehavior::UseKey),
        args.parts().contains(
            of_its_own(
                Condition::Panic,
                PlayerAction::Panic(Panic { to: PanicTo::Channel }),
                None,
            ),
        ) == args.enable_panic_mode,
        args.parts().contains(of_its_own(Condition::Unstuck, PlayerAction::Unstuck, None)),
{
    let channel = PlayerAction::Panic(Panic { to: PanicTo::Channel });
    lemma_own_part(args, of_its_own(Condition::SolveRune, PlayerAction::SolveRune, None));
    lemma_own_part(
        args,
        of_its_own(Condition::SolveTransparentShape, PlayerAction::SolveShape, None),
    );
    lemma_own_part(args, of_its_own(Condition::SolveVioletta, PlayerAction::SolveVioletta, None));
    lemma_own_part(args, of_its_own(Condition::EliteBoss, channel, None));
    lemma_own_part(
        args,
        of_its_own(
            Condition::EliteBoss,
            press(args.elite_boss_behavior_key, ActionKeyWith::Stationary, 10, 10),
            None,
        ),
    );
    lemma_own_part(args, of_its_own(Condition::Panic, channel, None));
    lemma_own_part(args, of_its_own(Condition::Unstuck, PlayerAction::Unstuck, None));
}

/// Every buff is used with its key, and no other one. Familiar essence is used along with the
/// familiar buff.
pub proof fn law_buffs_are_built_with_their_keys(
    args: &RotatorBuildArgs,
    kind: BuffKind,
    key: KeyKind,
)
    ensures
        args.parts().contains(
            of_its_own(
                Condition::Buff(kind),
                press(key, ActionKeyWith::Stationary, 10, 10),
                Some(ActionMetadata::Buff(kind)),
            ),
        ) == args.buffs@.contains((kind, key)),
        args.parts().contains(
            of_its_own(
                Condition::FamiliarEssence,
                press(args.familiar_essence_key, ActionKeyWith::Any, 5, 0),
                None,
            ),
        ) == exists|i: int|
            0 <= i < args.buffs@.len() && (#[trigger] args.buffs@[i]).0 == BuffKind::Familiar,
{
    let part = of_its_own(
        Condition::Buff(kind),
        press(key, ActionKeyWith::Stationary, 10, 10),
        Some(ActionMetadata::Buff(kind)),
    );
    let built = buff_parts(args.buffs@, 0);
    lemma_buffs(args.buffs@, 0, part);
    lemma_own_part(args, part);
    assert(built.contains(part) == args.buffs@.contains((kind, key))) by {
        if built.contains(part) {
            let i = choose|i: int| 0 <= i < args.buffs@.len() && part == buff_part(args.buffs@[i]);
            assert(args.buffs@[i] == (kind, key));
        }
        if args.buffs@.contains((kind, key)) {
            let i = choose|i: int| 0 <= i < args.buffs@.len() && args.buffs@[i] == (kind, key);
            assert(part == buff_part(args.buffs@[i]));
        }
    }
    lemma_own_part(
        args,
        of_its_own(
            Condition::FamiliarEssence,
            press(args.familiar_essence_key, ActionKeyWith::Any, 5, 0),
            None,
        ),
    );
}

/// The part that uses a buff.
spec fn buff_part(buff: (BuffKind, KeyKind)) -> Part {
    of_its_own(
        Condition::Buff(buff.0),
        press(buff.1, ActionKeyWith::Stationary, 10, 10),
        Some(ActionMetadata::Buff(buff.0)),
    )
}

proof fn lemma_buffs(buffs: Seq<(BuffKind, KeyKind)>, from: int, x: Part)
    requires
        0 <= from <= buffs.len(),
    ensures
        buff_parts(buffs, from).contains(x) == exists|i: int|
            from <= i < buffs.len() && x == #[trigger] buff_part(buffs[i]),
    decreases buffs.len() - from,
{
    let built = buff_parts(buffs, from);
    if from < buffs.len() {
        lemma_buffs(buffs, from + 1, x);
        let rest = buff_parts(buffs, from + 1);
        assert(built[0] == buff_part(buffs[from]));
        assert(built =~= seq![buff_part(buffs[from])] + rest);
        lemma_either(seq![buff_part(buffs[from])], rest, x);
        assert(seq![buff_part(buffs[from])][0] == buff_part(buffs[from]));
    }
}

/// Whether a part that is not configured is built.
spec fn own_part(args: &RotatorBuildArgs, x: Part) -> bool {
    let channel = PlayerAction::Panic(Panic { to: PanicTo::Channel });
    ||| args.enable_using_generic_booster && x == of_its_own(
        Condition::UseBooster(Booster::Generic),
        PlayerAction::UseBooster(UseBooster { kind: Booster::Generic }),
        Some(ActionMetadata::UseBooster),
    )
    ||| args.enable_using_hexa_booster && x == of_its_own(
        Condition::UseBooster(Booster::Hexa),
        PlayerAction::UseBooster(UseBooster { kind: Booster::Hexa }),
        Some(ActionMetadata::UseBooster),
    )
    ||| !(args.hexa_booster_exchange_condition is Never) && x == of_its_own(
        Condition::ExchangeHexaBooster(args.hexa_booster_exchange_condition),
        PlayerAction::ExchangeBooster(
            ExchangeBooster {
                amount: args.hexa_booster_exchange_amount,
                all: args.hexa_booster_exchange_all,
            },
        ),
        None,
    )
    ||| args.familiars.enable_familiars_swapping && x == of_its_own(
        Condition::FamiliarsSwap(args.familiars.swap_check_millis),
        PlayerAction::FamiliarsSwap(
            FamiliarsSwap {
                swappable_slots: args.familiars.swappable_familiars,
                swappable_rarities: args.familiars.swappable_rarities,
            },
        ),
        None,
    )
    ||| args.enable_rune_solving && x == of_its_own(
        Condition::SolveRune,
        PlayerAction::SolveRune,
        None,
    )
    ||| args.enable_transparent_shape_solving && x == of_its_own(
        Condition::SolveTransparentShape,
        PlayerAction::SolveShape,
        None,
    )
    ||| args.enable_violetta_solving && x == of_its_own(
        Condition::SolveVioletta,
        PlayerAction::SolveVioletta,
        None,
    )
    ||| args.elite_boss_behavior is CycleChannel && x == of_its_own(
        Condition::EliteBoss,
        channel,
        None,
    )
    ||| args.elite_boss_behavior is UseKey && x == of_its_own(
        Condition::EliteBoss,
        press(args.elite_boss_behavior_key, ActionKeyWith::Stationary, 10, 10),
        None,
    )
    ||| args.enable_panic_mode && x == of_its_own(Condition::Panic, channel, None)
    ||| args.keeps_familiar() && x == of_its_own(
        Condition::FamiliarEssence,
        press(args.familiar_essence_key, ActionKeyWith::Any, 5, 0),
        None,
    )
    ||| buff_parts(args.buffs@, 0).contains(x)
    ||| x == of_its_own(Condition::Unstuck, PlayerAction::Unstuck, None)
}

proof fn lemma_own_part(args: &RotatorBuildArgs, x: Part)
    requires
        x matches Part::Priority(action) && !(action.condition is Fixed),
    ensures
        args.parts().contains(x) == own_part(args, x),
        buff_parts(args.buffs@, 0).contains(x) ==> x->Priority_0.condition is Buff,
{
    let low = args.low_priority_parts();
    let mid = configured_parts(args.mode, args.actions(), 0);
    let high = args.high_priority_parts();
    lemma_either(low + mid, high, x);
    lemma_either(low, mid, x);
    if mid.contains(x) {
        lemma_configured(args.mode, args.actions(), 0, x);
    }
    lemma_low(args, x);
    lemma_high(args, x);
    lemma_buffs(args.buffs@, 0, x);
}

spec fn as_priority(part: Part) -> PriorityAction {
    part->Priority_0
}

proof fn lemma_low(args: &RotatorBuildArgs, x: Part)
    ensures
        args.low_priority_parts().contains(x) == ({
            ||| args.enable_using_generic_booster && x == of_its_own(
                Condition::UseBooster(Booster::Generic),
                PlayerAction::UseBooster(UseBooster { kind: Booster::Generic }),
                Some(ActionMetadata::UseBooster),
            )
            ||| args.enable_using_hexa_booster && x == of_its_own(
                Condition::UseBooster(Booster::Hexa),
                PlayerAction::UseBooster(UseBooster { kind: Booster::Hexa }),
                Some(ActionMetadata::UseBooster),
            )
            ||| !(args.hexa_booster_exchange_condition is Never) && x == of_its_own(
                Condition::ExchangeHexaBooster(args.hexa_booster_exchange_condition),
                PlayerAction::ExchangeBooster(
                    ExchangeBooster {
                        amount: args.hexa_booster_exchange_amount,
                        all: args.hexa_booster_exchange_all,
                    },
                ),
                None,
            )
            ||| args.familiars.enable_familiars_swapping && x == of_its_own(
                Condition::FamiliarsSwap(args.familiars.swap_check_millis),
                PlayerAction::FamiliarsSwap(
                    FamiliarsSwap {
                        swappable_slots: args.familiars.swappable_familiars,
                        swappable_rarities: args.familiars.swappable_rarities,
                    },
                ),
                None,
            )
        }),
{
    let generic = as_priority(
        of_its_own(
            Condition::UseBooster(Booster::Generic),
            PlayerAction::UseBooster(UseBooster { kind: Booster::Generic }),
            Some(ActionMetadata::UseBooster),
        ),
    );
    let hexa = as_priority(
        of_its_own(
            Condition::UseBooster(Booster::Hexa),
            PlayerAction::UseBooster(UseBooster { kind: Booster::Hexa }),
            Some(ActionMetadata::UseBooster),
        ),
    );
    let exchange = as_priority(
        of_its_own(
            Condition::ExchangeHexaBooster(args.hexa_booster_exchange_condition),
            PlayerAction::ExchangeBooster(
                ExchangeBooster {
                    amount: args.hexa_booster_exchange_amount,
                    all: args.hexa_booster_exchange_all,
                },
            ),
            None,
        ),
    );
    let swap = as_priority(
        of_its_own(
            Condition::FamiliarsSwap(args.familiars.swap_check_millis),
            PlayerAction::FamiliarsSwap(
                FamiliarsSwap {
                    swappable_slots: args.familiars.swappable_familiars,
                    swappable_rarities: args.familiars.swappable_rarities,
                },
            ),
            None,
        ),
    );
    let a = part_if(args.enable_using_generic_booster, generic);
    let b = part_if(args.enable_using_hexa_booster, hexa);
    let c = part_if(!(args.hexa_booster_exchange_condition is Never), exchange);
    let d = part_if(args.familiars.enable_familiars_swapping, swap);
    assert(args.low_priority_parts() == a + b + c + d);
    lemma_either(a + b + c, d, x);
    lemma_either(a + b, c, x);
    lemma_either(a, b, x);
    lemma_only(args.enable_using_generic_booster, generic, x);
    lemma_only(args.enable_using_hexa_booster, hexa, x);
    lemma_only(!(args.hexa_booster_exchange_condition is Never), exchange, x);
    lemma_only(args.familiars.enable_familiars_swapping, swap, x);
}

proof fn lemma_high(args: &RotatorBuildArgs, x: Part)
    ensures
        args.high_priority_parts().contains(x) == ({
            let channel = PlayerAction::Panic(Panic { to: PanicTo::Channel });
            ||| args.enable_rune_solving && x == of_its_own(
                Condition::SolveRune,
                PlayerAction::SolveRune,
                None,
            )
            ||| args.enable_transparent_shape_solving && x == of_its_own(
                Condition::SolveTransparentShape,
                PlayerAction::SolveShape,
                None,
            )
            ||| args.enable_violetta_solving && x == of_its_own(
                Condition::SolveVioletta,
                PlayerAction::SolveVioletta,
                None,
            )
            ||| args.elite_boss_behavior is CycleChannel && x == of_its_own(
                Condition::EliteBoss,
                channel,
                None,
            )
            ||| args.elite_boss_behavior is UseKey && x == of_its_own(
                Condition::EliteBoss,
                press(args.elite_boss_behavior_key, ActionKeyWith::Stationary, 10, 10),
                None,
            )
            ||| args.enable_panic_mode && x == of_its_own(Condition::Panic, channel, None)
            ||| args.keeps_familiar() && x == of_its_own(
                Condition::FamiliarEssence,
                press(args.familiar_essence_key, ActionKeyWith::Any, 5, 0),
                None,
            )
            ||| buff_parts(args.buffs@, 0).contains(x)
            ||| x == of_its_own(Condition::Unstuck, PlayerAction::Unstuck, None)
        }),
{
    let channel = PlayerAction::Panic(Panic { to: PanicTo::Channel });
    let rune = as_priority(of_its_own(Condition::SolveRune, PlayerAction::SolveRune, None));
    let shape = as_priority(
        of_its_own(Condition::SolveTransparentShape, PlayerAction::SolveShape, None),
    );
    let violetta = as_priority(
        of_its_own(Condition::SolveVioletta, PlayerAction::SolveVioletta, None),
    );
    let cycle = as_priority(of_its_own(Condition::EliteBoss, channel, None));
    let use_key = as_priority(
        of_its_own(
            Condition::EliteBoss,
            press(args.elite_boss_behavior_key, ActionKeyWith::Stationary, 10, 10),
            None,
        ),
    );
    let panic = as_priority(of_its_own(Condition::Panic, channel, None));
    let essence = as_priority(
        of_its_own(
            Condition::FamiliarEssence,
            press(args.familiar_essence_key, ActionKeyWith::Any, 5, 0),
            None,
        ),
    );
    let unstuck = as_priority(of_its_own(Condition::Unstuck, PlayerAction::Unstuck, None));
    let a = part_if(args.enable_rune_solving, rune);
    let b = part_if(args.enable_transparent_shape_solving, shape);
    let c = part_if(args.enable_violetta_solving, violetta);
    let d1 = part_if(args.elite_boss_behavior is CycleChannel, cycle);
    let d2 = part_if(args.elite_boss_behavior is UseKey, use_key);
    let e = part_if(args.enable_panic_mode, panic);
    let f = part_if(args.keeps_familiar(), essence);
    let g = buff_parts(args.buffs@, 0);
    let h = part_if(true, unstuck);
    assert(args.elite_boss_parts() == d1 + d2);
    assert(args.high_priority_parts() == a + b + c + (d1 + d2) + e + f + g + h);
    lemma_either(a + b + c + (d1 + d2) + e + f + g, h, x);
    lemma_either(a + b + c + (d1 + d2) + e + f, g, x);
    lemma_either(a + b + c + (d1 + d2) + e, f, x);
    lemma_either(a + b + c + (d1 + d2), e, x);
    lemma_either(a + b + c, d1 + d2, x);
    lemma_either(d1, d2, x);
    lemma_either(a + b, c, x);
    lemma_either(a, b, x);
    lemma_only(args.enable_rune_solving, rune, x);
    lemma_only(args.enable_transparent_shape_solving, shape, x);
    lemma_only(args.enable_violetta_solving, violetta, x);
    lemma_only(args.elite_boss_behavior is CycleChannel, cycle, x);
    lemma_only(args.elite_boss_behavior is UseKey, use_key, x);
    lemma_only(args.enable_panic_mode, panic, x);
    lemma_only(args.keeps_familiar(), essence, x);
    lemma_only(true, unstuck, x);
}

/// The mobbing key is used as it is configured, at least once, with all times in ticks: while mobbing at
/// the point of the mob and nowhere else, in ping pong anywhere.
pub proof fn law_mobbing_key_is_used_as_configured(
    key: MobbingKey,
    point: Point,
    is_pathing: bool,
    pos: Point,
    idle: MinimapIdle,
    bound: Bound,
)
    ensures
        ({
            &&& mob_action(key, point, is_pathing) matches PlayerAction::AutoMob(mob)
            &&& mob.key == key.key
            &&& mob.link_key == key.link_key
            &&& mob.with == key.with
            &&& mob.count >= 1 && (key.count >= 1 ==> mob.count == key.count)
            &&& mob.key_hold_ticks == ticks(key.key_hold_millis)
            &&& mob.wait_before_ticks == ticks(key.wait_before_millis)
            &&& mob.wait_before_ticks_random_range == ticks(key.wait_before_millis_random_range)
            &&& mob.wait_after_ticks == ticks(key.wait_after_millis)
            &&& mob.wait_after_ticks_random_range == ticks(key.wait_after_millis_random_range)
            &&& mob.position.x == point.x
            &&& mob.position.y == point.y
            &&& mob.position.x_random_range == 0
            &&& !mob.position.allow_adjusting
            &&& mob.is_pathing == is_pathing
        }),
        ({
            &&& ping_pong_action(pos, idle, key, bound) matches PlayerAction::PingPong(way)
            &&& way.key_hold_ticks == ticks(key.key_hold_millis)
            &&& way.wait_before_ticks == ticks(key.wait_before_millis)
            &&& way.wait_before_ticks_random_range == ticks(key.wait_before_millis_random_range)
            &&& way.wait_after_ticks == ticks(key.wait_after_millis)
            &&& way.wait_after_ticks_random_range == ticks(key.wait_after_millis_random_range)
        }),
{
}

/// What a detection has reported is what stands first under its id. One that is not listed is still
/// running.
pub proof fn law_first_report_counts(updates: Seq<(u32, Update)>, id: u32, at: int)
    requires
        0 <= at <= updates.len(),
        forall|i: int| 0 <= i < at ==> (#[trigger] updates[i]).0 != id,
    ensures
        at < updates.len() && updates[at].0 == id ==> reported(updates, id) == updates[at].1,
        at == updates.len() ==> reported(updates, id) == Update::Pending,
    decreases updates.len(),
{
    if updates.len() > 0 && at > 0 {
        assert(updates[0].0 != id);
        let rest = updates.drop_first();
        assert forall|i: int| 0 <= i < at - 1 implies (#[trigger] rest[i]).0 != id by {
            assert(rest[i] == updates[i + 1]);
        }
        if at < updates.len() {
            assert(rest[at - 1] == updates[at]);
        }
        law_first_report_counts(rest, id, at - 1);
    }
}

/// After a reset nothing is queued any longer, the normal actions begin with the first one and go
/// forward, and no mobs are counted. What was built and what was injected is still there.
pub proof fn law_reset_clears_the_queues(rotator: RotatorView)
    ensures
        ({
            let after = rotator.queue_reset();
            &&& after.queue.len() == 0
            &&& after.priority_queuing_linked_action is None
            &&& after.normal_queuing_linked_action is None
            &&& after.normal_index == 0
            &&& !after.normal_actions_backward
            &&& after.quadrant_count is None
            &&& after.side_queue == rotator.side_queue
            &&& after.entries == rotator.entries
            &&& after.normal_actions == rotator.normal_actions
            &&& after.normal_rotate_mode == rotator.normal_rotate_mode
            &&& after.normal_actions_reset_on_erda == rotator.normal_actions_reset_on_erda
            &&& after.next_id == rotator.next_id
        }),
{
}

/// An action that is injected comes after those that were injected before, and changes nothing else.
pub proof fn law_injecting_appends(rotator: RotatorView, action: PlayerAction)
    ensures
        ({
            let after = rotator.injected(action);
            &&& after.side_queue.len() == rotator.side_queue.len() + 1
            &&& after.side_queue.last() == action
            &&& after.side_queue.drop_last() == rotator.side_queue
            &&& after.queue == rotator.queue
            &&& after.entries == rotator.entries
            &&& after.normal_index == rotator.normal_index
        }),
{
    assert(rotator.injected(action).side_queue.drop_last() =~= rotator.side_queue);
}

/// Unless it is halting, a rotation queues what is due before it hands out what waits, and hands out
/// normal actions last: what is due now can be handed out now, and the player may get one action of
/// each kind. What the queue hands out is not taken back.
pub proof fn law_rotation_queues_before_it_hands_out(
    rotator: RotatorView,
    resources: &Resources,
    world: &World,
    observed: &Observation,
)
    requires
        !(resources.operation is Halting) && !(resources.operation is TemporaryHalting),
    ensures
        ({
            let (queued, passed) = rotator.priority_rotated(resources, world, observed);
            let player = PlayerEntity { context: passed, ..world.player };
            let (handed, context) = queued.queue_rotated(player);
            let (after, end) = rotator.rotated(resources, world, observed);
            &&& (after, end) == handed.normal_rotated(
                context,
                world.minimap.state,
                observed.mobs,
            )
            &&& after.queue == handed.queue
            &&& after.side_queue == handed.side_queue
            &&& after.entries == queued.entries
            &&& end.priority_action == context.priority_action
            &&& end.priority_action_id == context.priority_action_id
            &&& context.normal_action is Some ==> end.normal_action == context.normal_action
        }),
{
}

/// A rotator is built from the actions of the character and then those of the map, and what frees a
/// stuck player comes last of all.
pub proof fn law_character_comes_before_the_map(args: &RotatorBuildArgs)
    ensures
        args.actions() == args.character_actions@ + args.map_actions@,
        args.parts().len() > 0,
        args.parts().last() == of_its_own(Condition::Unstuck, PlayerAction::Unstuck, None),
{
    let parts = args.parts();
    let high = args.high_priority_parts();
    assert(high.last() == of_its_own(Condition::Unstuck, PlayerAction::Unstuck, None));
    assert(parts.last() == high.last());
}

/// A detection is asked for just for those actions that are not left alone and whose condition depends
/// on one now, and it is the one that the condition is about.
pub proof fn law_needed_detections_are_asked_for(
    rotator: RotatorView,
    resources: &Resources,
    world: &World,
    now: Instant,
    id: u32,
)
    ensures
        ({
            let context = world.player.context;
            let has_erda = erda_busy(rotator.entries, rotator.queue, context);
            rotator.request(resources, world, now, id) == match lookup(rotator.entries, id) {
                None => None,
                Some(action) => if rotator.ignored(context, has_erda, id, action) {
                    None
                } else if action.condition.gate_spec(
                    resources,
                    world,
                    action.queue_info.last_queued_time,
                    now,
                ) is Poll {
                    action.condition.detection_spec()
                } else {
                    None
                },
            }
        }),
{
}

/// What is asked for is what the actions need, one after the other in their order: of the first ones
/// just those are listed that need a detection, each under its own id.
pub proof fn law_detections_are_asked_for_in_order(
    rotator: RotatorView,
    resources: &Resources,
    world: &World,
    now: Instant,
    count: nat,
    at: int,
)
    requires
        0 <= at < count <= rotator.entries.len(),
    ensures
        ({
            let id = rotator.entries[at].0;
            let requests = rotator.requests(resources, world, now, count);
            &&& requests.len() <= count
            &&& rotator.request(resources, world, now, id) matches Some((detection, millis))
                ==> requests.contains((id, detection, millis))
            &&& forall|k: int|
                #![trigger requests[k]]
                0 <= k < requests.len() ==> rotator.request(
                    resources,
                    world,
                    now,
                    requests[k].0,
                ) == Some((requests[k].1, requests[k].2))
        }),
    decreases count,
{
    let before = rotator.requests(resources, world, now, (count - 1) as nat);
    let requests = rotator.requests(resources, world, now, count);
    let id = rotator.entries[at].0;
    let last = rotator.entries[count - 1].0;
    assert(crate::rotator::table::ids_of(rotator.entries)[count - 1] == last);
    if count >= 2 {
        let earlier = if at < count - 1 {
            at
        } else {
            0
        };
        law_detections_are_asked_for_in_order(
            rotator,
            resources,
            world,
            now,
            (count - 1) as nat,
            earlier,
        );
    } else {
        assert(before =~= seq![]);
    }
    assert forall|k: int| #![trigger requests[k]] 0 <= k < requests.len() implies rotator.request(
        resources,
        world,
        now,
        requests[k].0,
    ) == Some((requests[k].1, requests[k].2)) by {
        if k < before.len() {
            assert(requests[k] == before[k]);
        }
    }
    if let Some((detection, millis)) = rotator.request(resources, world, now, id) {
        if at < count - 1 {
            let k = choose|k: int|
                0 <= k < before.len() && before[k] == (id, detection, millis);
            assert(requests[k] == (id, detection, millis));
        } else {
            assert(requests.last() == (id, detection, millis));
        }
    }
}

} // verus!
