//! What holds of a rotator whatever it was built from.

use vstd::prelude::*;

use crate::ecs::{Minimap, PlayerEntity, Resources, World};
use crate::models::keys::MobbingKey;
use crate::player::actions::PlayerAction;
use crate::player::context::{PlayerContext, Quadrant};
use crate::rotator::action::{PriorityAction, RotatorAction};
use crate::rotator::conditions::PriorityActionQueueInfo;
use crate::rotator::model::{
    booster_busy, erda_busy, executes_linked, mob_action, uses_booster, waits_for_erda,
    MobSighting, Observation, RotatorView, AUTO_MOB_SAME_QUAD_THRESHOLD,
};
use crate::rotator::parts::{Part, RotatorBuildArgs};
use crate::rotator::table::{ids_of, lemma_lookup, lemma_lookup_updated, lookup, removed, updated};

verus! {

/// The rotator after `count` actions were handed out, each to a player with nothing to do.
pub open spec fn start_to_end_after(rotator: RotatorView, context: PlayerContext, count: nat) -> RotatorView
    decreases count,
{
    if count == 0 {
        rotator
    } else {
        start_to_end_after(rotator, context, (count - 1) as nat).start_to_end_rotated(
            context.without_normal(),
        ).0
    }
}

/// Going from start to end, the actions are handed out in their order, and the first one comes
/// again after the last.
pub proof fn law_start_to_end_is_cyclic(rotator: RotatorView, context: PlayerContext, count: nat)
    requires
        rotator.wf(),
        rotator.normal_actions.len() > 0,
        rotator.normal_queuing_linked_action is None,
        forall|i: int|
            0 <= i < rotator.normal_actions.len() ==> (#[trigger] rotator.normal_actions[i]).1
                is Single,
    ensures
        ({
            let len = rotator.normal_actions.len() as int;
            let at = (rotator.normal_index + count) % len;
            let (id, action) = rotator.normal_actions[at];
            &&& start_to_end_after(rotator, context, count) == (RotatorView {
                normal_index: at,
                ..rotator
            })
            &&& start_to_end_after(rotator, context, count).start_to_end_rotated(
                context.without_normal(),
            ).1 == context.without_normal().with_normal(Some(id), action->Single_0)
        }),
    decreases count,
{
    let len = rotator.normal_actions.len() as int;
    let sum = rotator.normal_index + count;
    assert(0 <= sum % len < len) by (nonlinear_arith)
        requires
            len > 0,
    ;
    assert(rotator.normal_actions[sum % len].1 is Single);
    if count == 0 {
        assert(sum % len == sum) by (nonlinear_arith)
            requires
                0 <= sum < len,
        ;
    } else {
        law_start_to_end_is_cyclic(rotator, context, (count - 1) as nat);
        let before = (sum - 1) % len;
        assert(0 <= before < len) by (nonlinear_arith)
            requires
                len > 0,
                before == (sum - 1) % len,
        ;
        assert(rotator.normal_actions[before].1 is Single);
        vstd::arithmetic::div_mod::lemma_add_mod_noop(sum - 1, 1, len);
        if before + 1 == len {
            if len == 1 {
                assert(sum % len == 0);
            } else {
                vstd::arithmetic::div_mod::lemma_small_mod(1, len as nat);
                vstd::arithmetic::div_mod::lemma_mod_self_0(len);
                assert(sum % len == 0);
            }
        } else {
            vstd::arithmetic::div_mod::lemma_small_mod(1, len as nat);
            vstd::arithmetic::div_mod::lemma_small_mod((before + 1) as nat, len as nat);
            assert(sum % len == before + 1);
        }
    }
}

/// How far a rotator that goes back and forth has come: from the first action on, up to the one
/// before the last and then down again from the last one.
pub open spec fn phase(rotator: RotatorView) -> int {
    let (backward, index) = rotator.turned();
    if backward {
        rotator.normal_actions.len() - 1 + index
    } else {
        index
    }
}

/// Going back and forth, the actions are handed out in their order up to the last one, then in
/// the reverse order down to the first one, and so on: each rotation is one phase further, and
/// the phase says which action it is.
pub proof fn law_back_and_forth_turns_at_the_ends(rotator: RotatorView, context: PlayerContext)
    requires
        rotator.wf(),
        rotator.normal_actions.len() > 1,
        rotator.normal_queuing_linked_action is None,
        context.normal_action is None,
    ensures
        ({
            let last = rotator.normal_actions.len() - 1;
            let at = if phase(rotator) < last {
                phase(rotator)
            } else {
                2 * last - phase(rotator)
            };
            let (after, after_context) = rotator.back_and_forth_rotated(context);
            &&& 0 <= phase(rotator) < 2 * last
            &&& 0 <= at <= last
            &&& after_context.normal_action_id == Some(rotator.normal_actions[at].0)
            &&& after.normal_actions == rotator.normal_actions
            &&& phase(after) == if phase(rotator) + 1 == 2 * last {
                0
            } else {
                phase(rotator) + 1
            }
        }),
{
}

/// The rotator after `count` actions were handed out, each to a player with nothing to do, going back
/// and forth.
pub open spec fn back_and_forth_after(rotator: RotatorView, context: PlayerContext, count: nat) -> RotatorView
    decreases count,
{
    if count == 0 {
        rotator
    } else {
        back_and_forth_after(rotator, context, (count - 1) as nat).back_and_forth_rotated(
            context.without_normal(),
        ).0
    }
}

/// The position of the action that a phase stands for, up to `last` and down again.
pub open spec fn position_at(phase: int, last: int) -> int {
    if phase < last {
        phase
    } else {
        2 * last - phase
    }
}

/// Going back and forth, the actions are handed out in their order up to the last one, then in
/// the reverse order down to the first one, and so on, however often that is done. A single action
/// is handed out every time.
pub proof fn law_back_and_forth_is_cyclic(rotator: RotatorView, context: PlayerContext, count: nat)
    requires
        rotator.wf(),
        rotator.normal_actions.len() > 0,
        rotator.normal_queuing_linked_action is None,
        forall|i: int|
            0 <= i < rotator.normal_actions.len() ==> (#[trigger] rotator.normal_actions[i]).1
                is Single,
    ensures
        ({
            let last = rotator.normal_actions.len() - 1;
            let before = back_and_forth_after(rotator, context, count);
            let phased = (phase(rotator) + count) % (2 * last);
            let at = if last == 0 {
                0
            } else {
                position_at(phased, last)
            };
            let (id, action) = rotator.normal_actions[at];
            &&& 0 <= at <= last
            &&& before.wf()
            &&& before == (RotatorView {
                normal_index: before.normal_index,
                normal_actions_backward: before.normal_actions_backward,
                ..rotator
            })
            &&& last > 0 ==> phase(before) == phased
            &&& before.back_and_forth_rotated(context.without_normal()).1
                == context.without_normal().with_normal(Some(id), action->Single_0)
        }),
    decreases count,
{
    let last = rotator.normal_actions.len() - 1;
    let before = back_and_forth_after(rotator, context, count);
    let cycle = 2 * last;
    let sum = phase(rotator) + count;
    if count > 0 {
        let earlier = back_and_forth_after(rotator, context, (count - 1) as nat);
        law_back_and_forth_is_cyclic(rotator, context, (count - 1) as nat);
        assert(rotator.normal_actions[earlier.position_turned()].1 is Single);
        if last > 0 {
            law_back_and_forth_turns_at_the_ends(earlier, context.without_normal());
            vstd::arithmetic::div_mod::lemma_add_mod_noop(sum - 1, 1, cycle);
            vstd::arithmetic::div_mod::lemma_small_mod(1, cycle as nat);
            if phase(earlier) + 1 == cycle {
                vstd::arithmetic::div_mod::lemma_mod_self_0(cycle);
            } else {
                vstd::arithmetic::div_mod::lemma_small_mod(
                    (phase(earlier) + 1) as nat,
                    cycle as nat,
                );
            }
            assert(phase(before) == sum % cycle);
        }
    } else if last > 0 {
        law_back_and_forth_turns_at_the_ends(rotator, context.without_normal());
        vstd::arithmetic::div_mod::lemma_small_mod(sum as nat, cycle as nat);
    }
    if last > 0 {
        law_back_and_forth_turns_at_the_ends(before, context.without_normal());
    }
    assert(rotator.normal_actions[before.position_turned()].1 is Single);
}

/// A linked action is handed out step by step: each step is the first of those that are left.
pub proof fn law_linked_steps_come_in_order(rotator: RotatorView, context: PlayerContext)
    requires
        rotator.priority_queuing_linked_action is Some,
    ensures
        ({
            let (id, linked) = rotator.priority_queuing_linked_action->0;
            let (after, after_context) = rotator.priority_linked_rotated(context);
            &&& after_context.priority_action == Some(linked.steps()[0])
            &&& after_context.priority_action_id == Some(id)
            &&& match after.priority_queuing_linked_action {
                Some((after_id, rest)) => after_id == id && rest.steps()
                    =~= linked.steps().drop_first(),
                None => linked.steps().len() == 1,
            }
        }),
{
    let (id, linked) = rotator.priority_queuing_linked_action->0;
    if linked.next is Some {
        assert(linked.steps().drop_first() =~= linked.next->0.steps());
    }
}

/// While the player carries out a linked priority action, no other priority action takes its
/// place.
pub proof fn law_linked_action_is_not_replaced(rotator: RotatorView, player: PlayerEntity)
    requires
        player.context.priority_action_id is Some,
        executes_linked(rotator.entries, player.context, player.context.priority_action_id->0),
    ensures
        rotator.queue_rotated(player) == (rotator, player.context),
{
}

/// Whatever waits in the queue, the steps that are left of a linked action come first.
pub proof fn law_linked_action_is_completed_first(rotator: RotatorView, player: PlayerEntity)
    requires
        rotator.priority_queuing_linked_action is Some,
    ensures
        ({
            let (after, context) = rotator.queue_rotated(player);
            let (id, linked) = rotator.priority_queuing_linked_action->0;
            &&& after.queue == rotator.queue
            &&& after.side_queue == rotator.side_queue
            &&& context == player.context || context == player.context.with_priority(
                Some(id),
                linked.inner,
            )
        }),
{
}

/// An action that was queued to the front is not replaced by another one from the queue.
pub proof fn law_front_action_is_not_replaced(rotator: RotatorView, player: PlayerEntity)
    requires
        rotator.executes_front(player.context),
        player.context.priority_action is Some,
        rotator.priority_queuing_linked_action is None,
    ensures
        rotator.queue_rotated(player) == (rotator, player.context),
{
}

/// Where an action from the queue takes the place of another priority action, it was queued to
/// the front, and the other one is put back at the front of the queue.
pub proof fn law_replaced_action_is_put_back(rotator: RotatorView, player: PlayerEntity)
    requires
        rotator.priority_queuing_linked_action is None,
        player.context.priority_action is Some,
        player.context.priority_action_id is Some,
        rotator.queue_rotated(player).1 != player.context,
    ensures
        ({
            let (after, context) = rotator.queue_rotated(player);
            let replaced = player.context.priority_action_id->0;
            &&& rotator.queue.len() > 0
            &&& context.priority_action_id == Some(rotator.queue[0])
            &&& lookup(rotator.entries, rotator.queue[0]) matches Some(action)
            &&& action.queue_to_front
            &&& after.queue == seq![replaced] + rotator.queue.drop_first()
        }),
{
}

/// An action that was injected works together with those that were built: as long as the player has
/// a priority action to carry out, it waits, and nothing takes the place of what the player does.
/// The steps that are left of a linked action come before it.
pub proof fn law_injected_action_waits(
    rotator: RotatorView,
    resources: &Resources,
    world: &World,
    observed: &Observation,
)
    requires
        rotator.side_queue.len() > 0,
        world.player.context.priority_action is Some,
    ensures
        rotator.queue_rotated(world.player).0.side_queue == rotator.side_queue,
        rotator.priority_queuing_linked_action is None ==> rotator.queue_rotated(world.player) == (
            rotator,
            world.player.context,
        ),
        resources.operation.halts() ==> rotator.rotated(resources, world, observed) == (
            rotator,
            world.player.context,
        ),
{
}

/// While the operation is halting, nothing but injected actions is handed out, and a rotation
/// leaves everything that was built or queued as it is.
pub proof fn law_halting_rotates_only_injected_actions(
    rotator: RotatorView,
    resources: &Resources,
    world: &World,
    observed: &Observation,
)
    requires
        resources.operation.halts(),
    ensures
        ({
            let (after, context) = rotator.rotated(resources, world, observed);
            let before = world.player.context;
            &&& after == (RotatorView { side_queue: after.side_queue, ..rotator })
            &&& context.without_priority() == before.without_priority()
            &&& context == before || (before.priority_action is None && rotator.side_queue.len()
                > 0 && context == before.with_priority(None, rotator.side_queue[0]))
        }),
{
}

/// The rotator after `count` injected actions were handed out, each to a player without another
/// priority action.
pub open spec fn injected_after(rotator: RotatorView, context: PlayerContext, count: nat) -> RotatorView
    decreases count,
{
    if count == 0 {
        rotator
    } else {
        injected_after(rotator, context, (count - 1) as nat).side_rotated(
            context.without_priority(),
        ).0
    }
}

/// Injected actions are handed out in the order in which they were injected, each of them once.
pub proof fn law_injected_actions_come_in_order(
    rotator: RotatorView,
    context: PlayerContext,
    actions: Seq<PlayerAction>,
    count: nat,
)
    requires
        rotator.side_queue == actions,
        count <= actions.len(),
    ensures
        injected_after(rotator, context, count).side_queue =~= actions.skip(count as int),
        count < actions.len() ==> injected_after(rotator, context, count).side_rotated(
            context.without_priority(),
        ).1.priority_action == Some(actions[count as int]),
    decreases count,
{
    if count > 0 {
        law_injected_actions_come_in_order(rotator, context, actions, (count - 1) as nat);
    }
}

/// No id is queued twice, and none is queued that the player carries out or is about to.
pub open spec fn waits_once(rotator: RotatorView, context: PlayerContext) -> bool {
    &&& rotator.queue.no_duplicates()
    &&& context.priority_action_id matches Some(id) ==> !rotator.queue.contains(id)
    &&& rotator.priority_queuing_linked_action matches Some((id, _)) ==> !rotator.queue.contains(id)
}

/// What stays the same of each action while the rotator looks at it.
spec fn same_actions(a: Seq<(u32, PriorityAction)>, b: Seq<(u32, PriorityAction)>) -> bool {
    &&& ids_of(a) == ids_of(b)
    &&& forall|id: u32| #[trigger]
        lookup(a, id) is Some <==> lookup(b, id) is Some
    &&& forall|id: u32| #[trigger]
        lookup(a, id) matches Some(action) ==> (lookup(b, id) matches Some(other)
            && action.with_info(other.queue_info) == other)
}

proof fn lemma_visited_same_actions(
    rotator: RotatorView,
    resources: &Resources,
    world: &World,
    observed: &Observation,
    has_erda: bool,
    id: u32,
)
    ensures
        same_actions(
            rotator.entries,
            rotator.visited(resources, world, observed, has_erda, id).entries,
        ),
{
    let after = rotator.visited(resources, world, observed, has_erda, id);
    if let Some(action) = lookup(rotator.entries, id) {
        let info = choose|info: PriorityActionQueueInfo|
            after.entries == updated(rotator.entries, id, #[trigger] action.with_info(info));
        let noted = action.with_info(info);
        lemma_lookup_updated(rotator.entries, id, noted, id);
        assert forall|other: u32| #[trigger]
            lookup(rotator.entries, other) is Some <==> lookup(after.entries, other) is Some by {
            lemma_lookup_updated(rotator.entries, id, noted, other);
        }
        assert forall|other: u32| #[trigger]
            lookup(rotator.entries, other) matches Some(act) ==> (lookup(
                after.entries,
                other,
            ) matches Some(now) && act.with_info(now.queue_info) == now) by {
            lemma_lookup_updated(rotator.entries, id, noted, other);
        }
    }
}

proof fn lemma_same_actions_trans(
    a: Seq<(u32, PriorityAction)>,
    b: Seq<(u32, PriorityAction)>,
    c: Seq<(u32, PriorityAction)>,
)
    requires
        same_actions(a, b),
        same_actions(b, c),
    ensures
        same_actions(a, c),
{
    assert forall|id: u32| #[trigger]
        lookup(a, id) is Some <==> lookup(c, id) is Some by {
        assert(lookup(b, id) is Some <==> lookup(c, id) is Some);
    }
    assert forall|id: u32| #[trigger]
        lookup(a, id) matches Some(action) ==> (lookup(c, id) matches Some(other)
            && action.with_info(other.queue_info) == other) by {
        if lookup(a, id) is Some {
            assert(lookup(b, id) is Some);
        }
    }
}

/// What a pass over the first `count` actions leaves.
proof fn lemma_passed(
    rotator: RotatorView,
    resources: &Resources,
    world: &World,
    observed: &Observation,
    count: nat,
)
    requires
        count <= rotator.entries.len(),
        ids_of(rotator.entries).no_duplicates(),
        waits_once(rotator, world.player.context),
    ensures
        ({
            let after = rotator.passed(resources, world, observed, count).0;
            let ids = ids_of(rotator.entries);
            let context = world.player.context;
            &&& waits_once(after, context)
            &&& after.priority_queuing_linked_action == rotator.priority_queuing_linked_action
            &&& same_actions(rotator.entries, after.entries)
            &&& forall|id: u32| #[trigger]
                after.queue.contains(id) ==> rotator.queue.contains(id) || ids.take(
                    count as int,
                ).contains(id)
            &&& forall|id: u32| #[trigger]
                after.queue.contains(id) && erda_busy(rotator.entries, rotator.queue, context)
                    && waits_for_erda(rotator.entries, id) ==> rotator.queue.contains(id)
        }),
    decreases count,
{
    if count > 0 {
        let before_count = (count - 1) as nat;
        lemma_passed(rotator, resources, world, observed, before_count);
        let before = rotator.passed(resources, world, observed, before_count).0;
        let after = rotator.passed(resources, world, observed, count).0;
        let ids = ids_of(rotator.entries);
        let id = ids[count - 1];
        let context = world.player.context;
        let has_erda = erda_busy(rotator.entries, rotator.queue, context);
        lemma_visited_same_actions(before, resources, world, observed, has_erda, id);
        lemma_same_actions_trans(rotator.entries, before.entries, after.entries);
        assert(ids.take(count as int).drop_last() =~= ids.take(before_count as int));
        assert(ids.take(count as int).last() == id);
        assert forall|x: u32| ids.take(before_count as int).contains(x) implies ids.take(
            count as int,
        ).contains(x) by {
            let j = choose|j: int| 0 <= j < before_count && ids.take(before_count as int)[j] == x;
            assert(ids.take(count as int)[j] == x);
        }
        assert(ids.take(count as int).contains(id)) by {
            assert(ids.take(count as int)[count - 1] == id);
        }
        if before.chosen(resources, world, observed, has_erda, id) {
            let action = lookup(before.entries, id)->0;
            lemma_lookup(rotator.entries, id);
            assert(lookup(rotator.entries, id) is Some) by {
                assert(rotator.entries[count - 1].0 == id);
            }
            assert(waits_for_erda(rotator.entries, id) == action.waits_for_erda());
            assert(!before.queue.contains(id)) by {
                if action.waits_for_erda() && before.queue.contains(id) {
                    if rotator.queue.contains(id) {
                        let j = choose|j: int|
                            0 <= j < rotator.queue.len() && rotator.queue[j] == id;
                        assert(waits_for_erda(rotator.entries, rotator.queue[j]));
                    } else {
                        let j = choose|j: int|
                            0 <= j < before_count && ids.take(before_count as int)[j] == id;
                        assert(ids[j] == ids[count - 1]);
                    }
                }
            }
            assert(forall|x: u32| #[trigger]
                after.queue.contains(x) ==> x == id || before.queue.contains(x)) by {
                assert forall|x: u32| #[trigger] after.queue.contains(x) implies x == id
                    || before.queue.contains(x) by {
                    let j = choose|j: int| 0 <= j < after.queue.len() && after.queue[j] == x;
                    if action.queue_to_front {
                        if j > 0 {
                            assert(before.queue[j - 1] == x);
                        }
                    } else if j < before.queue.len() {
                        assert(before.queue[j] == x);
                    }
                }
            }
            assert(after.queue.no_duplicates()) by {
                assert forall|i: int, j: int|
                    0 <= i < after.queue.len() && 0 <= j < after.queue.len() && i
                        != j implies after.queue[i] != after.queue[j] by {
                    if action.queue_to_front {
                        if i > 0 {
                            assert(before.queue.contains(before.queue[i - 1]));
                        }
                        if j > 0 {
                            assert(before.queue.contains(before.queue[j - 1]));
                        }
                    } else {
                        if i < before.queue.len() {
                            assert(before.queue.contains(before.queue[i]));
                        }
                        if j < before.queue.len() {
                            assert(before.queue.contains(before.queue[j]));
                        }
                    }
                }
            }
            if context.priority_action_id == Some(id) {
                assert(action.waits_for_erda());
                assert(waits_for_erda(rotator.entries, id));
            }
        } else {
            assert(after.queue == before.queue);
        }
    }
}

/// No rotation queues an action twice or queues one that the player is busy with.
pub proof fn law_actions_wait_at_most_once(
    rotator: RotatorView,
    resources: &Resources,
    world: &World,
    observed: &Observation,
)
    requires
        rotator.wf(),
        waits_once(rotator, world.player.context),
    ensures
        ({
            let (after, context) = rotator.priority_rotated(resources, world, observed);
            waits_once(after, context)
        }),
        waits_once(
            rotator.queue_rotated(world.player).0,
            rotator.queue_rotated(world.player).1,
        ),
{
    lemma_passed(rotator, resources, world, observed, rotator.entries.len());
    let (after, context) = rotator.queue_rotated(world.player);
    if after.queue != rotator.queue {
        let rest = rotator.queue.drop_first();
        let front = rotator.queue[0];
        assert(forall|x: u32| #[trigger] rest.contains(x) ==> rotator.queue.contains(x) && x != front)
            by {
            assert forall|x: u32| #[trigger] rest.contains(x) implies rotator.queue.contains(x) && x
                != front by {
                let j = choose|j: int| 0 <= j < rest.len() && rest[j] == x;
                assert(rotator.queue[j + 1] == x);
            }
        }
        assert(rotator.queue.contains(front)) by {
            assert(rotator.queue[0] == front);
        }
        assert forall|x: u32| #[trigger] after.queue.contains(x) implies rest.contains(x) || Some(x)
            == world.player.context.priority_action_id by {
            let j = choose|j: int| 0 <= j < after.queue.len() && after.queue[j] == x;
            if after.queue.len() == rest.len() {
                assert(rest[j] == x);
            } else if j > 0 {
                assert(rest[j - 1] == x);
            }
        }
        assert forall|i: int, j: int|
            0 <= i < after.queue.len() && 0 <= j < after.queue.len() && i != j implies after.queue[i]
            != after.queue[j] by {
            if after.queue.len() != rest.len() {
                if i > 0 {
                    assert(rest.contains(rest[i - 1]));
                }
                if j > 0 {
                    assert(rest.contains(rest[j - 1]));
                }
            }
        }
    }
}

/// While an action that waits for Erda Shower is queued or carried out, no other such action is
/// queued.
pub proof fn law_erda_actions_do_not_pile_up(
    rotator: RotatorView,
    resources: &Resources,
    world: &World,
    observed: &Observation,
    id: u32,
)
    requires
        ids_of(rotator.entries).no_duplicates(),
        waits_once(rotator, world.player.context),
        erda_busy(rotator.entries, rotator.queue, world.player.context),
        waits_for_erda(rotator.entries, id),
        rotator.priority_rotated(resources, world, observed).0.queue.contains(id),
    ensures
        rotator.queue.contains(id),
{
    lemma_passed(rotator, resources, world, observed, rotator.entries.len());
}

/// Whether an action is queued or being carried out.
pub open spec fn busy(rotator: RotatorView, context: PlayerContext, id: u32) -> bool {
    context.priority_action_id == Some(id) || rotator.queue.contains(id)
}

/// At most one of the actions that are queued or carried out uses a booster.
pub open spec fn one_booster(rotator: RotatorView, context: PlayerContext) -> bool {
    forall|a: u32, b: u32|
        #![trigger uses_booster(rotator.entries, a), uses_booster(rotator.entries, b)]
        busy(rotator, context, a) && busy(rotator, context, b) && uses_booster(rotator.entries, a)
            && uses_booster(rotator.entries, b) ==> a == b
}

proof fn lemma_passed_one_booster(
    rotator: RotatorView,
    resources: &Resources,
    world: &World,
    observed: &Observation,
    count: nat,
)
    requires
        count <= rotator.entries.len(),
        one_booster(rotator, world.player.context),
    ensures
        one_booster(
            rotator.passed(resources, world, observed, count).0,
            world.player.context,
        ),
    decreases count,
{
    if count > 0 {
        let before_count = (count - 1) as nat;
        lemma_passed_one_booster(rotator, resources, world, observed, before_count);
        let before = rotator.passed(resources, world, observed, before_count).0;
        let after = rotator.passed(resources, world, observed, count).0;
        let id = ids_of(rotator.entries)[count - 1];
        let context = world.player.context;
        let has_erda = erda_busy(rotator.entries, rotator.queue, context);
        lemma_visited_same_actions(before, resources, world, observed, has_erda, id);
        assert forall|a: u32, b: u32|
            #![trigger uses_booster(after.entries, a), uses_booster(after.entries, b)]
            busy(after, context, a) && busy(after, context, b) && uses_booster(after.entries, a)
                && uses_booster(after.entries, b) implies a == b by {
            assert(lookup(before.entries, a) is Some && lookup(before.entries, b) is Some);
            assert(uses_booster(before.entries, a) && uses_booster(before.entries, b));
            if before.chosen(resources, world, observed, has_erda, id) {
                let action = lookup(before.entries, id)->0;
                assert forall|x: u32| #[trigger] busy(after, context, x) implies x == id || busy(
                    before,
                    context,
                    x,
                ) by {
                    if after.queue.contains(x) {
                        let j = choose|j: int| 0 <= j < after.queue.len() && after.queue[j] == x;
                        if action.queue_to_front {
                            if j > 0 {
                                assert(before.queue[j - 1] == x);
                            }
                        } else if j < before.queue.len() {
                            assert(before.queue[j] == x);
                        }
                    }
                }
                if a != b {
                    let other = if a == id {
                        b
                    } else {
                        a
                    };
                    assert(busy(after, context, a) && busy(after, context, b));
                    if action.uses_booster() {
                        assert(busy(before, context, other));
                        if before.queue.contains(other) {
                            let j = choose|j: int|
                                0 <= j < before.queue.len() && before.queue[j] == other;
                            assert(uses_booster(before.entries, before.queue[j]));
                        }
                        assert(booster_busy(before.entries, before.queue, context));
                        assert(false);
                    } else {
                        assert(uses_booster(before.entries, id) == action.uses_booster());
                    }
                }
            } else {
                assert(after.queue == before.queue);
                assert(busy(before, context, a) && busy(before, context, b));
            }
        }
    }
}

/// Boosters are never stacked: looking at the actions queues none that uses a booster while
/// another one is queued or carried out.
pub proof fn law_at_most_one_booster(
    rotator: RotatorView,
    resources: &Resources,
    world: &World,
    observed: &Observation,
)
    requires
        one_booster(rotator, world.player.context),
    ensures
        ({
            let (after, context) = rotator.priority_rotated(resources, world, observed);
            one_booster(after, context)
        }),
{
    lemma_passed_one_booster(rotator, resources, world, observed, rotator.entries.len());
    let (passed, passed_context) = rotator.priority_rotated(resources, world, observed);
    let whole = rotator.passed(resources, world, observed, rotator.entries.len()).0;
    assert forall|a: u32, b: u32|
        #![trigger uses_booster(passed.entries, a), uses_booster(passed.entries, b)]
        busy(passed, passed_context, a) && busy(passed, passed_context, b) && uses_booster(
            passed.entries,
            a,
        ) && uses_booster(passed.entries, b) implies a == b by {
        assert(busy(whole, world.player.context, a) && busy(whole, world.player.context, b));
    }
}

/// Handing out actions adds no booster to those that are queued or carried out, unless the rest of
/// a linked action uses one.
pub proof fn law_handing_out_adds_no_booster(rotator: RotatorView, player: PlayerEntity)
    requires
        one_booster(rotator, player.context),
        rotator.priority_queuing_linked_action matches Some((id, _)) ==> !uses_booster(
            rotator.entries,
            id,
        ),
    ensures
        one_booster(rotator.queue_rotated(player).0, rotator.queue_rotated(player).1),
{
    let before = player.context;
    let (after, context) = rotator.queue_rotated(player);
    assert forall|x: u32| #[trigger] busy(after, context, x) && uses_booster(after.entries, x) implies busy(
        rotator,
        before,
        x,
    ) by {
        if after.queue.contains(x) && after.queue != rotator.queue {
            let j = choose|j: int| 0 <= j < after.queue.len() && after.queue[j] == x;
            let rest = rotator.queue.drop_first();
            if after.queue.len() == rest.len() {
                assert(rotator.queue[j + 1] == x);
            } else if j > 0 {
                assert(rotator.queue[j] == x);
            }
        }
    }
    assert forall|a: u32, b: u32|
        #![trigger uses_booster(after.entries, a), uses_booster(after.entries, b)]
        busy(after, context, a) && busy(after, context, b) && uses_booster(after.entries, a)
            && uses_booster(after.entries, b) implies a == b by {
        assert(busy(rotator, before, a) && busy(rotator, before, b));
    }
}

/// The parts that are priority actions, in order.
pub open spec fn priority_parts(parts: Seq<Part>) -> Seq<PriorityAction>
    decreases parts.len(),
{
    if parts.len() == 0 {
        seq![]
    } else {
        match parts.last() {
            Part::Priority(action) => priority_parts(parts.drop_last()).push(action),
            Part::Normal(_) => priority_parts(parts.drop_last()),
        }
    }
}

/// The parts that are normal actions, in order.
pub open spec fn normal_parts(parts: Seq<Part>) -> Seq<RotatorAction>
    decreases parts.len(),
{
    if parts.len() == 0 {
        seq![]
    } else {
        match parts.last() {
            Part::Priority(_) => normal_parts(parts.drop_last()),
            Part::Normal(action) => normal_parts(parts.drop_last()).push(action),
        }
    }
}

proof fn lemma_removed_absent(entries: Seq<(u32, PriorityAction)>, id: u32)
    requires
        forall|i: int| 0 <= i < entries.len() ==> (#[trigger] entries[i]).0 != id,
    ensures
        removed(entries, id) =~= entries,
    decreases entries.len(),
{
    if entries.len() > 0 {
        assert forall|i: int| 0 <= i < entries.drop_first().len() implies (
        #[trigger] entries.drop_first()[i]).0 != id by {
            assert(entries[i + 1].0 != id);
        }
        lemma_removed_absent(entries.drop_first(), id);
    }
}

/// Whether `id` is one of the `count` ids from `first` on.
pub open spec fn among_ids(first: u32, count: nat, id: u32) -> bool {
    (id - first) % 0x1_0000_0000 < count
}

/// As long as there are enough ids for all parts, each part gets an id of its own, the priority
/// actions stand in the table in the order of the parts, and so do the normal actions.
pub proof fn law_built_actions_keep_their_order(rotator: RotatorView, parts: Seq<Part>)
    requires
        rotator.entries.len() == 0,
        rotator.normal_actions.len() == 0,
        parts.len() <= 0x1_0000_0000,
    ensures
        ({
            let after = rotator.added_all(parts);
            &&& ids_of(after.entries).no_duplicates()
            &&& forall|i: int, j: int|
                0 <= i < j < after.normal_actions.len() ==> (#[trigger] after.normal_actions[i]).0
                    != (#[trigger] after.normal_actions[j]).0
            &&& forall|i: int, j: int|
                0 <= i < after.entries.len() && 0 <= j < after.normal_actions.len() ==> (
                #[trigger] after.entries[i]).0 != (#[trigger] after.normal_actions[j]).0
            &&& after.entries.map_values(|entry: (u32, PriorityAction)| entry.1)
                =~= priority_parts(parts)
            &&& after.normal_actions.map_values(|entry: (u32, RotatorAction)| entry.1)
                =~= normal_parts(parts)
            &&& after.next_id == (rotator.next_id + parts.len()) % 0x1_0000_0000
            &&& forall|i: int|
                0 <= i < after.entries.len() ==> among_ids(
                    rotator.next_id,
                    parts.len(),
                    (#[trigger] after.entries[i]).0,
                )
            &&& forall|i: int|
                0 <= i < after.normal_actions.len() ==> among_ids(
                    rotator.next_id,
                    parts.len(),
                    (#[trigger] after.normal_actions[i]).0,
                )
        }),
    decreases parts.len(),
{
    if parts.len() > 0 {
        law_built_actions_keep_their_order(rotator, parts.drop_last());
        let before = rotator.added_all(parts.drop_last());
        let after = rotator.added_all(parts);
        let id = before.next_id;
        assert forall|i: int| 0 <= i < before.entries.len() implies (
        #[trigger] before.entries[i]).0 != id by {
            assert(among_ids(rotator.next_id, (parts.len() - 1) as nat, before.entries[i].0));
        }
        assert forall|i: int| 0 <= i < before.normal_actions.len() implies (
        #[trigger] before.normal_actions[i]).0 != id by {
            assert(among_ids(
                rotator.next_id,
                (parts.len() - 1) as nat,
                before.normal_actions[i].0,
            ));
        }
        lemma_removed_absent(before.entries, id);
        if parts.last() is Priority {
            assert(after.entries == before.entries.push((id, parts.last()->Priority_0)));
            assert forall|i: int, j: int|
                0 <= i < after.entries.len() && 0 <= j < after.entries.len() && i
                    != j implies ids_of(after.entries)[i] != ids_of(after.entries)[j] by {
                if i < before.entries.len() && j < before.entries.len() {
                    assert(ids_of(before.entries)[i] != ids_of(before.entries)[j]);
                }
            }
        }
        assert forall|i: int| 0 <= i < after.entries.len() implies among_ids(
            rotator.next_id,
            parts.len(),
            (#[trigger] after.entries[i]).0,
        ) by {
            if i < before.entries.len() {
                assert(among_ids(rotator.next_id, (parts.len() - 1) as nat, before.entries[i].0));
            }
        }
        assert forall|i: int| 0 <= i < after.normal_actions.len() implies among_ids(
            rotator.next_id,
            parts.len(),
            (#[trigger] after.normal_actions[i]).0,
        ) by {
            if i < before.normal_actions.len() {
                assert(among_ids(
                    rotator.next_id,
                    (parts.len() - 1) as nat,
                    before.normal_actions[i].0,
                ));
            }
        }
    }
}

/// A rotator that was just built has nothing queued, whatever it did before, and keeps what was
/// injected.
pub proof fn law_building_starts_afresh(rotator: RotatorView, args: &RotatorBuildArgs, parts: Seq<
    Part,
>)
    ensures
        ({
            let after = rotator.emptied(args).added_all(parts);
            &&& after.queue.len() == 0
            &&& after.normal_index == 0
            &&& !after.normal_actions_backward
            &&& after.normal_queuing_linked_action is None
            &&& after.priority_queuing_linked_action is None
            &&& after.side_queue == rotator.side_queue
            &&& after.normal_rotate_mode == args.mode
        }),
    decreases parts.len(),
{
    if parts.len() > 0 {
        law_building_starts_afresh(rotator, args, parts.drop_last());
    }
}

/// While mobbing the player is sent to one of the mobs that it can reach, or is led on: never
/// anywhere else, and never on while a mob can be reached in a quadrant that is new to it.
pub proof fn law_mobbing_leads_to_a_mob_or_on(
    rotator: RotatorView,
    context: PlayerContext,
    minimap: Minimap,
    key: MobbingKey,
    mobs: MobSighting,
)
    requires
        context.normal_action is None,
        minimap is Idle,
        context.last_known_pos is Some,
        mobs.wf(),
    ensures
        ({
            let (_, next) = rotator.auto_mobbing_rotated(context, minimap, key, Some(mobs));
            &&& next.normal_action_id is None
            &&& next.normal_action matches Some(PlayerAction::AutoMob(mob))
            &&& mob.count >= 1
            &&& mobs.reachable@.len() == 0 ==> mob.is_pathing
            &&& if mob.is_pathing {
                mob.position.x == mobs.pathing_point.x && mob.position.y == mobs.pathing_point.y
            } else {
                exists|i: int|
                    0 <= i < mobs.reachable@.len() && mob.position.x == (
                    #[trigger] mobs.reachable@[i]).x && mob.position.y == mobs.reachable@[i].y
            }
            &&& mob.is_pathing ==> mobs.reachable@.len() == 0 || (rotator.quadrant_count matches Some(
                (quadrant, count),
            ) && Some(quadrant) == context.auto_mob_last_quadrant && count + 1
                >= AUTO_MOB_SAME_QUAD_THRESHOLD)
        }),
{
    if mobs.reachable@.len() > 0 {
        let i = mobs.choice->0 as int;
        assert(mobs.reachable@[i] == mobs.picked()->0);
    }
}

/// One time that the player looks for mobs.
pub struct MobbingCall {
    pub context: PlayerContext,
    pub minimap: Minimap,
    pub mobs: MobSighting,
}

impl MobbingCall {
    /// The player has nothing to do in the quadrant, and mobs that it can reach were detected.
    pub open spec fn finds_mobs(self, quadrant: Quadrant) -> bool {
        &&& self.context.normal_action is None
        &&& self.context.last_known_pos is Some
        &&& self.context.auto_mob_last_quadrant == Some(quadrant)
        &&& self.minimap is Idle
        &&& self.mobs.wf()
        &&& self.mobs.reachable@.len() > 0
    }

    pub open spec fn rotated(self, rotator: RotatorView, key: MobbingKey) -> (
        RotatorView,
        PlayerContext,
    ) {
        rotator.auto_mobbing_rotated(self.context, self.minimap, key, Some(self.mobs))
    }
}

/// The rotator after the first `count` calls.
pub open spec fn mobbing_after(
    rotator: RotatorView,
    key: MobbingKey,
    calls: Seq<MobbingCall>,
    count: nat,
) -> RotatorView
    decreases count,
{
    if count == 0 {
        rotator
    } else {
        calls[count - 1].rotated(mobbing_after(rotator, key, calls, (count - 1) as nat), key).0
    }
}

/// Whether mobs in the quadrant are counted from the beginning.
pub open spec fn counts_afresh(rotator: RotatorView, quadrant: Quadrant) -> bool {
    rotator.quadrant_count matches Some((counted, _)) ==> counted != quadrant
}

/// After a reset, mobs are counted from the beginning in every quadrant.
pub proof fn law_reset_counts_afresh(rotator: RotatorView, quadrant: Quadrant)
    ensures
        counts_afresh(rotator.queue_reset(), quadrant),
{
}

/// As long as the player stays in one quadrant with mobs that it can reach, every fifth time it is
/// led on, and all other times it is sent to the mob that was picked. In any other quadrant the
/// count starts over.
pub proof fn law_every_fifth_mob_leads_on(
    rotator: RotatorView,
    key: MobbingKey,
    calls: Seq<MobbingCall>,
    quadrant: Quadrant,
    count: nat,
)
    requires
        counts_afresh(rotator, quadrant),
        count < calls.len(),
        forall|i: int| 0 <= i < calls.len() ==> (#[trigger] calls[i]).finds_mobs(quadrant),
    ensures
        ({
            let call = calls[count as int];
            let (after, next) = call.rotated(mobbing_after(rotator, key, calls, count), key);
            let leads_on = (count + 1) % AUTO_MOB_SAME_QUAD_THRESHOLD as nat == 0;
            let point = if leads_on {
                call.mobs.pathing_point
            } else {
                call.mobs.picked()->0
            };
            &&& next == call.context.with_normal(None, mob_action(key, point, leads_on))
            &&& call.mobs.reachable@.contains(call.mobs.picked()->0)
            &&& after.quadrant_count == Some(
                (quadrant, ((count + 1) % AUTO_MOB_SAME_QUAD_THRESHOLD as nat) as u32),
            )
            &&& forall|other: Quadrant| other != quadrant ==> #[trigger] counts_afresh(after, other)
        }),
    decreases count,
{
    let call = calls[count as int];
    assert(call.finds_mobs(quadrant));
    assert(call.mobs.reachable@[call.mobs.choice->0 as int] == call.mobs.picked()->0);
    if count > 0 {
        law_every_fifth_mob_leads_on(rotator, key, calls, quadrant, (count - 1) as nat);
    }
}

} // verus!
