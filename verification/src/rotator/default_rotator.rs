//! The rotator that is used where no other is named.

use std::collections::VecDeque;

use ordered_hash_map::OrderedHashMap;
use vstd::prelude::*;

use crate::bridge::KeyKind;
use crate::clock::Instant;
use crate::ecs::{BuffKind, Minimap, PlayerEntity, Resources, World};
use crate::geometry::{Point, Rect};
use crate::models::actions::{
    Action, ActionCondition, Bound, EliteBossBehavior, ExchangeHexaBoosterCondition, Position,
};
use crate::models::keys::MobbingKey;
use crate::player::actions::{
    ticks_from_millis, AutoMob, Booster, FamiliarsSwap, PingPong, PingPongDirection, PlayerAction,
};
use crate::player::context::{PlayerContext, Quadrant};
use crate::rotator::action::{
    buff_priority_action, elite_boss_change_channel_priority_action,
    elite_boss_use_key_priority_action, exchange_hexa_booster_priority_action,
    familiar_essence_replenish_priority_action, familiars_swap_priority_action,
    lemma_linked_run_fits, panic_priority_action, priority_action, rotator_action,
    solve_rune_priority_action, solve_transparent_shape_priority_action,
    solve_violetta_priority_action, unstuck_priority_action, use_booster_priority_action,
    LinkedAction, PriorityAction, RotatorAction,
};
use crate::rotator::conditions::{ConditionResult, Detection, Gate, PriorityActionQueueInfo};
use crate::rotator::model::{
    at_least_once, booster_busy, erda_busy, executes_linked, ping_pong_fits, reported, uses_booster,
    waits_for_erda, MobSighting, Observation, RotatorMode, RotatorView,
    AUTO_MOB_SAME_QUAD_THRESHOLD,
};
use crate::rotator::parts::{
    buff_parts, configured_parts, lemma_added_all_concat, part_at, part_if, Part, RotatorBuildArgs,
};
use crate::rotator::table;
use crate::rotator::table::{ids_of, lookup};
use crate::task::Update;

verus! {

#[derive(Debug)]
pub struct DefaultRotator {
    pub normal_actions: Vec<(u32, RotatorAction)>,
    pub normal_queuing_linked_action: Option<(u32, Box<LinkedAction>)>,
    pub normal_index: usize,
    /// Whether [`Self::normal_actions`] is being accessed from the end.
    pub normal_actions_backward: bool,
    pub normal_actions_reset_on_erda: bool,
    pub normal_rotate_mode: RotatorMode,
    /// Tracks number of times a mob detection has been completed inside the same quad.
    ///
    /// This limits the number of detections can be done inside the same quad as to help player
    /// advances to the next quad.
    pub auto_mob_quadrant_consecutive_count: Option<(Quadrant, u32)>,
    pub priority_actions: OrderedHashMap<u32, PriorityAction>,
    /// The currently executing [`RotatorAction::Linked`] action.
    pub priority_queuing_linked_action: Option<(u32, Box<LinkedAction>)>,
    /// A [`VecDeque`] of [`PriorityAction`] ids.
    ///
    /// Populates from [`Self::priority_actions`] when its predicate for queuing is true.
    pub priority_actions_queue: VecDeque<u32>,
    /// Side-loaded one-time priority actions.
    ///
    /// These are actions injected externally and to be executed as appropriate with the current
    /// [`Self::priority_actions_queue`]. These actions are run only once and do not have an ID.
    pub priority_actions_side_queue: VecDeque<PlayerAction>,
    /// The id that the next action gets.
    pub next_id: u32,
}

impl View for DefaultRotator {
    type V = RotatorView;

    open spec fn view(&self) -> RotatorView {
        RotatorView {
            normal_actions: self.normal_actions@,
            normal_queuing_linked_action: self.normal_queuing_linked_action,
            normal_index: self.normal_index as int,
            normal_actions_backward: self.normal_actions_backward,
            normal_actions_reset_on_erda: self.normal_actions_reset_on_erda,
            normal_rotate_mode: self.normal_rotate_mode,
            quadrant_count: self.auto_mob_quadrant_consecutive_count,
            entries: table::entries(self.priority_actions),
            priority_queuing_linked_action: self.priority_queuing_linked_action,
            queue: self.priority_actions_queue@,
            side_queue: self.priority_actions_side_queue@,
            next_id: self.next_id,
        }
    }
}

/// Whether the action that the player carries out was injected.
pub fn has_side_loaded_action_executing(player_context: &PlayerContext) -> (res: bool)
    ensures
        res == player_context.side_loaded(),
{
    player_context.has_priority_action() && player_context.priority_action_id.is_none()
}

fn max_one(count: u32) -> (res: u32)
    ensures
        res == at_least_once(count),
{
    if count == 0 {
        1
    } else {
        count
    }
}

fn find_report(updates: &Vec<(u32, Update)>, id: u32) -> (res: Update)
    ensures
        res == reported(updates@, id),
{
    let mut i: usize = 0;
    assert(updates@.skip(0) =~= updates@);
    while i < updates.len()
        invariant
            i <= updates.len(),
            reported(updates@.skip(i as int), id) == reported(updates@, id),
        decreases updates.len() - i,
    {
        assert(updates@.skip(i as int).drop_first() =~= updates@.skip(i as int + 1));
        if updates[i].0 == id {
            return updates[i].1;
        }
        i = i + 1;
    }
    Update::Pending
}

impl DefaultRotator {
    fn reset_normal_actions_queue(&mut self)
        ensures
            final(self)@ == old(self)@.normal_queue_reset(),
    {
        self.normal_index = 0;
        self.normal_queuing_linked_action = None;
    }

    /// Checks if the provided `id` is a priority linked action in queue or executing.
    fn is_priority_linked_action_queuing_or_executing(
        &self,
        player_context: &PlayerContext,
        id: u32,
    ) -> (res: bool)
        ensures
            res == self@.linked_busy(*player_context, id),
    {
        if let Some(queuing) = &self.priority_queuing_linked_action {
            if queuing.0 == id {
                return true;
            }
        }
        self.is_linked_action_executing(player_context, id)
    }

    fn is_linked_action_executing(&self, player_context: &PlayerContext, id: u32) -> (res: bool)
        ensures
            res == executes_linked(self@.entries, *player_context, id),
    {
        if player_context.priority_action_id != Some(id) {
            return false;
        }
        match table::get(&self.priority_actions, id) {
            Some(action) => action.is_linked(),
            None => false,
        }
    }

    fn is_erda_action(&self, id: u32) -> (res: bool)
        ensures
            res == waits_for_erda(self@.entries, id),
    {
        match table::get(&self.priority_actions, id) {
            Some(action) => action.is_waiting_for_erda(),
            None => false,
        }
    }

    fn is_booster_action(&self, id: u32) -> (res: bool)
        ensures
            res == uses_booster(self@.entries, id),
    {
        match table::get(&self.priority_actions, id) {
            Some(action) => action.is_using_booster(),
            None => false,
        }
    }

    /// Checks if the player or the queue has an action that waits for Erda Shower.
    fn has_erda_action_queuing_or_executing(&self, player_context: &PlayerContext) -> (res: bool)
        ensures
            res == erda_busy(self@.entries, self@.queue, *player_context),
    {
        if let Some(id) = player_context.priority_action_id {
            if self.is_erda_action(id) {
                return true;
            }
        }
        let mut i: usize = 0;
        while i < self.priority_actions_queue.len()
            invariant
                i <= self.priority_actions_queue@.len(),
                forall|j: int| 0 <= j < i ==> !waits_for_erda(self@.entries, #[trigger] self@.queue[j]),
            decreases self.priority_actions_queue@.len() - i,
        {
            if self.is_erda_action(self.priority_actions_queue[i]) {
                assert(waits_for_erda(self@.entries, self@.queue[i as int]));
                return true;
            }
            i = i + 1;
        }
        false
    }

    /// Checks if the player or the queue has an action that uses a booster.
    fn has_booster_action_queuing_or_executing(&self, player_context: &PlayerContext) -> (res: bool)
        ensures
            res == booster_busy(self@.entries, self@.queue, *player_context),
    {
        if let Some(id) = player_context.priority_action_id {
            if self.is_booster_action(id) {
                return true;
            }
        }
        let mut i: usize = 0;
        while i < self.priority_actions_queue.len()
            invariant
                i <= self.priority_actions_queue@.len(),
                forall|j: int| 0 <= j < i ==> !uses_booster(self@.entries, #[trigger] self@.queue[j]),
            decreases self.priority_actions_queue@.len() - i,
        {
            if self.is_booster_action(self.priority_actions_queue[i]) {
                assert(uses_booster(self@.entries, self@.queue[i as int]));
                return true;
            }
            i = i + 1;
        }
        false
    }

    fn is_queued(&self, id: u32) -> (res: bool)
        ensures
            res == self@.queue.contains(id),
    {
        let mut i: usize = 0;
        while i < self.priority_actions_queue.len()
            invariant
                i <= self.priority_actions_queue@.len(),
                forall|j: int| 0 <= j < i ==> #[trigger] self@.queue[j] != id,
            decreases self.priority_actions_queue@.len() - i,
        {
            if self.priority_actions_queue[i] == id {
                assert(self@.queue[i as int] == id);
                return true;
            }
            i = i + 1;
        }
        false
    }

    /// Replaces what is known of the last queuing of an action.
    fn note(&mut self, id: u32, info: PriorityActionQueueInfo)
        requires
            lookup(old(self)@.entries, id) is Some,
        ensures
            final(self)@ == old(self)@.noted(
                id,
                lookup(old(self)@.entries, id)->0,
                info.ignoring,
                info.last_queued_time,
            ),
    {
        if let Some(action) = table::get_mut(&mut self.priority_actions, id) {
            action.queue_info = info;
        }
    }

    /// Looks at one priority action and returns whether it waits for Erda Shower and was queued.
    fn visit(
        &mut self,
        resources: &Resources,
        world: &World,
        observed: &Observation,
        has_erda_action: bool,
        id: u32,
    ) -> (res: bool)
        requires
            old(self)@.wf(),
        ensures
            final(self)@ == old(self)@.visited(resources, world, observed, has_erda_action, id),
            res == (old(self)@.chosen(resources, world, observed, has_erda_action, id)
                && waits_for_erda(old(self)@.entries, id)),
    {
        let context: &PlayerContext = &world.player.context;
        let now = observed.now;
        let action: &PriorityAction = match table::get(&self.priority_actions, id) {
            Some(action) => action,
            None => {
                return false;
            },
        };
        let last = action.queue_info.last_queued_time;
        let to_front: bool = action.queue_to_front;
        let erda: bool = action.is_waiting_for_erda();
        // Ignores for as long as the action is a linked action that is queuing or executing
        let has_linked_action: bool = self.is_priority_linked_action_queuing_or_executing(
            context,
            id,
        );
        let ignoring: bool = if erda {
            has_erda_action || has_linked_action
        } else {
            context.priority_action_id == Some(id) || self.is_queued(id) || has_linked_action
        };
        if ignoring {
            self.note(id, PriorityActionQueueInfo { ignoring: true, last_queued_time: Some(now) });
            return false;
        }
        proof {
            table::lemma_lookup(self@.entries, id);
        }
        let update: Update = find_report(&observed.updates, id);
        match action.condition.evaluate(resources, world, last, now, update) {
            ConditionResult::Skip => {
                self.note(id, PriorityActionQueueInfo { ignoring: false, last_queued_time: last });
                false
            },
            ConditionResult::Ignore => {
                self.note(
                    id,
                    PriorityActionQueueInfo { ignoring: false, last_queued_time: Some(now) },
                );
                false
            },
            ConditionResult::Queue => {
                let conflict: bool = action.is_using_booster()
                    && self.has_booster_action_queuing_or_executing(context);
                self.note(
                    id,
                    PriorityActionQueueInfo { ignoring: false, last_queued_time: Some(now) },
                );
                if conflict {
                    return false;
                }
                if to_front {
                    self.priority_actions_queue.push_front(id);
                } else {
                    self.priority_actions_queue.push_back(id);
                }
                erda
            },
        }
    }

    /// What is to be detected for an action before it is looked at.
    fn detection_request(
        &self,
        resources: &Resources,
        world: &World,
        now: Instant,
        has_erda_action: bool,
        id: u32,
    ) -> (res: Option<(Detection, u64)>)
        requires
            self@.wf(),
            has_erda_action == erda_busy(self@.entries, self@.queue, world.player.context),
        ensures
            res == self@.request(resources, world, now, id),
    {
        let context: &PlayerContext = &world.player.context;
        let action: &PriorityAction = match table::get(&self.priority_actions, id) {
            Some(action) => action,
            None => {
                return None;
            },
        };
        let has_linked_action: bool = self.is_priority_linked_action_queuing_or_executing(
            context,
            id,
        );
        let ignoring: bool = if action.is_waiting_for_erda() {
            has_erda_action || has_linked_action
        } else {
            context.priority_action_id == Some(id) || self.is_queued(id) || has_linked_action
        };
        if ignoring {
            return None;
        }
        proof {
            table::lemma_lookup(self@.entries, id);
        }
        match action.condition.gate(resources, world, action.queue_info.last_queued_time, now) {
            Gate::Settled(_) => None,
            Gate::Poll => action.condition.detection(),
        }
    }

    /// What is to be detected in the background for the next rotation: for each action its id,
    /// what to detect and how many milliseconds apart.
    pub fn detection_requests(&self, resources: &Resources, world: &World, now: Instant) -> (res:
        Vec<(u32, Detection, u64)>)
        requires
            self@.wf(),
        ensures
            res@ == self@.requests(resources, world, now, self@.entries.len()),
    {
        let has_erda_action: bool = self.has_erda_action_queuing_or_executing(
            &world.player.context,
        );
        let ids: Vec<u32> = table::ids(&self.priority_actions);
        let mut res: Vec<(u32, Detection, u64)> = Vec::new();
        let mut i: usize = 0;
        while i < ids.len()
            invariant
                i <= ids.len(),
                ids@ == ids_of(self@.entries),
                self@.wf(),
                has_erda_action == erda_busy(self@.entries, self@.queue, world.player.context),
                res@ == self@.requests(resources, world, now, i as nat),
            decreases ids.len() - i,
        {
            if let Some((detection, millis)) = self.detection_request(
                resources,
                world,
                now,
                has_erda_action,
                ids[i],
            ) {
                res.push((ids[i], detection, millis));
            }
            i = i + 1;
        }
        res
    }

    /// Rotates the actions inside the [`Self::priority_actions`].
    ///
    /// This function does not pass the action to the player but only pushes the action to
    /// [`Self::priority_actions_queue`]. It is responsible for checking queuing condition.
    pub fn rotate_priority_actions(
        &mut self,
        resources: &Resources,
        world: &mut World,
        observed: &Observation,
    )
        requires
            old(self)@.wf(),
        ensures
            (final(self)@, final(world).player.context) == old(self)@.priority_rotated(
                resources,
                old(world),
                observed,
            ),
            final(self)@.wf(),
            final(self)@.normal_rotate_mode == old(self)@.normal_rotate_mode,
            *final(world) == (World {
                player: PlayerEntity {
                    context: final(world).player.context,
                    ..old(world).player
                },
                ..*old(world)
            }),
    {
        let ghost start = self@;
        let ghost scene = *world;
        // Keeps ignoring while there is any type of erda condition action inside the queue
        let has_erda_action: bool = self.has_erda_action_queuing_or_executing(
            &world.player.context,
        );
        let ids: Vec<u32> = table::ids(&self.priority_actions);
        let mut did_queue_erda_action: bool = false;
        let mut i: usize = 0;
        while i < ids.len()
            invariant
                i <= ids.len(),
                ids@ == ids_of(start.entries),
                *world == scene,
                has_erda_action == erda_busy(start.entries, start.queue, scene.player.context),
                self@.wf(),
                self@.normal_actions_reset_on_erda == start.normal_actions_reset_on_erda,
                self@.normal_rotate_mode == start.normal_rotate_mode,
                (self@, did_queue_erda_action) == start.passed(
                    resources,
                    &scene,
                    observed,
                    i as nat,
                ),
            decreases ids.len() - i,
        {
            proof {
                lemma_visited_wf(self@, resources, &scene, observed, has_erda_action, ids@[i as int]);
            }
            let queued_erda: bool = self.visit(
                resources,
                &*world,
                observed,
                has_erda_action,
                ids[i],
            );
            did_queue_erda_action = did_queue_erda_action || queued_erda;
            i = i + 1;
        }
        if did_queue_erda_action && self.normal_actions_reset_on_erda {
            self.reset_normal_actions_queue();
            world.player.context.reset_normal_action();
        }
    }

    /// Checks if the player is queuing or executing a normal [`RotatorAction::Linked`] action.
    ///
    /// This prevents [`Self::rotate_priority_actions_queue`] from overriding the normal
    /// linked action.
    fn has_normal_linked_action_queuing_or_executing(&self, player_context: &PlayerContext) -> (res:
        bool)
        ensures
            res == self@.normal_linked_busy(*player_context),
    {
        if self.normal_queuing_linked_action.is_some() {
            return true;
        }
        let id: u32 = match player_context.normal_action_id {
            Some(id) => id,
            None => {
                return false;
            },
        };
        let mut i: usize = 0;
        while i < self.normal_actions.len()
            invariant
                i <= self.normal_actions.len(),
                player_context.normal_action_id == Some(id),
                forall|j: int|
                    0 <= j < i ==> !((#[trigger] self@.normal_actions[j]).0 == id
                        && self@.normal_actions[j].1 is Linked),
            decreases self.normal_actions.len() - i,
        {
            if self.normal_actions[i].0 == id && matches!(
                self.normal_actions[i].1,
                RotatorAction::Linked(_)
            ) {
                assert(self@.normal_actions[i as int].0 == id);
                return true;
            }
            i = i + 1;
        }
        false
    }

    /// Checks if the player is executing a priority [`RotatorAction::Linked`] action.
    ///
    /// This does not check the queuing linked action because this check is to allow the linked
    /// action to be rotated in [`Self::rotate_priority_actions_queue`].
    fn has_priority_linked_action_executing(&self, player_context: &PlayerContext) -> (res: bool)
        ensures
            res == (player_context.priority_action_id matches Some(id) && executes_linked(
                self@.entries,
                *player_context,
                id,
            )),
    {
        match player_context.priority_action_id {
            Some(id) => self.is_linked_action_executing(player_context, id),
            None => false,
        }
    }

    fn has_front_action_executing(&self, player_context: &PlayerContext) -> (res: bool)
        ensures
            res == self@.executes_front(*player_context),
    {
        match player_context.priority_action_id {
            Some(id) => match table::get(&self.priority_actions, id) {
                Some(action) => action.queue_to_front,
                None => false,
            },
            None => false,
        }
    }

    /// Hands the next step of a linked action to the player, if there is one.
    pub fn rotate_queuing_linked_action(
        &mut self,
        player_context: &mut PlayerContext,
        is_priority: bool,
    ) -> (res: bool)
        ensures
            (final(self)@, *final(player_context)) == if is_priority {
                old(self)@.priority_linked_rotated(*old(player_context))
            } else {
                old(self)@.normal_linked_rotated(*old(player_context))
            },
            res == if is_priority {
                old(self)@.priority_queuing_linked_action is Some
            } else {
                old(self)@.normal_queuing_linked_action is Some
            },
    {
        if is_priority {
            match self.priority_queuing_linked_action.take() {
                None => false,
                Some((id, action)) => {
                    let action: LinkedAction = *action;
                    self.priority_queuing_linked_action = match action.next {
                        Some(next) => Some((id, next)),
                        None => None,
                    };
                    player_context.set_priority_action(Some(id), action.inner);
                    true
                },
            }
        } else {
            match self.normal_queuing_linked_action.take() {
                None => false,
                Some((id, action)) => {
                    let action: LinkedAction = *action;
                    self.normal_queuing_linked_action = match action.next {
                        Some(next) => Some((id, next)),
                        None => None,
                    };
                    player_context.set_normal_action(Some(id), action.inner);
                    true
                },
            }
        }
    }

    /// Hands the action that was injected first to the player, if there is one. It does not take the
    /// place of another priority action.
    pub fn rotate_side_priority_action(&mut self, player_context: &mut PlayerContext) -> (res: bool)
        ensures
            (final(self)@, *final(player_context)) == old(self)@.side_rotated(
                *old(player_context),
            ),
            res == (old(self)@.side_queue.len() > 0 && old(player_context).priority_action is None),
    {
        if player_context.has_priority_action() {
            return false;
        }
        match self.priority_actions_side_queue.pop_front() {
            Some(action) => {
                player_context.set_priority_action(None, action);
                assert(self@.side_queue =~= old(self)@.side_queue.drop_first());
                true
            },
            None => false,
        }
    }

    /// Rotates the actions inside the [`Self::priority_actions_queue`].
    ///
    /// If there is any on-going linked action:
    /// - For normal action, it will wait until the action is completed by the normal rotation.
    /// - For priority action, it will rotate and wait until all the actions are executed.
    ///
    /// After that, it will rotate actions inside [`Self::priority_actions_queue`].
    pub fn rotate_priority_actions_queue(&mut self, player: &mut PlayerEntity)
        ensures
            (final(self)@, final(player).context) == old(self)@.queue_rotated(*old(player)),
            *final(player) == (PlayerEntity { context: final(player).context, ..*old(player) }),
    {
        if self.priority_actions_queue.len() == 0 && self.priority_actions_side_queue.len() == 0
            && self.priority_queuing_linked_action.is_none() {
            return;
        }
        if !player.can_override_state || self.has_normal_linked_action_queuing_or_executing(
            &player.context,
        ) || self.has_priority_linked_action_executing(&player.context)
            || has_side_loaded_action_executing(&player.context) {
            return;
        }
        if self.rotate_queuing_linked_action(&mut player.context, true) {
            return;
        }
        if self.priority_actions_side_queue.len() > 0 {
            let _ = self.rotate_side_priority_action(&mut player.context);
            return;
        }
        if self.has_front_action_executing(&player.context) {
            return;
        }
        let id: u32 = self.priority_actions_queue[0];
        let (inner, to_front): (RotatorAction, bool) = match table::get(
            &self.priority_actions,
            id,
        ) {
            None => {
                let _ = self.priority_actions_queue.pop_front();
                assert(self@.queue =~= old(self)@.queue.drop_first());
                return;
            },
            Some(action) => {
                if player.context.has_priority_action() && !action.queue_to_front {
                    return;
                }
                (action.inner.clone(), action.queue_to_front)
            },
        };
        let _ = self.priority_actions_queue.pop_front();
        assert(self@.queue =~= old(self)@.queue.drop_first());
        if to_front {
            if let Some(replaced) = player.context.take_priority_action() {
                self.priority_actions_queue.push_front(replaced);
            }
        }
        match inner {
            RotatorAction::Single(inner) => {
                player.context.set_priority_action(Some(id), inner);
            },
            RotatorAction::Linked(linked) => {
                self.priority_queuing_linked_action = Some((id, Box::new(linked)));
                let _ = self.rotate_queuing_linked_action(&mut player.context, true);
            },
        }
    }

    /// Hands the normal action at `at` to the player.
    fn take_normal_action(&mut self, player_context: &mut PlayerContext, at: usize)
        requires
            at < old(self)@.normal_actions.len(),
        ensures
            (final(self)@, *final(player_context)) == old(self)@.normal_taken(
                *old(player_context),
                at as int,
            ),
    {
        let id: u32 = self.normal_actions[at].0;
        match self.normal_actions[at].1.clone() {
            RotatorAction::Single(action) => {
                player_context.set_normal_action(Some(id), action);
            },
            RotatorAction::Linked(action) => {
                self.normal_queuing_linked_action = Some((id, Box::new(action)));
                let _ = self.rotate_queuing_linked_action(player_context, false);
            },
        }
    }

    fn next_index(&self, index: usize) -> (res: usize)
        requires
            index < self@.normal_actions.len(),
        ensures
            res == self@.index_after(index as int),
    {
        let len: usize = self.normal_actions.len();
        if index + 1 == len {
            0
        } else {
            index + 1
        }
    }

    pub fn rotate_start_to_end(&mut self, player_context: &mut PlayerContext)
        requires
            old(self)@.wf(),
        ensures
            (final(self)@, *final(player_context)) == old(self)@.start_to_end_rotated(
                *old(player_context),
            ),
            final(self)@.wf(),
    {
        if player_context.has_normal_action() || self.normal_actions.len() == 0 {
            return;
        }
        if self.rotate_queuing_linked_action(player_context, false) {
            return;
        }
        let at: usize = self.normal_index;
        self.normal_index = self.next_index(at);
        self.take_normal_action(player_context, at);
    }

    pub fn rotate_start_to_end_then_reverse(&mut self, player_context: &mut PlayerContext)
        requires
            old(self)@.wf(),
        ensures
            (final(self)@, *final(player_context)) == old(self)@.back_and_forth_rotated(
                *old(player_context),
            ),
            final(self)@.wf(),
    {
        if player_context.has_normal_action() || self.normal_actions.len() == 0 {
            return;
        }
        if self.rotate_queuing_linked_action(player_context, false) {
            return;
        }
        let len: usize = self.normal_actions.len();
        if self.normal_index + 1 == len {
            self.normal_actions_backward = !self.normal_actions_backward;
            self.normal_index = 0;
        }
        let at: usize = if self.normal_actions_backward {
            len - 1 - self.normal_index
        } else {
            self.normal_index
        };
        self.normal_index = self.next_index(self.normal_index);
        self.take_normal_action(player_context, at);
    }

    pub fn rotate_auto_mobbing(
        &mut self,
        player_context: &mut PlayerContext,
        minimap_state: Minimap,
        key: MobbingKey,
        mobs: &Option<MobSighting>,
    )
        requires
            old(self)@.wf(),
            mobs matches Some(mobs) ==> mobs.wf(),
        ensures
            (final(self)@, *final(player_context)) == old(self)@.auto_mobbing_rotated(
                *old(player_context),
                minimap_state,
                key,
                *mobs,
            ),
            final(self)@.wf(),
    {
        if player_context.has_normal_action() {
            return;
        }
        if !matches!(minimap_state, Minimap::Idle(_)) || player_context.last_known_pos.is_none() {
            return;
        }
        let mobs: &MobSighting = match mobs {
            Some(mobs) => mobs,
            None => {
                return;
            },
        };
        let mut use_pathing_point: bool = false;
        if let Some(last_quad) = player_context.auto_mob_last_quadrant {
            if mobs.reachable.len() > 0 {
                let before: u32 = match self.auto_mob_quadrant_consecutive_count {
                    Some((quad, count)) => if quad == last_quad {
                        count
                    } else {
                        0
                    },
                    None => 0,
                };
                let mut count: u32 = before + 1;
                if count >= AUTO_MOB_SAME_QUAD_THRESHOLD {
                    count = 0;
                    use_pathing_point = true;
                }
                self.auto_mob_quadrant_consecutive_count = Some((last_quad, count));
            }
        }
        let (point, is_pathing): (Point, bool) = if use_pathing_point {
            (mobs.pathing_point, true)
        } else {
            match mobs.choice {
                Some(i) => (mobs.reachable[i], false),
                None => (mobs.pathing_point, true),
            }
        };
        let position: Position = Position {
            x: point.x,
            x_random_range: 0,
            y: point.y,
            allow_adjusting: false,
        };
        player_context.set_normal_action(
            None,
            PlayerAction::AutoMob(
                AutoMob {
                    key: key.key,
                    key_hold_ticks: ticks_from_millis(key.key_hold_millis),
                    link_key: key.link_key,
                    count: max_one(key.count),
                    with: key.with,
                    wait_before_ticks: ticks_from_millis(key.wait_before_millis),
                    wait_before_ticks_random_range: ticks_from_millis(
                        key.wait_before_millis_random_range,
                    ),
                    wait_after_ticks: ticks_from_millis(key.wait_after_millis),
                    wait_after_ticks_random_range: ticks_from_millis(
                        key.wait_after_millis_random_range,
                    ),
                    position,
                    is_pathing,
                },
            ),
        );
    }

    pub fn rotate_ping_pong(
        &mut self,
        player_context: &mut PlayerContext,
        minimap_state: Minimap,
        key: MobbingKey,
        bound: Bound,
    )
        requires
            ping_pong_fits(*old(player_context), minimap_state, bound),
        ensures
            (final(self)@, *final(player_context)) == old(self)@.ping_pong_rotated(
                *old(player_context),
                minimap_state,
                key,
                bound,
            ),
    {
        if player_context.has_normal_action() {
            return;
        }
        let idle = match minimap_state {
            Minimap::Idle(idle) => idle,
            Minimap::Detecting => {
                return;
            },
        };
        let pos: Point = match player_context.last_known_pos {
            Some(pos) => pos,
            None => {
                return;
            },
        };
        let bbox: Rect = idle.bbox;
        let dist_left: i64 = pos.x as i64 - bbox.x as i64;
        let dist_right: i64 = bbox.x as i64 + bbox.width as i64 - pos.x as i64;
        let direction: PingPongDirection = if dist_left > dist_right {
            PingPongDirection::Left
        } else {
            PingPongDirection::Right
        };
        player_context.set_normal_action(
            None,
            PlayerAction::PingPong(
                PingPong {
                    key: key.key,
                    key_hold_ticks: ticks_from_millis(key.key_hold_millis),
                    link_key: key.link_key,
                    count: max_one(key.count),
                    with: key.with,
                    wait_before_ticks: ticks_from_millis(key.wait_before_millis),
                    wait_before_ticks_random_range: ticks_from_millis(
                        key.wait_before_millis_random_range,
                    ),
                    wait_after_ticks: ticks_from_millis(key.wait_after_millis),
                    wait_after_ticks_random_range: ticks_from_millis(
                        key.wait_after_millis_random_range,
                    ),
                    bound: Rect::new(
                        bound.x,
                        bbox.height - (bound.y + bound.height),
                        bound.width,
                        bound.height,
                    ),
                    direction,
                },
            ),
        );
    }
}

proof fn lemma_visited_wf(
    rotator: RotatorView,
    resources: &Resources,
    world: &World,
    observed: &Observation,
    has_erda: bool,
    id: u32,
)
    requires
        rotator.wf(),
    ensures
        rotator.visited(resources, world, observed, has_erda, id).wf(),
{
    table::lemma_lookup(rotator.entries, id);
    let after = rotator.visited(resources, world, observed, has_erda, id);
    assert(ids_of(after.entries) =~= ids_of(rotator.entries));
}

/// Hands out the next id.
pub fn next_action_id(next_id: &mut u32) -> (res: u32)
    ensures
        res == *old(next_id),
        *final(next_id) == old(next_id).wrapping_add(1),
{
    let id: u32 = *next_id;
    *next_id = id.wrapping_add(1);
    id
}

impl DefaultRotator {
    fn add_priority_action(&mut self, action: PriorityAction)
        requires
            old(self)@.wf(),
            action.wf(),
        ensures
            final(self)@ == old(self)@.added(Part::Priority(action)),
            final(self)@.wf(),
    {
        proof {
            table::lemma_removed(self@.entries, self@.next_id);
            table::lemma_inserted_once(self@.entries, self@.next_id, action);
        }
        let id: u32 = next_action_id(&mut self.next_id);
        table::insert(&mut self.priority_actions, id, action);
    }

    fn add_normal_action(&mut self, action: RotatorAction)
        requires
            old(self)@.wf(),
        ensures
            final(self)@ == old(self)@.added(Part::Normal(action)),
            final(self)@.wf(),
    {
        let id: u32 = next_action_id(&mut self.next_id);
        self.normal_actions.push((id, action));
    }

    /// Adds an action if it is enabled.
    fn add_if(&mut self, enabled: bool, action: PriorityAction)
        requires
            old(self)@.wf(),
            action.wf(),
        ensures
            final(self)@ == old(self)@.added_all(part_if(enabled, action)),
            final(self)@.wf(),
    {
        if enabled {
            self.add_priority_action(action);
            proof {
                let parts = seq![Part::Priority(action)];
                assert(parts.drop_last() =~= seq![]);
                assert(old(self)@.added_all(seq![]) == old(self)@);
            }
        }
    }

    fn add_low_priority_actions(&mut self, args: &RotatorBuildArgs)
        requires
            old(self)@.wf(),
        ensures
            final(self)@ == old(self)@.added_all(args.low_priority_parts()),
            final(self)@.wf(),
    {
        let generic: PriorityAction = use_booster_priority_action(Booster::Generic);
        let hexa: PriorityAction = use_booster_priority_action(Booster::Hexa);
        let exchange: PriorityAction = exchange_hexa_booster_priority_action(
            args.hexa_booster_exchange_condition,
            args.hexa_booster_exchange_amount,
            args.hexa_booster_exchange_all,
        );
        let swap: PriorityAction = familiars_swap_priority_action(
            FamiliarsSwap {
                swappable_slots: args.familiars.swappable_familiars,
                swappable_rarities: args.familiars.swappable_rarities,
            },
            args.familiars.swap_check_millis,
        );
        let exchanges: bool = !matches!(
            args.hexa_booster_exchange_condition,
            ExchangeHexaBoosterCondition::Never
        );
        proof {
            let a = part_if(args.enable_using_generic_booster, generic);
            let b = part_if(args.enable_using_hexa_booster, hexa);
            let c = part_if(exchanges, exchange);
            let d = part_if(args.familiars.enable_familiars_swapping, swap);
            lemma_added_all_concat(old(self)@, a, b);
            lemma_added_all_concat(old(self)@, a + b, c);
            lemma_added_all_concat(old(self)@, a + b + c, d);
        }
        self.add_if(args.enable_using_generic_booster, generic);
        self.add_if(args.enable_using_hexa_booster, hexa);
        self.add_if(exchanges, exchange);
        self.add_if(args.familiars.enable_familiars_swapping, swap);
    }

    fn add_configured_actions(&mut self, mode: RotatorMode, actions: &Vec<Action>)
        requires
            old(self)@.wf(),
            actions@.len() > 0 ==> !(actions@[0].due() is Linked),
        ensures
            final(self)@ == old(self)@.added_all(configured_parts(mode, actions@, 0)),
            final(self)@.wf(),
    {
        let ghost start = self@;
        let ghost mut parts: Seq<Part> = seq![];
        let mut i: usize = 0;
        assert(start.added_all(seq![]) == start);
        assert(configured_parts(mode, actions@, 0) =~= parts + configured_parts(mode, actions@, 0));
        while i < actions.len()
            invariant
                i <= actions.len(),
                i < actions@.len() ==> !(actions@[i as int].due() is Linked),
                self@ == start.added_all(parts),
                self@.wf(),
                configured_parts(mode, actions@, 0) =~= parts + configured_parts(
                    mode,
                    actions@,
                    i as int,
                ),
            decreases actions.len() - i,
        {
            let condition: ActionCondition = actions[i].condition();
            let queue_to_front: bool = actions[i].queue_to_front();
            let (action, offset): (RotatorAction, usize) = rotator_action(i, actions);
            proof {
                let part = part_at(mode, actions@, i as int);
                lemma_linked_run_fits(actions@, i + 1);
                lemma_added_all_concat(start, parts, part);
                if part.len() > 0 {
                    assert(part.drop_last() =~= seq![]);
                    assert(self@.added_all(seq![]) == self@);
                } else {
                    assert(part =~= seq![]);
                }
                parts = parts + part;
            }
            i = i + offset;
            match condition {
                ActionCondition::EveryMillis(_) | ActionCondition::ErdaShowerOffCooldown => {
                    self.add_priority_action(priority_action(action, condition, queue_to_front));
                },
                _ => {
                    if !matches!(mode, RotatorMode::AutoMobbing(_, _)) {
                        self.add_normal_action(action);
                    }
                },
            }
        }
        assert(configured_parts(mode, actions@, 0) =~= parts);
    }

    fn add_buff_actions(&mut self, buffs: &Vec<(BuffKind, KeyKind)>)
        requires
            old(self)@.wf(),
        ensures
            final(self)@ == old(self)@.added_all(buff_parts(buffs@, 0)),
            final(self)@.wf(),
    {
        let ghost start = self@;
        let ghost all = buff_parts(buffs@, 0);
        assert(all.take(0) =~= seq![]);
        assert(start.added_all(seq![]) == start);
        let mut i: usize = 0;
        while i < buffs.len()
            invariant
                i <= buffs.len(),
                all == buff_parts(buffs@, 0),
                self@ == start.added_all(all.take(i as int)),
                self@.wf(),
            decreases buffs.len() - i,
        {
            assert(all.take(i + 1).drop_last() =~= all.take(i as int));
            assert(all.take(i + 1).last() == all[i as int]);
            self.add_priority_action(buff_priority_action(buffs[i].0, buffs[i].1));
            i = i + 1;
        }
        assert(all.take(i as int) =~= all);
    }

    fn add_high_priority_actions(&mut self, args: &RotatorBuildArgs)
        requires
            old(self)@.wf(),
        ensures
            final(self)@ == old(self)@.added_all(args.high_priority_parts()),
            final(self)@.wf(),
    {
        let rune: PriorityAction = solve_rune_priority_action();
        let shape: PriorityAction = solve_transparent_shape_priority_action();
        let violetta: PriorityAction = solve_violetta_priority_action();
        let channel: PriorityAction = elite_boss_change_channel_priority_action();
        let use_key: PriorityAction = elite_boss_use_key_priority_action(
            args.elite_boss_behavior_key,
        );
        let panic: PriorityAction = panic_priority_action();
        let essence: PriorityAction = familiar_essence_replenish_priority_action(
            args.familiar_essence_key,
        );
        let unstuck: PriorityAction = unstuck_priority_action();
        let changes_channel: bool = matches!(
            args.elite_boss_behavior,
            EliteBossBehavior::CycleChannel
        );
        let uses_key: bool = matches!(args.elite_boss_behavior, EliteBossBehavior::UseKey);
        let familiar: bool = has_familiar_buff(args);
        proof {
            let s = old(self)@;
            let a = part_if(args.enable_rune_solving, rune);
            let b = part_if(args.enable_transparent_shape_solving, shape);
            let c = part_if(args.enable_violetta_solving, violetta);
            let d1 = part_if(changes_channel, channel);
            let d2 = part_if(uses_key, use_key);
            let e = part_if(args.enable_panic_mode, panic);
            let f = part_if(familiar, essence);
            let g = buff_parts(args.buffs@, 0);
            let h = part_if(true, unstuck);
            lemma_added_all_concat(s, a, b);
            lemma_added_all_concat(s, a + b, c);
            lemma_added_all_concat(s.added_all(a + b + c), d1, d2);
            lemma_added_all_concat(s, a + b + c, d1 + d2);
            lemma_added_all_concat(s, a + b + c + (d1 + d2), e);
            lemma_added_all_concat(s, a + b + c + (d1 + d2) + e, f);
            lemma_added_all_concat(s, a + b + c + (d1 + d2) + e + f, g);
            lemma_added_all_concat(s, a + b + c + (d1 + d2) + e + f + g, h);
        }
        self.add_if(args.enable_rune_solving, rune);
        self.add_if(args.enable_transparent_shape_solving, shape);
        self.add_if(args.enable_violetta_solving, violetta);
        self.add_if(changes_channel, channel);
        self.add_if(uses_key, use_key);
        self.add_if(args.enable_panic_mode, panic);
        self.add_if(familiar, essence);
        self.add_buff_actions(&args.buffs);
        self.add_if(true, unstuck);
    }
}

fn has_familiar_buff(args: &RotatorBuildArgs) -> (res: bool)
    ensures
        res == args.keeps_familiar(),
{
    let mut i: usize = 0;
    while i < args.buffs.len()
        invariant
            i <= args.buffs.len(),
            forall|j: int| 0 <= j < i ==> !((#[trigger] args.buffs@[j]).0 is Familiar),
        decreases args.buffs.len() - i,
    {
        if matches!(args.buffs[i].0, BuffKind::Familiar) {
            assert(args.buffs@[i as int].0 is Familiar);
            return true;
        }
        i = i + 1;
    }
    false
}

fn concat(first: &Vec<Action>, second: &Vec<Action>) -> (res: Vec<Action>)
    ensures
        res@ == first@ + second@,
{
    let mut res: Vec<Action> = Vec::new();
    let mut i: usize = 0;
    while i < first.len()
        invariant
            i <= first.len(),
            res@ =~= first@.take(i as int),
        decreases first.len() - i,
    {
        res.push(first[i]);
        i = i + 1;
    }
    let mut j: usize = 0;
    while j < second.len()
        invariant
            j <= second.len(),
            res@ =~= first@ + second@.take(j as int),
        decreases second.len() - j,
    {
        res.push(second[j]);
        j = j + 1;
    }
    res
}

/// Handles rotating provided [`PlayerAction`]s.
pub trait Rotator {
    /// What the rotator holds.
    spec fn model(&self) -> RotatorView;

    fn build_actions(&mut self, args: &RotatorBuildArgs)
        requires
            args.wf(),
        ensures
            final(self).model() == old(self).model().built(args),
            final(self).model().wf(),
    ;

    /// Resets priority and normal actions queues.
    ///
    /// This does not remove previously built actions.
    fn reset_queue(&mut self)
        ensures
            final(self).model() == old(self).model().queue_reset(),
            old(self).model().wf() ==> final(self).model().wf(),
    ;

    /// Injects an action to be executed.
    ///
    /// This can be useful for one-time action that needs to be run in response to some external
    /// event (e.g. chat). But should work co-operatively with previously built actions instead of
    /// directly overwriting what the player does.
    fn inject_action(&mut self, action: PlayerAction)
        ensures
            final(self).model() == old(self).model().injected(action),
            old(self).model().wf() ==> final(self).model().wf(),
    ;

    /// Rotates actions previously built with [`Self::build_actions`].
    ///
    /// If the operation is currently halting, it does not rotate the built actions but only the
    /// side-loaded actions added by [`Self::inject_action`].
    fn rotate_action(&mut self, resources: &Resources, world: &mut World, observed: &Observation)
        requires
            old(self).model().wf(),
            observed.wf(),
            old(self).model().fits(resources, old(world), observed),
        ensures
            (final(self).model(), final(world).player.context) == old(self).model().rotated(
                resources,
                old(world),
                observed,
            ),
            final(self).model().wf(),
            *final(world) == (World {
                player: PlayerEntity {
                    context: final(world).player.context,
                    ..old(world).player
                },
                ..*old(world)
            }),
    ;
}

impl Rotator for DefaultRotator {
    open spec fn model(&self) -> RotatorView {
        self@
    }

    fn build_actions(&mut self, args: &RotatorBuildArgs) {
        self.reset_queue();
        self.normal_actions.clear();
        self.normal_rotate_mode = args.mode;
        self.normal_actions_reset_on_erda = args.enable_reset_normal_actions_on_erda;
        table::clear(&mut self.priority_actions);
        let actions: Vec<Action> = concat(&args.character_actions, &args.map_actions);
        let ghost empty = self@;
        proof {
            let low = args.low_priority_parts();
            let mid = configured_parts(args.mode, args.actions(), 0);
            let high = args.high_priority_parts();
            lemma_added_all_concat(empty, low, mid);
            lemma_added_all_concat(empty, low + mid, high);
        }
        self.add_low_priority_actions(args);
        self.add_configured_actions(args.mode, &actions);
        self.add_high_priority_actions(args);
    }

    fn reset_queue(&mut self) {
        self.normal_actions_backward = false;
        self.reset_normal_actions_queue();
        self.priority_actions_queue.clear();
        self.priority_queuing_linked_action = None;
        self.auto_mob_quadrant_consecutive_count = None;
    }

    fn inject_action(&mut self, action: PlayerAction) {
        self.priority_actions_side_queue.push_back(action);
    }

    fn rotate_action(&mut self, resources: &Resources, world: &mut World, observed: &Observation) {
        if resources.operation.halting() {
            if !has_side_loaded_action_executing(&world.player.context) {
                let _ = self.rotate_side_priority_action(&mut world.player.context);
            }
            return;
        }
        self.rotate_priority_actions(resources, world, observed);
        self.rotate_priority_actions_queue(&mut world.player);
        match self.normal_rotate_mode {
            RotatorMode::StartToEnd => self.rotate_start_to_end(&mut world.player.context),
            RotatorMode::StartToEndThenReverse => self.rotate_start_to_end_then_reverse(
                &mut world.player.context,
            ),
            RotatorMode::AutoMobbing(key, _) => self.rotate_auto_mobbing(
                &mut world.player.context,
                world.minimap.state,
                key,
                &observed.mobs,
            ),
            RotatorMode::PingPong(key, bound) => self.rotate_ping_pong(
                &mut world.player.context,
                world.minimap.state,
                key,
                bound,
            ),
        }
    }
}

impl Default for DefaultRotator {
    fn default() -> (res: Self)
        ensures
            res@ == (RotatorView {
                normal_actions: seq![],
                normal_queuing_linked_action: None,
                normal_index: 0,
                normal_actions_backward: false,
                normal_actions_reset_on_erda: false,
                normal_rotate_mode: RotatorMode::StartToEndThenReverse,
                quadrant_count: None,
                entries: seq![],
                priority_queuing_linked_action: None,
                queue: seq![],
                side_queue: seq![],
                next_id: 0,
            }),
            res@.wf(),
    {
        DefaultRotator {
            normal_actions: Vec::new(),
            normal_queuing_linked_action: None,
            normal_index: 0,
            normal_actions_backward: false,
            normal_actions_reset_on_erda: false,
            normal_rotate_mode: RotatorMode::default(),
            auto_mob_quadrant_consecutive_count: None,
            priority_actions: table::empty_table(),
            priority_queuing_linked_action: None,
            priority_actions_queue: VecDeque::new(),
            priority_actions_side_queue: VecDeque::new(),
            next_id: 0,
        }
    }
}

} // verus!
