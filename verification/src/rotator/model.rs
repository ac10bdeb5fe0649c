//! What a rotator holds and how each rotation changes it.

use vstd::prelude::*;

use crate::clock::Instant;
use crate::ecs::{Minimap, MinimapIdle, PlayerEntity, Resources, World};
use crate::geometry::{Point, Rect};
use crate::models::actions::{Bound, Position};
use crate::models::keys::MobbingKey;
use crate::player::actions::{ticks, AutoMob, PingPong, PingPongDirection, PlayerAction};
use crate::player::context::{PlayerContext, Quadrant};
use crate::rotator::action::{LinkedAction, PriorityAction, RotatorAction};
use crate::rotator::conditions::{Detection, PriorityActionQueueInfo};
use crate::rotator::table::{ids_of, lookup, updated};
use crate::task::Update;

verus! {

/// The rotator's rotation mode.
#[derive(Clone, Copy, PartialEq, Eq, Debug, Structural)]
pub enum RotatorMode {
    StartToEnd,
    StartToEndThenReverse,
    AutoMobbing(MobbingKey, Bound),
    PingPong(MobbingKey, Bound),
}

impl Default for RotatorMode {
    fn default() -> (mode: Self)
        ensures
            mode == RotatorMode::StartToEndThenReverse,
    {
        RotatorMode::StartToEndThenReverse
    }
}

/// How often mobs may be detected in the same quadrant before the player is led on.
pub const AUTO_MOB_SAME_QUAD_THRESHOLD: u32 = 5;

/// The mobs seen by a detection that has completed.
#[derive(Debug)]
pub struct MobSighting {
    /// The positions of the mobs that the player can reach.
    pub reachable: Vec<Point>,
    /// The index of the one picked at random among them; there is none to pick where none can be
    /// reached.
    pub choice: Option<usize>,
    /// Where the player is led on to.
    pub pathing_point: Point,
}

impl MobSighting {
    /// A mob was picked exactly where one can be reached, and it is one of those.
    pub open spec fn wf(self) -> bool {
        match self.choice {
            Some(i) => i < self.reachable@.len(),
            None => self.reachable@.len() == 0,
        }
    }

    /// The mob that was picked, if there was one to pick.
    pub open spec fn picked(self) -> Option<Point> {
        match self.choice {
            Some(i) => Some(self.reachable@[i as int]),
            None => None,
        }
    }
}

/// What was observed since the rotation before.
#[derive(Debug)]
pub struct Observation {
    pub now: Instant,
    /// What the detections of priority actions have reported, by id. One that is not listed is
    /// still running.
    pub updates: Vec<(u32, Update)>,
    /// The mobs that were detected, if that detection has completed.
    pub mobs: Option<MobSighting>,
}

impl Observation {
    /// What was seen of mobs makes sense.
    pub open spec fn wf(self) -> bool {
        self.mobs matches Some(mobs) ==> mobs.wf()
    }
}

/// What the detection for the action `id` has reported.
pub open spec fn reported(updates: Seq<(u32, Update)>, id: u32) -> Update
    decreases updates.len(),
{
    if updates.len() == 0 {
        Update::Pending
    } else if updates[0].0 == id {
        updates[0].1
    } else {
        reported(updates.drop_first(), id)
    }
}

/// What a rotator holds.
#[verifier::ext_equal]
pub struct RotatorView {
    pub normal_actions: Seq<(u32, RotatorAction)>,
    pub normal_queuing_linked_action: Option<(u32, Box<LinkedAction>)>,
    pub normal_index: int,
    pub normal_actions_backward: bool,
    pub normal_actions_reset_on_erda: bool,
    pub normal_rotate_mode: RotatorMode,
    pub quadrant_count: Option<(Quadrant, u32)>,
    pub entries: Seq<(u32, PriorityAction)>,
    pub priority_queuing_linked_action: Option<(u32, Box<LinkedAction>)>,
    pub queue: Seq<u32>,
    pub side_queue: Seq<PlayerAction>,
    pub next_id: u32,
}

/// Whether a queued or executed action among `entries` waits for Erda Shower.
pub open spec fn erda_busy(
    entries: Seq<(u32, PriorityAction)>,
    queue: Seq<u32>,
    context: PlayerContext,
) -> bool {
    ||| (context.priority_action_id matches Some(id) && waits_for_erda(entries, id))
    ||| exists|i: int| 0 <= i < queue.len() && waits_for_erda(entries, #[trigger] queue[i])
}

pub open spec fn waits_for_erda(entries: Seq<(u32, PriorityAction)>, id: u32) -> bool {
    lookup(entries, id) matches Some(action) && action.waits_for_erda()
}

pub open spec fn uses_booster(entries: Seq<(u32, PriorityAction)>, id: u32) -> bool {
    lookup(entries, id) matches Some(action) && action.uses_booster()
}

/// Whether a queued or executed action among `entries` uses a booster.
pub open spec fn booster_busy(
    entries: Seq<(u32, PriorityAction)>,
    queue: Seq<u32>,
    context: PlayerContext,
) -> bool {
    ||| (context.priority_action_id matches Some(id) && uses_booster(entries, id))
    ||| exists|i: int| 0 <= i < queue.len() && uses_booster(entries, #[trigger] queue[i])
}

/// Whether the player carries out the linked action `id`.
pub open spec fn executes_linked(
    entries: Seq<(u32, PriorityAction)>,
    context: PlayerContext,
    id: u32,
) -> bool {
    &&& context.priority_action_id == Some(id)
    &&& lookup(entries, id) matches Some(action)
    &&& action.inner is Linked
}

/// The queue with the action that was replaced put back in front.
pub open spec fn requeued(queue: Seq<u32>, replaced: Option<u32>) -> Seq<u32> {
    match replaced {
        Some(id) => seq![id] + queue,
        None => queue,
    }
}

impl RotatorView {
    /// Each priority action has an id of its own and can be evaluated, the index is inside of the
    /// normal actions and no count has reached its threshold.
    pub open spec fn wf(self) -> bool {
        &&& ids_of(self.entries).no_duplicates()
        &&& forall|i: int| 0 <= i < self.entries.len() ==> (#[trigger] self.entries[i]).1.wf()
        &&& 0 <= self.normal_index
        &&& self.normal_index < self.normal_actions.len() || self.normal_index == 0
        &&& self.quadrant_count matches Some((_, count)) ==> count < AUTO_MOB_SAME_QUAD_THRESHOLD
    }

    /// Whether the player carries out the linked action `id`, or is about to.
    pub open spec fn linked_busy(self, context: PlayerContext, id: u32) -> bool {
        ||| (self.priority_queuing_linked_action matches Some((queuing, _)) && queuing == id)
        ||| executes_linked(self.entries, context, id)
    }

    /// Whether the action `id` is left alone because it is waiting or being carried out.
    pub open spec fn ignored(
        self,
        context: PlayerContext,
        has_erda: bool,
        id: u32,
        action: PriorityAction,
    ) -> bool {
        let linked = self.linked_busy(context, id);
        if action.waits_for_erda() {
            has_erda || linked
        } else {
            context.priority_action_id == Some(id) || self.queue.contains(id) || linked
        }
    }

    /// The rotator with what is known of the last queuing of an action replaced.
    pub open spec fn noted(
        self,
        id: u32,
        action: PriorityAction,
        ignoring: bool,
        last_queued_time: Option<Instant>,
    ) -> Self {
        let info = PriorityActionQueueInfo { ignoring, last_queued_time };
        RotatorView { entries: updated(self.entries, id, action.with_info(info)), ..self }
    }

    pub open spec fn queued(self, id: u32, to_front: bool) -> Self {
        RotatorView {
            queue: if to_front {
                seq![id] + self.queue
            } else {
                self.queue.push(id)
            },
            ..self
        }
    }

    /// Whether the action `id` is due and not left alone.
    pub open spec fn chosen(
        self,
        resources: &Resources,
        world: &World,
        observed: &Observation,
        has_erda: bool,
        id: u32,
    ) -> bool {
        let context = world.player.context;
        &&& lookup(self.entries, id) matches Some(action)
        &&& !self.ignored(context, has_erda, id, action)
        &&& action.condition.verdict(
            resources,
            world,
            action.queue_info.last_queued_time,
            observed.now,
            reported(observed.updates@, id),
        ) is Queue
        &&& !(action.uses_booster() && booster_busy(self.entries, self.queue, context))
    }

    /// The rotator after one priority action was looked at.
    pub open spec fn visited(
        self,
        resources: &Resources,
        world: &World,
        observed: &Observation,
        has_erda: bool,
        id: u32,
    ) -> RotatorView {
        match lookup(self.entries, id) {
            None => self,
            Some(action) => {
                let last = action.queue_info.last_queued_time;
                let now = observed.now;
                let update = reported(observed.updates@, id);
                if self.ignored(world.player.context, has_erda, id, action) {
                    self.noted(id, action, true, Some(now))
                } else if action.condition.verdict(resources, world, last, now, update) is Skip {
                    self.noted(id, action, false, last)
                } else if self.chosen(resources, world, observed, has_erda, id) {
                    self.noted(id, action, false, Some(now)).queued(id, action.queue_to_front)
                } else {
                    self.noted(id, action, false, Some(now))
                }
            },
        }
    }

    /// What is to be detected for the action `id`, if its condition depends on that now.
    pub open spec fn request(
        self,
        resources: &Resources,
        world: &World,
        now: Instant,
        id: u32,
    ) -> Option<(Detection, u64)> {
        let context = world.player.context;
        let has_erda = erda_busy(self.entries, self.queue, context);
        match lookup(self.entries, id) {
            Some(action) if !self.ignored(context, has_erda, id, action)
                && action.condition.gate_spec(
                resources,
                world,
                action.queue_info.last_queued_time,
                now,
            ) is Poll => action.condition.detection_spec(),
            _ => None,
        }
    }

    /// What is to be detected for the first `count` priority actions, and how many milliseconds
    /// apart.
    pub open spec fn requests(
        self,
        resources: &Resources,
        world: &World,
        now: Instant,
        count: nat,
    ) -> Seq<(u32, Detection, u64)>
        decreases count,
    {
        if count == 0 {
            seq![]
        } else {
            let before = self.requests(resources, world, now, (count - 1) as nat);
            let id = ids_of(self.entries)[count - 1];
            match self.request(resources, world, now, id) {
                Some((detection, millis)) => before.push((id, detection, millis)),
                None => before,
            }
        }
    }

    /// The rotator after the first `count` priority actions were looked at, and whether one of
    /// them that waits for Erda Shower was queued.
    pub open spec fn passed(
        self,
        resources: &Resources,
        world: &World,
        observed: &Observation,
        count: nat,
    ) -> (RotatorView, bool)
        decreases count,
    {
        if count == 0 {
            (self, false)
        } else {
            let (before, queued_erda) = self.passed(
                resources,
                world,
                observed,
                (count - 1) as nat,
            );
            let has_erda = erda_busy(self.entries, self.queue, world.player.context);
            let id = ids_of(self.entries)[count - 1];
            (
                before.visited(resources, world, observed, has_erda, id),
                queued_erda || (before.chosen(resources, world, observed, has_erda, id)
                    && waits_for_erda(before.entries, id)),
            )
        }
    }

    pub open spec fn normal_queue_reset(self) -> Self {
        RotatorView { normal_index: 0, normal_queuing_linked_action: None, ..self }
    }

    /// The rotator and the player after a pass over all priority actions.
    pub open spec fn priority_rotated(
        self,
        resources: &Resources,
        world: &World,
        observed: &Observation,
    ) -> (RotatorView, PlayerContext) {
        let (after, queued_erda) = self.passed(resources, world, observed, self.entries.len());
        if queued_erda && self.normal_actions_reset_on_erda {
            (after.normal_queue_reset(), world.player.context.without_normal())
        } else {
            (after, world.player.context)
        }
    }

    /// Whether the player carries out a linked normal action, or is about to.
    pub open spec fn normal_linked_busy(self, context: PlayerContext) -> bool {
        ||| self.normal_queuing_linked_action is Some
        ||| (context.normal_action_id matches Some(id) && exists|i: int|
            0 <= i < self.normal_actions.len() && (#[trigger] self.normal_actions[i]).0 == id
                && self.normal_actions[i].1 is Linked)
    }

    /// Whether nothing may take the place of what the player is doing.
    pub open spec fn queue_blocked(self, player: PlayerEntity) -> bool {
        ||| !player.can_override_state
        ||| self.normal_linked_busy(player.context)
        ||| (player.context.priority_action_id matches Some(id) && executes_linked(
            self.entries,
            player.context,
            id,
        ))
        ||| player.context.side_loaded()
    }

    /// Whether the player carries out an action that was queued to the front.
    pub open spec fn executes_front(self, context: PlayerContext) -> bool {
        &&& context.priority_action_id matches Some(id)
        &&& lookup(self.entries, id) matches Some(action)
        &&& action.queue_to_front
    }

    /// The next step of a linked priority action.
    pub open spec fn priority_linked_rotated(self, context: PlayerContext) -> (
        RotatorView,
        PlayerContext,
    ) {
        match self.priority_queuing_linked_action {
            None => (self, context),
            Some((id, action)) => (
                RotatorView {
                    priority_queuing_linked_action: following(id, action.next),
                    ..self
                },
                context.with_priority(Some(id), action.inner),
            ),
        }
    }

    /// The next step of a linked normal action.
    pub open spec fn normal_linked_rotated(self, context: PlayerContext) -> (
        RotatorView,
        PlayerContext,
    ) {
        match self.normal_queuing_linked_action {
            None => (self, context),
            Some((id, action)) => (
                RotatorView {
                    normal_queuing_linked_action: following(id, action.next),
                    ..self
                },
                context.with_normal(Some(id), action.inner),
            ),
        }
    }

    /// The action injected first is handed to the player. It waits for as long as the player has
    /// another priority action to carry out.
    pub open spec fn side_rotated(self, context: PlayerContext) -> (RotatorView, PlayerContext) {
        if self.side_queue.len() == 0 || context.priority_action is Some {
            (self, context)
        } else {
            (
                RotatorView { side_queue: self.side_queue.drop_first(), ..self },
                context.with_priority(None, self.side_queue[0]),
            )
        }
    }

    /// The action at the front of the queue is handed to the player, where it may be.
    pub open spec fn front_rotated(self, context: PlayerContext) -> (RotatorView, PlayerContext) {
        if self.queue.len() == 0 {
            (self, context)
        } else {
            let id = self.queue[0];
            let rest = self.queue.drop_first();
            match lookup(self.entries, id) {
                None => (RotatorView { queue: rest, ..self }, context),
                Some(action) => if context.priority_action is Some && !action.queue_to_front {
                    (self, context)
                } else {
                    let queue = if action.queue_to_front {
                        requeued(rest, context.priority_action_id)
                    } else {
                        rest
                    };
                    match action.inner {
                        RotatorAction::Single(inner) => (
                            RotatorView { queue, ..self },
                            context.with_priority(Some(id), inner),
                        ),
                        RotatorAction::Linked(linked) => (
                            RotatorView {
                                queue,
                                priority_queuing_linked_action: following(id, linked.next),
                                ..self
                            },
                            context.with_priority(Some(id), linked.inner),
                        ),
                    }
                },
            }
        }
    }

    /// The rotator and the player after the queue of priority actions was rotated.
    pub open spec fn queue_rotated(self, player: PlayerEntity) -> (RotatorView, PlayerContext) {
        let context = player.context;
        if self.queue_blocked(player) {
            (self, context)
        } else if self.priority_queuing_linked_action is Some {
            self.priority_linked_rotated(context)
        } else if self.side_queue.len() > 0 {
            self.side_rotated(context)
        } else if self.executes_front(context) {
            (self, context)
        } else {
            self.front_rotated(context)
        }
    }

    /// The normal action at `at` is handed to the player.
    pub open spec fn normal_taken(self, context: PlayerContext, at: int) -> (
        RotatorView,
        PlayerContext,
    ) {
        let (id, action) = self.normal_actions[at];
        match action {
            RotatorAction::Single(inner) => (self, context.with_normal(Some(id), inner)),
            RotatorAction::Linked(linked) => (
                RotatorView {
                    normal_queuing_linked_action: following(id, linked.next),
                    ..self
                },
                context.with_normal(Some(id), linked.inner),
            ),
        }
    }

    /// Whether the player is still busy with a normal action or there is none.
    pub open spec fn normal_idle(self, context: PlayerContext) -> bool {
        context.normal_action is Some || self.normal_actions.len() == 0
    }

    pub open spec fn start_to_end_rotated(self, context: PlayerContext) -> (
        RotatorView,
        PlayerContext,
    ) {
        if self.normal_idle(context) {
            (self, context)
        } else if self.normal_queuing_linked_action is Some {
            self.normal_linked_rotated(context)
        } else {
            let after = RotatorView { normal_index: self.index_after(self.normal_index), ..self };
            after.normal_taken(context, self.normal_index)
        }
    }

    /// The direction and the index, counted in that direction, of the next normal action.
    pub open spec fn turned(self) -> (bool, int) {
        if self.normal_index + 1 == self.normal_actions.len() {
            (!self.normal_actions_backward, 0)
        } else {
            (self.normal_actions_backward, self.normal_index)
        }
    }

    /// The position of the next normal action when going back and forth.
    pub open spec fn position_turned(self) -> int {
        let (backward, index) = self.turned();
        if backward {
            self.normal_actions.len() - 1 - index
        } else {
            index
        }
    }

    /// The index that comes after `index`, the first one after the last.
    pub open spec fn index_after(self, index: int) -> int {
        if index + 1 == self.normal_actions.len() {
            0
        } else {
            index + 1
        }
    }

    pub open spec fn back_and_forth_rotated(self, context: PlayerContext) -> (
        RotatorView,
        PlayerContext,
    ) {
        if self.normal_idle(context) {
            (self, context)
        } else if self.normal_queuing_linked_action is Some {
            self.normal_linked_rotated(context)
        } else {
            let (backward, index) = self.turned();
            let after = RotatorView {
                normal_actions_backward: backward,
                normal_index: self.index_after(index),
                ..self
            };
            after.normal_taken(context, self.position_turned())
        }
    }

    /// How often mobs were detected in the quadrant of the player, and whether the player is to
    /// be led on.
    pub open spec fn quadrant_counted(self, context: PlayerContext, mobs: &MobSighting) -> (
        Option<(Quadrant, u32)>,
        bool,
    ) {
        match context.auto_mob_last_quadrant {
            Some(last) if mobs.reachable@.len() > 0 => {
                let count = match self.quadrant_count {
                    Some((quadrant, count)) if quadrant == last => count + 1,
                    _ => 1,
                };
                if count >= AUTO_MOB_SAME_QUAD_THRESHOLD {
                    (Some((last, 0)), true)
                } else {
                    (Some((last, count as u32)), false)
                }
            },
            _ => (self.quadrant_count, false),
        }
    }

    pub open spec fn auto_mobbing_rotated(
        self,
        context: PlayerContext,
        minimap: Minimap,
        key: MobbingKey,
        mobs: Option<MobSighting>,
    ) -> (RotatorView, PlayerContext) {
        match mobs {
            Some(mobs) if context.normal_action is None && minimap is Idle
                && context.last_known_pos is Some => {
                let (quadrant_count, lead_on) = self.quadrant_counted(context, &mobs);
                let is_pathing = lead_on || mobs.picked() is None;
                let point = match mobs.picked() {
                    Some(picked) if !lead_on => picked,
                    _ => mobs.pathing_point,
                };
                (
                    RotatorView { quadrant_count, ..self },
                    context.with_normal(None, mob_action(key, point, is_pathing)),
                )
            },
            _ => (self, context),
        }
    }

    pub open spec fn ping_pong_rotated(
        self,
        context: PlayerContext,
        minimap: Minimap,
        key: MobbingKey,
        bound: Bound,
    ) -> (RotatorView, PlayerContext) {
        match (context.last_known_pos, minimap) {
            (Some(pos), Minimap::Idle(idle)) if context.normal_action is None => (
                self,
                context.with_normal(None, ping_pong_action(pos, idle, key, bound)),
            ),
            _ => (self, context),
        }
    }

    /// The rotator and the player after the normal actions were rotated.
    pub open spec fn normal_rotated(
        self,
        context: PlayerContext,
        minimap: Minimap,
        mobs: Option<MobSighting>,
    ) -> (RotatorView, PlayerContext) {
        match self.normal_rotate_mode {
            RotatorMode::StartToEnd => self.start_to_end_rotated(context),
            RotatorMode::StartToEndThenReverse => self.back_and_forth_rotated(context),
            RotatorMode::AutoMobbing(key, _) => self.auto_mobbing_rotated(
                context,
                minimap,
                key,
                mobs,
            ),
            RotatorMode::PingPong(key, bound) => self.ping_pong_rotated(
                context,
                minimap,
                key,
                bound,
            ),
        }
    }

    /// The rotator and the player after the priority actions were looked at and their queue was
    /// rotated.
    pub open spec fn priorities_rotated(
        self,
        resources: &Resources,
        world: &World,
        observed: &Observation,
    ) -> (RotatorView, PlayerContext) {
        let (after_pass, passed_context) = self.priority_rotated(resources, world, observed);
        after_pass.queue_rotated((PlayerEntity { context: passed_context, ..world.player }))
    }

    /// Whether the bound of a ping pong rotation can be measured from the bottom of the minimap,
    /// where it comes to that.
    pub open spec fn fits(
        self,
        resources: &Resources,
        world: &World,
        observed: &Observation,
    ) -> bool {
        let (after, context) = self.priorities_rotated(resources, world, observed);
        match after.normal_rotate_mode {
            RotatorMode::PingPong(_, bound) if !resources.operation.halts() => ping_pong_fits(
                context,
                world.minimap.state,
                bound,
            ),
            _ => true,
        }
    }

    /// The rotator and the player after a whole rotation.
    pub open spec fn rotated(
        self,
        resources: &Resources,
        world: &World,
        observed: &Observation,
    ) -> (RotatorView, PlayerContext) {
        if resources.operation.halts() {
            self.side_rotated(world.player.context)
        } else {
            let (after, context) = self.priorities_rotated(resources, world, observed);
            after.normal_rotated(context, world.minimap.state, observed.mobs)
        }
    }

    /// The rotator with all queues reset; what was injected stays.
    pub open spec fn queue_reset(self) -> Self {
        RotatorView {
            normal_index: 0,
            normal_queuing_linked_action: None,
            normal_actions_backward: false,
            quadrant_count: None,
            queue: seq![],
            priority_queuing_linked_action: None,
            ..self
        }
    }

    pub open spec fn injected(self, action: PlayerAction) -> Self {
        RotatorView { side_queue: self.side_queue.push(action), ..self }
    }
}

/// What is left of a linked action after its first step.
pub open spec fn following(id: u32, next: Option<Box<LinkedAction>>) -> Option<
    (u32, Box<LinkedAction>),
> {
    match next {
        Some(next) => Some((id, next)),
        None => None,
    }
}

pub open spec fn at_least_once(count: u32) -> u32 {
    if count == 0 {
        1
    } else {
        count
    }
}

/// Using the mobbing key at a point.
pub open spec fn mob_action(key: MobbingKey, point: Point, is_pathing: bool) -> PlayerAction {
    PlayerAction::AutoMob(
        AutoMob {
            key: key.key,
            key_hold_ticks: ticks(key.key_hold_millis) as u32,
            link_key: key.link_key,
            count: at_least_once(key.count),
            with: key.with,
            wait_before_ticks: ticks(key.wait_before_millis) as u32,
            wait_before_ticks_random_range: ticks(key.wait_before_millis_random_range) as u32,
            wait_after_ticks: ticks(key.wait_after_millis) as u32,
            wait_after_ticks_random_range: ticks(key.wait_after_millis_random_range) as u32,
            position: Position {
                x: point.x,
                x_random_range: 0,
                y: point.y,
                allow_adjusting: false,
            },
            is_pathing,
        },
    )
}

pub open spec fn bound_fits(idle: MinimapIdle, bound: Bound) -> bool {
    &&& i32::MIN <= bound.y + bound.height <= i32::MAX
    &&& i32::MIN <= idle.bbox.height - (bound.y + bound.height) <= i32::MAX
}

/// Whether a ping pong rotation can measure its bound, where it has to.
pub open spec fn ping_pong_fits(context: PlayerContext, minimap: Minimap, bound: Bound) -> bool {
    match (context.last_known_pos, minimap) {
        (Some(_), Minimap::Idle(idle)) if context.normal_action is None => bound_fits(idle, bound),
        _ => true,
    }
}

/// Going back and forth inside of a bound, first to the side that is further away.
pub open spec fn ping_pong_action(
    pos: Point,
    idle: MinimapIdle,
    key: MobbingKey,
    bound: Bound,
) -> PlayerAction {
    let dist_left = pos.x - idle.bbox.x;
    let dist_right = idle.bbox.x + idle.bbox.width - pos.x;
    PlayerAction::PingPong(
        PingPong {
            key: key.key,
            key_hold_ticks: ticks(key.key_hold_millis) as u32,
            link_key: key.link_key,
            count: at_least_once(key.count),
            with: key.with,
            wait_before_ticks: ticks(key.wait_before_millis) as u32,
            wait_before_ticks_random_range: ticks(key.wait_before_millis_random_range) as u32,
            wait_after_ticks: ticks(key.wait_after_millis) as u32,
            wait_after_ticks_random_range: ticks(key.wait_after_millis_random_range) as u32,
            bound: Rect {
                x: bound.x,
                y: (idle.bbox.height - (bound.y + bound.height)) as i32,
                width: bound.width,
                height: bound.height,
            },
            direction: if dist_left > dist_right {
                PingPongDirection::Left
            } else {
                PingPongDirection::Right
            },
        },
    )
}

} // verus!
