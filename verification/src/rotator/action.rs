//! Actions that the rotator hands to the player.

use vstd::prelude::*;

use crate::bridge::{KeyKind, LinkKeyKind};
use crate::ecs::BuffKind;
use crate::models::actions::{
    Action, ActionCondition, ActionKeyDirection, ActionKeyWith, ExchangeHexaBoosterCondition,
    WaitAfterBuffered,
};
use crate::player::actions::{
    player_action, Booster, ExchangeBooster, FamiliarsSwap, Key, Panic, PanicTo, PlayerAction,
    UseBooster,
};
use crate::rotator::conditions::{recurs, Condition, PriorityActionQueueInfo};

verus! {

/// Action metadata to help identifying action type.
#[derive(Clone, Copy, PartialEq, Eq, Debug, Structural)]
pub enum ActionMetadata {
    UseBooster,
    Buff(BuffKind),
}

/// A linked list of actions.
#[derive(Debug)]
pub struct LinkedAction {
    pub inner: PlayerAction,
    pub next: Option<Box<LinkedAction>>,
}

/// The action that will be passed to the player.
///
/// There are [`RotatorAction::Single`] and [`RotatorAction::Linked`] actions.
/// A [`RotatorAction::Linked`] action is a linked list of actions. It is executed in order, until
/// completion and cannot be replaced by any other type of actions.
#[derive(Debug)]
pub enum RotatorAction {
    Single(PlayerAction),
    Linked(LinkedAction),
}

/// A priority action that can override a normal action.
///
/// This includes all non-[`ActionCondition::Any`] actions.
///
/// When a player is in the middle of doing a normal action, this type of action
/// can override most of the player's current state and forced to perform this action.
/// However, it cannot override player states that are considered "terminal". These states
/// include stalling, using key and forced double jumping. It also cannot override linked action.
///
/// When this type of action has [`Self::queue_to_front`] set, it will be queued to the
/// front and override other non-[`Self::queue_to_front`] priority action. The overriden
/// action is simply placed back to the queue in front. It is mostly useful for action such as
/// `press attack after x seconds even in the middle of moving`.
#[derive(Debug)]
pub struct PriorityAction {
    /// The predicate for when this action should be queued.
    pub condition: Condition,
    /// The kind the above predicate was derived from.
    pub condition_kind: Option<ActionCondition>,
    /// The inner action.
    pub inner: RotatorAction,
    /// The metadata about this action.
    pub metadata: Option<ActionMetadata>,
    /// Whether to queue this action to the front of the priority actions queue.
    pub queue_to_front: bool,
    pub queue_info: PriorityActionQueueInfo,
}

impl LinkedAction {
    /// The actions of the list, in order.
    pub open spec fn steps(self) -> Seq<PlayerAction>
        decreases self,
    {
        seq![self.inner] + match self.next {
            Some(next) => next.steps(),
            None => seq![],
        }
    }
}

impl RotatorAction {
    /// The actions to be carried out, in order.
    pub open spec fn steps(self) -> Seq<PlayerAction> {
        match self {
            RotatorAction::Single(action) => seq![action],
            RotatorAction::Linked(linked) => linked.steps(),
        }
    }
}

impl Clone for LinkedAction {
    fn clone(&self) -> (res: Self)
        ensures
            res == *self,
        decreases self,
    {
        let next: Option<Box<LinkedAction>> = match &self.next {
            Some(next) => Some(Box::new((&**next).clone())),
            None => None,
        };
        LinkedAction { inner: self.inner, next }
    }
}

impl Clone for RotatorAction {
    fn clone(&self) -> (res: Self)
        ensures
            res == *self,
    {
        match self {
            RotatorAction::Single(action) => RotatorAction::Single(*action),
            RotatorAction::Linked(linked) => RotatorAction::Linked(linked.clone()),
        }
    }
}

impl PriorityAction {
    /// An action that is never chosen by [`ActionCondition::Any`] and whose condition can be
    /// evaluated.
    pub open spec fn wf(self) -> bool {
        &&& self.condition.wf()
        &&& self.condition_kind != Some(ActionCondition::Any)
    }

    /// Whether it is an [`ActionCondition::ErdaShowerOffCooldown`] action.
    pub open spec fn waits_for_erda(self) -> bool {
        self.condition_kind == Some(ActionCondition::ErdaShowerOffCooldown)
    }

    pub open spec fn uses_booster(self) -> bool {
        self.metadata == Some(ActionMetadata::UseBooster)
    }

    /// The same action with what is known of its last queuing replaced.
    pub open spec fn with_info(self, queue_info: PriorityActionQueueInfo) -> Self {
        PriorityAction { queue_info, ..self }
    }

    pub fn is_waiting_for_erda(&self) -> (res: bool)
        ensures
            res == self.waits_for_erda(),
    {
        matches!(self.condition_kind, Some(ActionCondition::ErdaShowerOffCooldown))
    }

    pub fn is_using_booster(&self) -> (res: bool)
        ensures
            res == self.uses_booster(),
    {
        matches!(self.metadata, Some(ActionMetadata::UseBooster))
    }

    pub fn is_linked(&self) -> (res: bool)
        ensures
            res == self.inner is Linked,
    {
        matches!(self.inner, RotatorAction::Linked(_))
    }
}

/// What is known of an action that was never queued.
pub open spec fn never_queued() -> PriorityActionQueueInfo {
    PriorityActionQueueInfo { ignoring: false, last_queued_time: None }
}

/// A single action that is queued to the front.
pub open spec fn urgent(
    condition: Condition,
    inner: PlayerAction,
    metadata: Option<ActionMetadata>,
) -> PriorityAction {
    PriorityAction {
        condition,
        condition_kind: None,
        inner: RotatorAction::Single(inner),
        metadata,
        queue_to_front: true,
        queue_info: never_queued(),
    }
}

fn urgent_action(
    condition: Condition,
    inner: PlayerAction,
    metadata: Option<ActionMetadata>,
) -> (res: PriorityAction)
    ensures
        res == urgent(condition, inner, metadata),
{
    PriorityAction {
        condition,
        condition_kind: None,
        inner: RotatorAction::Single(inner),
        metadata,
        queue_to_front: true,
        queue_info: PriorityActionQueueInfo { ignoring: false, last_queued_time: None },
    }
}

/// One use of a key, wherever the player is.
pub open spec fn key_once(key: KeyKind, with: ActionKeyWith, before: u32, after: u32) -> PlayerAction {
    PlayerAction::Key(
        Key {
            key,
            key_hold_ticks: 0,
            key_hold_buffered_to_wait_after: false,
            link_key: LinkKeyKind::Unlinked,
            count: 1,
            position: None,
            direction: ActionKeyDirection::Any,
            with,
            wait_before_use_ticks: before,
            wait_before_use_ticks_random_range: 0,
            wait_after_use_ticks: after,
            wait_after_use_ticks_random_range: 0,
            wait_after_buffered: WaitAfterBuffered::Unbuffered,
        },
    )
}

fn key_once_action(key: KeyKind, with: ActionKeyWith, before: u32, after: u32) -> (res: PlayerAction)
    ensures
        res == key_once(key, with, before, after),
{
    PlayerAction::Key(
        Key {
            key,
            key_hold_ticks: 0,
            key_hold_buffered_to_wait_after: false,
            link_key: LinkKeyKind::Unlinked,
            count: 1,
            position: None,
            direction: ActionKeyDirection::Any,
            with,
            wait_before_use_ticks: before,
            wait_before_use_ticks_random_range: 0,
            wait_after_use_ticks: after,
            wait_after_use_ticks_random_range: 0,
            wait_after_buffered: WaitAfterBuffered::Unbuffered,
        },
    )
}

/// An action queued by the condition it is configured with.
pub open spec fn configured(
    inner: RotatorAction,
    condition: ActionCondition,
    queue_to_front: bool,
) -> PriorityAction {
    PriorityAction {
        condition: Condition::Fixed(condition),
        condition_kind: Some(condition),
        inner,
        metadata: None,
        queue_to_front,
        queue_info: never_queued(),
    }
}

pub fn priority_action(
    action: RotatorAction,
    condition: ActionCondition,
    queue_to_front: bool,
) -> (res: PriorityAction)
    requires
        recurs(condition),
    ensures
        res == configured(action, condition, queue_to_front),
        res.wf(),
{
    PriorityAction {
        condition: Condition::Fixed(condition),
        condition_kind: Some(condition),
        inner: action,
        metadata: None,
        queue_to_front,
        queue_info: PriorityActionQueueInfo { ignoring: false, last_queued_time: None },
    }
}

/// Creates a [`PlayerAction::Key`] priority action to replenish familiar essence
/// when it is detected as depleted.
///
/// The action will only queue if:
/// - Enough time has passed since the last queue attempt.
/// - The familiar buff is currently active.
/// - Familiar essence is detected as depleted.
pub fn familiar_essence_replenish_priority_action(key: KeyKind) -> (res: PriorityAction)
    ensures
        res == urgent(Condition::FamiliarEssence, key_once(key, ActionKeyWith::Any, 5, 0), None),
{
    urgent_action(Condition::FamiliarEssence, key_once_action(key, ActionKeyWith::Any, 5, 0), None)
}

pub fn familiars_swap_priority_action(swap: FamiliarsSwap, swap_check_millis: u64) -> (res:
    PriorityAction)
    ensures
        res == urgent(
            Condition::FamiliarsSwap(swap_check_millis),
            PlayerAction::FamiliarsSwap(swap),
            None,
        ),
{
    urgent_action(
        Condition::FamiliarsSwap(swap_check_millis),
        PlayerAction::FamiliarsSwap(swap),
        None,
    )
}

/// Creates a [`PlayerAction::SolveRune`] priority action that triggers when a rune is available.
///
/// This action queues if all the following conditions are met:
/// - The player is not currently validating a rune.
/// - Enough time has passed since the last queue attempt.
/// - The minimap is idle and a rune is present on it.
/// - The player currently has no rune buff.
pub fn solve_rune_priority_action() -> (res: PriorityAction)
    ensures
        res == urgent(Condition::SolveRune, PlayerAction::SolveRune, None),
{
    urgent_action(Condition::SolveRune, PlayerAction::SolveRune, None)
}

pub fn solve_transparent_shape_priority_action() -> (res: PriorityAction)
    ensures
        res == urgent(Condition::SolveTransparentShape, PlayerAction::SolveShape, None),
{
    urgent_action(Condition::SolveTransparentShape, PlayerAction::SolveShape, None)
}

pub fn solve_violetta_priority_action() -> (res: PriorityAction)
    ensures
        res == urgent(Condition::SolveVioletta, PlayerAction::SolveVioletta, None),
{
    urgent_action(Condition::SolveVioletta, PlayerAction::SolveVioletta, None)
}

/// Creates a [`PlayerAction::Key`] priority action to cast a specific buff when it's not active.
///
/// The action queues if:
/// - Enough time has passed since the last queue attempt.
/// - The minimap is idle.
/// - The specified buff is currently missing, and so is each buff that excludes it.
pub fn buff_priority_action(buff: BuffKind, key: KeyKind) -> (res: PriorityAction)
    ensures
        res == urgent(
            Condition::Buff(buff),
            key_once(key, ActionKeyWith::Stationary, 10, 10),
            Some(ActionMetadata::Buff(buff)),
        ),
{
    urgent_action(
        Condition::Buff(buff),
        key_once_action(key, ActionKeyWith::Stationary, 10, 10),
        Some(ActionMetadata::Buff(buff)),
    )
}

/// To be carried out on another channel.
pub open spec fn to_channel() -> PlayerAction {
    PlayerAction::Panic(Panic { to: PanicTo::Channel })
}

pub fn panic_priority_action() -> (res: PriorityAction)
    ensures
        res == urgent(Condition::Panic, to_channel(), None),
{
    urgent_action(Condition::Panic, PlayerAction::Panic(Panic { to: PanicTo::Channel }), None)
}

pub fn elite_boss_change_channel_priority_action() -> (res: PriorityAction)
    ensures
        res == urgent(Condition::EliteBoss, to_channel(), None),
{
    urgent_action(Condition::EliteBoss, PlayerAction::Panic(Panic { to: PanicTo::Channel }), None)
}

pub fn elite_boss_use_key_priority_action(key: KeyKind) -> (res: PriorityAction)
    ensures
        res == urgent(
            Condition::EliteBoss,
            key_once(key, ActionKeyWith::Stationary, 10, 10),
            None,
        ),
{
    urgent_action(
        Condition::EliteBoss,
        key_once_action(key, ActionKeyWith::Stationary, 10, 10),
        None,
    )
}

pub fn use_booster_priority_action(kind: Booster) -> (res: PriorityAction)
    ensures
        res == urgent(
            Condition::UseBooster(kind),
            PlayerAction::UseBooster(UseBooster { kind }),
            Some(ActionMetadata::UseBooster),
        ),
{
    urgent_action(
        Condition::UseBooster(kind),
        PlayerAction::UseBooster(UseBooster { kind }),
        Some(ActionMetadata::UseBooster),
    )
}

pub fn exchange_hexa_booster_priority_action(
    condition: ExchangeHexaBoosterCondition,
    amount: u32,
    all: bool,
) -> (res: PriorityAction)
    ensures
        res == urgent(
            Condition::ExchangeHexaBooster(condition),
            PlayerAction::ExchangeBooster(ExchangeBooster { amount, all }),
            None,
        ),
{
    urgent_action(
        Condition::ExchangeHexaBooster(condition),
        PlayerAction::ExchangeBooster(ExchangeBooster { amount, all }),
        None,
    )
}

pub fn unstuck_priority_action() -> (res: PriorityAction)
    ensures
        res == urgent(Condition::Unstuck, PlayerAction::Unstuck, None),
{
    urgent_action(Condition::Unstuck, PlayerAction::Unstuck, None)
}

/// How many actions from `start` on are linked to the one before.
pub open spec fn linked_run(actions: Seq<Action>, start: int) -> nat
    decreases actions.len() - start,
{
    if 0 <= start < actions.len() && actions[start].due() is Linked {
        1 + linked_run(actions, start + 1)
    } else {
        0
    }
}

/// The list of the `count + 1` actions from `start` on.
pub open spec fn linked_from(actions: Seq<Action>, start: int, count: nat) -> LinkedAction
    decreases count,
{
    LinkedAction {
        inner: player_action(actions[start]),
        next: if count == 0 {
            None
        } else {
            Some(Box::new(linked_from(actions, start + 1, (count - 1) as nat)))
        },
    }
}

/// The action at `start` with all those linked to it.
pub open spec fn action_at(actions: Seq<Action>, start: int) -> RotatorAction {
    let run = linked_run(actions, start + 1);
    if run == 0 {
        RotatorAction::Single(player_action(actions[start]))
    } else {
        RotatorAction::Linked(linked_from(actions, start, run))
    }
}

pub proof fn lemma_linked_run_fits(actions: Seq<Action>, start: int)
    requires
        0 <= start <= actions.len(),
    ensures
        start + linked_run(actions, start) <= actions.len(),
        ({
            let end = start + linked_run(actions, start);
            end < actions.len() ==> !(actions[end].due() is Linked)
        }),
    decreases actions.len() - start,
{
    if start < actions.len() && actions[start].due() is Linked {
        lemma_linked_run_fits(actions, start + 1);
    }
}

/// Creates a [`RotatorAction`] with the action at `start_index` as the initial action.
///
/// If the action after it is linked, this function returns [`RotatorAction::Linked`] with
/// [`usize`] as the offset from `start_index` to the next non-linked action.
/// Otherwise, this returns [`RotatorAction::Single`] with [`usize`] offset of 1.
pub fn rotator_action(start_index: usize, actions: &Vec<Action>) -> (res: (RotatorAction, usize))
    requires
        start_index < actions.len(),
    ensures
        res.0 == action_at(actions@, start_index as int),
        res.1 == 1 + linked_run(actions@, start_index + 1),
        start_index + res.1 <= actions.len(),
{
    proof {
        lemma_linked_run_fits(actions@, start_index + 1);
    }
    let mut end: usize = start_index + 1;
    while end < actions.len() && matches!(actions[end].condition(), ActionCondition::Linked)
        invariant
            start_index < end <= actions.len(),
            end + linked_run(actions@, end as int) == start_index + 1 + linked_run(
                actions@,
                start_index + 1,
            ),
        decreases actions.len() - end,
    {
        end = end + 1;
    }
    if end == start_index + 1 {
        return (RotatorAction::Single(PlayerAction::from_action(actions[start_index])), 1);
    }
    let mut at: usize = end - 1;
    let mut linked: LinkedAction = LinkedAction {
        inner: PlayerAction::from_action(actions[at]),
        next: None,
    };
    while at > start_index
        invariant
            start_index <= at < end <= actions.len(),
            linked == linked_from(actions@, at as int, (end - 1 - at) as nat),
        decreases at,
    {
        at = at - 1;
        linked = LinkedAction {
            inner: PlayerAction::from_action(actions[at]),
            next: Some(Box::new(linked)),
        };
    }
    (RotatorAction::Linked(linked), end - start_index)
}

proof fn lemma_linked_from_steps(actions: Seq<Action>, start: int, count: nat)
    requires
        0 <= start,
        start + count < actions.len(),
    ensures
        linked_from(actions, start, count).steps() =~= actions.subrange(
            start,
            start + count + 1,
        ).map_values(|action: Action| player_action(action)),
    decreases count,
{
    if count > 0 {
        lemma_linked_from_steps(actions, start + 1, (count - 1) as nat);
    }
}

/// Linked actions are carried out in the order in which they are configured, and none is left
/// out: the steps of the action at `start` are exactly those up to the next action that is not
/// linked.
pub proof fn law_linked_actions_keep_their_order(actions: Seq<Action>, start: int)
    requires
        0 <= start < actions.len(),
    ensures
        action_at(actions, start).steps() =~= actions.subrange(
            start,
            start + 1 + linked_run(actions, start + 1),
        ).map_values(|action: Action| player_action(action)),
{
    lemma_linked_run_fits(actions, start + 1);
    if linked_run(actions, start + 1) > 0 {
        lemma_linked_from_steps(actions, start, linked_run(actions, start + 1));
    }
}

} // verus!
