//! Actions a user puts together for a map or a character.

use vstd::prelude::*;

use crate::models::keys::{KeyBinding, LinkKeyBinding};

verus! {

/// A position on the minimap, measured from its bottom left corner.
#[derive(Clone, Copy, PartialEq, Eq, Debug, Structural)]
pub struct Position {
    pub x: i32,
    pub x_random_range: i32,
    pub y: i32,
    pub allow_adjusting: bool,
}

/// When an action is due.
#[derive(Clone, Copy, PartialEq, Eq, Debug, Structural)]
pub enum ActionCondition {
    /// Whenever its turn comes.
    Any,
    /// Whenever this many milliseconds have passed.
    EveryMillis(u64),
    /// Whenever Erda Shower is off cooldown.
    ErdaShowerOffCooldown,
    /// Directly after the action before it.
    Linked,
}

impl ActionCondition {
    pub open spec fn label(self) -> Seq<char> {
        match self {
            ActionCondition::Any => "Any"@,
            ActionCondition::EveryMillis(_) => "EveryMillis"@,
            ActionCondition::ErdaShowerOffCooldown => "ErdaShowerOffCooldown"@,
            ActionCondition::Linked => "Linked"@,
        }
    }

    /// The condition as it is shown.
    pub fn name(&self) -> (res: &'static str)
        ensures
            res@ == self.label(),
    {
        match self {
            ActionCondition::Any => "Any",
            ActionCondition::EveryMillis(_) => "EveryMillis",
            ActionCondition::ErdaShowerOffCooldown => "ErdaShowerOffCooldown",
            ActionCondition::Linked => "Linked",
        }
    }
}

/// How the player must be placed to use a key.
#[derive(Clone, Copy, PartialEq, Eq, Debug, Structural)]
pub enum ActionKeyWith {
    Any,
    Stationary,
    DoubleJump,
}

impl Default for ActionKeyWith {
    fn default() -> (with: Self)
        ensures
            with == ActionKeyWith::Any,
    {
        ActionKeyWith::Any
    }
}

#[derive(Clone, Copy, PartialEq, Eq, Debug, Structural)]
pub enum ActionKeyDirection {
    Any,
    Left,
    Right,
}

/// Whether waiting after a key may overlap with what follows.
#[derive(Clone, Copy, PartialEq, Eq, Debug, Structural)]
pub enum WaitAfterBuffered {
    Unbuffered,
    Interruptible,
    Uninterruptible,
}

#[derive(Clone, Copy, PartialEq, Eq, Debug, Structural)]
pub struct ActionMove {
    pub position: Position,
    pub condition: ActionCondition,
    pub wait_after_move_millis: u64,
}

#[derive(Clone, Copy, PartialEq, Eq, Debug, Structural)]
pub struct ActionKey {
    pub key: KeyBinding,
    pub key_hold_millis: u64,
    pub key_hold_buffered_to_wait_after: bool,
    pub link_key: LinkKeyBinding,
    pub count: u32,
    pub position: Option<Position>,
    pub condition: ActionCondition,
    pub direction: ActionKeyDirection,
    pub with: ActionKeyWith,
    pub wait_before_use_millis: u64,
    pub wait_before_use_millis_random_range: u64,
    pub wait_after_use_millis: u64,
    pub wait_after_use_millis_random_range: u64,
    pub wait_after_buffered: WaitAfterBuffered,
    pub queue_to_front: Option<bool>,
}

#[derive(Clone, Copy, PartialEq, Eq, Debug, Structural)]
pub enum Action {
    Move(ActionMove),
    Key(ActionKey),
}

impl Action {
    pub open spec fn due(self) -> ActionCondition {
        match self {
            Action::Move(action) => action.condition,
            Action::Key(action) => action.condition,
        }
    }

    /// Whether the action jumps ahead of the priority actions already waiting.
    pub open spec fn front(self) -> bool {
        match self {
            Action::Move(_) => false,
            Action::Key(action) => action.queue_to_front == Some(true),
        }
    }

    pub fn condition(&self) -> (condition: ActionCondition)
        ensures
            condition == self.due(),
    {
        match self {
            Action::Move(action) => action.condition,
            Action::Key(action) => action.condition,
        }
    }

    pub fn queue_to_front(&self) -> (front: bool)
        ensures
            front == self.front(),
    {
        match self {
            Action::Move(_) => false,
            Action::Key(action) => match action.queue_to_front {
                Some(front) => front,
                None => false,
            },
        }
    }
}

/// What to do when an elite boss appears.
#[derive(Clone, Copy, PartialEq, Eq, Debug, Structural)]
pub enum EliteBossBehavior {
    Nothing,
    CycleChannel,
    UseKey,
}

/// How much Sol Erda must be there for it to be exchanged into a booster.
#[derive(Clone, Copy, PartialEq, Eq, Debug, Structural)]
pub enum ExchangeHexaBoosterCondition {
    Never,
    Full,
    AtLeastOne,
}

#[derive(Clone, Copy, PartialEq, Eq, Debug, Structural)]
pub enum FamiliarRarity {
    Rare,
    Epic,
}

/// A set of familiar rarities.
#[derive(Clone, Copy, PartialEq, Eq, Debug, Structural)]
pub struct FamiliarRarities {
    pub rare: bool,
    pub epic: bool,
}

impl FamiliarRarities {
    pub open spec fn has(self, rarity: FamiliarRarity) -> bool {
        match rarity {
            FamiliarRarity::Rare => self.rare,
            FamiliarRarity::Epic => self.epic,
        }
    }

    pub fn contains(&self, rarity: FamiliarRarity) -> (res: bool)
        ensures
            res == self.has(rarity),
    {
        match rarity {
            FamiliarRarity::Rare => self.rare,
            FamiliarRarity::Epic => self.epic,
        }
    }
}

/// Which of the familiar slots may be swapped.
#[derive(Clone, Copy, PartialEq, Eq, Debug, Structural)]
pub enum SwappableFamiliars {
    All,
    Last,
    SecondAndLast,
}

#[derive(Clone, Copy, PartialEq, Eq, Debug, Structural)]
pub struct Familiars {
    pub enable_familiars_swapping: bool,
    pub swap_check_millis: u64,
    pub swappable_familiars: SwappableFamiliars,
    pub swappable_rarities: FamiliarRarities,
}

/// A rectangle of the minimap inside of which to rotate, measured from the top left corner.
#[derive(Clone, Copy, PartialEq, Eq, Debug, Structural)]
pub struct Bound {
    pub x: i32,
    pub y: i32,
    pub width: i32,
    pub height: i32,
}

/// A platform of a map, measured from the bottom left corner of the minimap.
#[derive(Clone, Copy, PartialEq, Eq, Debug, Structural)]
pub struct Platform {
    pub x_start: i32,
    pub x_end: i32,
    pub y: i32,
}

/// How the normal actions of a map take turns.
#[derive(Clone, Copy, PartialEq, Eq, Debug, Structural)]
pub enum RotationMode {
    StartToEnd,
    StartToEndThenReverse,
    AutoMobbing,
    PingPong,
}

/// Whatever an action is, its condition is the one that is configured, and only a key can be put to the
/// front.
pub proof fn law_condition_is_the_configured_one(action: Action)
    ensures
        action matches Action::Move(action_move) ==> action.due() == action_move.condition
            && !action.front(),
        action matches Action::Key(action_key) ==> action.due() == action_key.condition
            && action.front() == (action_key.queue_to_front == Some(true)),
{
}

/// Each condition is shown by its name, whatever time it has.
pub proof fn law_conditions_are_shown_by_name(millis: u64)
    ensures
        ActionCondition::Any.label() == "Any"@,
        ActionCondition::EveryMillis(millis).label() == "EveryMillis"@,
        ActionCondition::ErdaShowerOffCooldown.label() == "ErdaShowerOffCooldown"@,
        ActionCondition::Linked.label() == "Linked"@,
{
}

/// Each rarity is among the chosen ones on its own.
pub proof fn law_rarities_are_chosen_one_by_one(rarities: FamiliarRarities)
    ensures
        rarities.has(FamiliarRarity::Rare) == rarities.rare,
        rarities.has(FamiliarRarity::Epic) == rarities.epic,
{
}

} // verus!
