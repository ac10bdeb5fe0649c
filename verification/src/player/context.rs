//! What is known about the player from one tick to the next.

use vstd::prelude::*;

use crate::bridge::KeyKind;
use crate::geometry::Point;
use crate::player::actions::{Booster, PlayerAction};

verus! {

#[derive(Clone, Copy, PartialEq, Eq, Debug, Structural)]
pub enum LastMovement {
    Falling,
}

/// The four quarters of the area to mob in.
#[derive(Clone, Copy, PartialEq, Eq, Debug, Structural)]
pub enum Quadrant {
    TopLeft,
    TopRight,
    BottomRight,
    BottomLeft,
}

#[derive(Clone, Copy, PartialEq, Eq, Debug, Structural)]
pub struct PlayerConfiguration {
    pub jump_key: KeyKind,
    pub teleport_key: Option<KeyKind>,
    pub familiar_key: Option<KeyKind>,
    pub has_extended_teleport_range: bool,
    pub disable_teleport_on_fall: bool,
    /// The ticks after which a movement without progress is given up.
    pub move_timeout: u32,
    /// How far up the player can be pulled by grappling.
    pub grappling_threshold: i32,
    /// How often swapping familiars may fail before it is no longer tried.
    pub familiars_swap_fail_limit: u32,
}

#[derive(Clone, Copy, PartialEq, Eq, Debug, Structural)]
pub struct PlayerContext {
    pub config: PlayerConfiguration,
    pub last_known_pos: Option<Point>,
    pub is_stationary: bool,
    /// Whether a wait from an earlier key is still going on.
    pub stalling: bool,
    pub last_movement: Option<LastMovement>,
    pub is_dead: bool,
    pub validating_rune: bool,
    pub generic_booster_exhausted: bool,
    pub hexa_booster_exhausted: bool,
    pub familiars_swap_fail_count: u32,
    pub auto_mob_last_quadrant: Option<Quadrant>,
    pub normal_action: Option<PlayerAction>,
    pub normal_action_id: Option<u32>,
    pub priority_action: Option<PlayerAction>,
    pub priority_action_id: Option<u32>,
}

impl PlayerContext {
    /// The same player with `action` as its normal action.
    pub open spec fn with_normal(self, id: Option<u32>, action: PlayerAction) -> Self {
        PlayerContext { normal_action: Some(action), normal_action_id: id, ..self }
    }

    /// The same player with `action` as its priority action.
    pub open spec fn with_priority(self, id: Option<u32>, action: PlayerAction) -> Self {
        PlayerContext { priority_action: Some(action), priority_action_id: id, ..self }
    }

    pub open spec fn without_normal(self) -> Self {
        PlayerContext { normal_action: None, normal_action_id: None, ..self }
    }

    pub open spec fn without_priority(self) -> Self {
        PlayerContext { priority_action: None, priority_action_id: None, ..self }
    }

    /// What the player is to do now: a priority action comes before a normal one.
    pub open spec fn next(self) -> Option<PlayerAction> {
        if self.priority_action is Some {
            self.priority_action
        } else {
            self.normal_action
        }
    }

    /// Whether the action that the player carries out was injected from outside.
    pub open spec fn side_loaded(self) -> bool {
        self.priority_action is Some && self.priority_action_id is None
    }

    /// The same player without the action that it has just finished.
    pub open spec fn action_completed(self) -> Self {
        if self.priority_action is Some {
            self.without_priority()
        } else {
            self.without_normal()
        }
    }

    /// The same player after swapping familiars has succeeded or failed once more.
    pub open spec fn swap_tracked(self, success: bool) -> Self {
        PlayerContext {
            familiars_swap_fail_count: if success {
                0
            } else if self.familiars_swap_fail_count == u32::MAX {
                u32::MAX
            } else {
                (self.familiars_swap_fail_count + 1) as u32
            },
            ..self
        }
    }

    pub open spec fn swap_limit_reached(self) -> bool {
        self.familiars_swap_fail_count >= self.config.familiars_swap_fail_limit
    }

    pub open spec fn booster_exhausted(self, kind: Booster) -> bool {
        match kind {
            Booster::Generic => self.generic_booster_exhausted,
            Booster::Hexa => self.hexa_booster_exhausted,
        }
    }

    /// A player who has nothing to do and of whom nothing is known.
    pub fn new(config: PlayerConfiguration) -> (res: Self)
        ensures
            res.config == config,
            res.last_known_pos is None,
            res.last_movement is None,
            res.auto_mob_last_quadrant is None,
            !res.is_stationary && !res.stalling && !res.is_dead && !res.validating_rune,
            !res.generic_booster_exhausted && !res.hexa_booster_exhausted,
            res.familiars_swap_fail_count == 0,
            res.without_normal() == res,
            res.without_priority() == res,
    {
        PlayerContext {
            config,
            last_known_pos: None,
            is_stationary: false,
            stalling: false,
            last_movement: None,
            is_dead: false,
            validating_rune: false,
            generic_booster_exhausted: false,
            hexa_booster_exhausted: false,
            familiars_swap_fail_count: 0,
            auto_mob_last_quadrant: None,
            normal_action: None,
            normal_action_id: None,
            priority_action: None,
            priority_action_id: None,
        }
    }

    pub fn has_normal_action(&self) -> (res: bool)
        ensures
            res == self.normal_action is Some,
    {
        self.normal_action.is_some()
    }

    pub fn has_priority_action(&self) -> (res: bool)
        ensures
            res == self.priority_action is Some,
    {
        self.priority_action.is_some()
    }

    pub fn set_normal_action(&mut self, id: Option<u32>, action: PlayerAction)
        ensures
            *final(self) == old(self).with_normal(id, action),
    {
        self.normal_action = Some(action);
        self.normal_action_id = id;
    }

    pub fn set_priority_action(&mut self, id: Option<u32>, action: PlayerAction)
        ensures
            *final(self) == old(self).with_priority(id, action),
    {
        self.priority_action = Some(action);
        self.priority_action_id = id;
    }

    /// Removes the priority action and returns its id.
    pub fn take_priority_action(&mut self) -> (res: Option<u32>)
        ensures
            res == old(self).priority_action_id,
            *final(self) == old(self).without_priority(),
    {
        let previous: Option<u32> = self.priority_action_id;
        self.priority_action = None;
        self.priority_action_id = None;
        previous
    }

    pub fn reset_normal_action(&mut self)
        ensures
            *final(self) == old(self).without_normal(),
    {
        self.normal_action = None;
        self.normal_action_id = None;
    }

    /// Forgets everything that the player was to do.
    pub fn clear_actions_aborted(&mut self)
        ensures
            *final(self) == old(self).without_normal().without_priority(),
    {
        self.normal_action = None;
        self.normal_action_id = None;
        self.priority_action = None;
        self.priority_action_id = None;
    }

    /// Forgets the action that the player has just finished.
    pub fn clear_action_completed(&mut self)
        ensures
            *final(self) == old(self).action_completed(),
    {
        if self.priority_action.is_some() {
            self.priority_action = None;
            self.priority_action_id = None;
        } else {
            self.normal_action = None;
            self.normal_action_id = None;
        }
    }

    pub fn is_familiars_swap_fail_count_limit_reached(&self) -> (res: bool)
        ensures
            res == self.swap_limit_reached(),
    {
        self.familiars_swap_fail_count >= self.config.familiars_swap_fail_limit
    }

    pub fn is_booster_fail_count_limit_reached(&self, kind: Booster) -> (res: bool)
        ensures
            res == self.booster_exhausted(kind),
    {
        match kind {
            Booster::Generic => self.generic_booster_exhausted,
            Booster::Hexa => self.hexa_booster_exhausted,
        }
    }

    pub fn clear_familiars_swap_fail_count(&mut self)
        ensures
            *final(self) == old(self).swap_tracked(true),
    {
        self.familiars_swap_fail_count = 0;
    }

    pub fn track_familiars_swap_fail_count(&mut self)
        ensures
            *final(self) == old(self).swap_tracked(false),
    {
        if self.familiars_swap_fail_count < u32::MAX {
            self.familiars_swap_fail_count = self.familiars_swap_fail_count + 1;
        }
    }
}

/// What the player is to do now.
pub fn next_action(context: &PlayerContext) -> (res: Option<PlayerAction>)
    ensures
        res == context.next(),
{
    if context.priority_action.is_some() {
        context.priority_action
    } else {
        context.normal_action
    }
}

/// A priority action is carried out before a normal one. When it is done, the normal one is still
/// there, and nothing else about the player changes.
pub proof fn law_priority_action_comes_first(context: PlayerContext)
    ensures
        ({
            let done = context.action_completed();
            &&& context.next() == match context.priority_action {
                Some(action) => Some(action),
                None => context.normal_action,
            }
            &&& context.priority_action is Some ==> done.next() == context.normal_action
                && done.normal_action_id == context.normal_action_id
            &&& context.priority_action is None ==> done.next() is None
                && done.normal_action_id is None && done.priority_action_id
                == context.priority_action_id
            &&& done.priority_action is None
            &&& context.priority_action is Some ==> done.priority_action_id is None
            &&& done.config == context.config
            &&& done.last_known_pos == context.last_known_pos
            &&& done.familiars_swap_fail_count == context.familiars_swap_fail_count
            &&& done.is_dead == context.is_dead
            &&& done.validating_rune == context.validating_rune
        }),
{
}

/// An action that was handed out is the one that is there, under its id, and the other kind of action
/// is left alone. What is taken away is gone.
pub proof fn law_actions_are_set_and_taken_away(
    context: PlayerContext,
    id: Option<u32>,
    action: PlayerAction,
)
    ensures
        context.with_priority(id, action).priority_action == Some(action),
        context.with_priority(id, action).priority_action_id == id,
        context.with_priority(id, action).normal_action == context.normal_action,
        context.with_priority(id, action).normal_action_id == context.normal_action_id,
        context.with_normal(id, action).normal_action == Some(action),
        context.with_normal(id, action).normal_action_id == id,
        context.with_normal(id, action).priority_action == context.priority_action,
        context.with_normal(id, action).priority_action_id == context.priority_action_id,
        context.without_priority().priority_action is None,
        context.without_priority().priority_action_id is None,
        context.without_priority().normal_action == context.normal_action,
        context.without_priority().normal_action_id == context.normal_action_id,
        context.without_normal().normal_action is None,
        context.without_normal().normal_action_id is None,
        context.without_normal().priority_action == context.priority_action,
        context.without_normal().priority_action_id == context.priority_action_id,
{
}

/// Failing to swap familiars is counted until it succeeds, and the limit is reached as soon as the
/// count is as large.
pub proof fn law_failed_swaps_are_counted(context: PlayerContext)
    requires
        context.familiars_swap_fail_count < u32::MAX,
    ensures
        context.swap_tracked(false).familiars_swap_fail_count == context.familiars_swap_fail_count
            + 1,
        context.swap_tracked(true).familiars_swap_fail_count == 0,
        context.swap_tracked(false).normal_action == context.normal_action,
        context.swap_tracked(false).priority_action == context.priority_action,
        context.familiars_swap_fail_count + 1 == context.config.familiars_swap_fail_limit ==> {
            &&& !context.swap_limit_reached()
            &&& context.swap_tracked(false).swap_limit_reached()
        },
        context.swap_limit_reached() ==> context.swap_tracked(false).swap_limit_reached(),
{
}

/// Each kind of booster is exhausted on its own.
pub proof fn law_boosters_are_exhausted_one_by_one(context: PlayerContext)
    ensures
        context.booster_exhausted(Booster::Generic) == context.generic_booster_exhausted,
        context.booster_exhausted(Booster::Hexa) == context.hexa_booster_exhausted,
{
}

} // verus!
