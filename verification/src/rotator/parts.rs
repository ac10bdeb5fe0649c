//! What a rotator is built from.

use vstd::prelude::*;

use crate::bridge::KeyKind;
use crate::ecs::BuffKind;
use crate::models::actions::{
    Action, ActionKeyWith, EliteBossBehavior, ExchangeHexaBoosterCondition, Familiars,
};
use crate::player::actions::{Booster, ExchangeBooster, FamiliarsSwap, PlayerAction, UseBooster};
use crate::rotator::action::{
    action_at, configured, key_once, lemma_linked_run_fits, linked_run, to_channel, urgent,
    ActionMetadata, PriorityAction, RotatorAction,
};
use crate::rotator::conditions::{recurs, Condition};
use crate::rotator::model::{RotatorMode, RotatorView};
use crate::rotator::table::inserted;

verus! {

#[derive(Debug)]
pub struct RotatorBuildArgs {
    pub mode: RotatorMode,
    pub character_actions: Vec<Action>,
    pub map_actions: Vec<Action>,
    pub buffs: Vec<(BuffKind, KeyKind)>,
    pub familiars: Familiars,
    pub familiar_essence_key: KeyKind,
    pub elite_boss_behavior: EliteBossBehavior,
    pub elite_boss_behavior_key: KeyKind,
    pub hexa_booster_exchange_condition: ExchangeHexaBoosterCondition,
    pub hexa_booster_exchange_amount: u32,
    pub hexa_booster_exchange_all: bool,
    pub enable_panic_mode: bool,
    pub enable_rune_solving: bool,
    pub enable_transparent_shape_solving: bool,
    pub enable_violetta_solving: bool,
    pub enable_reset_normal_actions_on_erda: bool,
    pub enable_using_generic_booster: bool,
    pub enable_using_hexa_booster: bool,
}

/// An action that a rotator is built from.
pub enum Part {
    Priority(PriorityAction),
    Normal(RotatorAction),
}

/// The part if it is enabled, and nothing otherwise.
pub open spec fn part_if(enabled: bool, part: PriorityAction) -> Seq<Part> {
    if enabled {
        seq![Part::Priority(part)]
    } else {
        seq![]
    }
}

/// The part that the configured actions from `start` up to the next non-linked one make.
pub open spec fn part_at(mode: RotatorMode, actions: Seq<Action>, start: int) -> Seq<Part> {
    let action = actions[start];
    if recurs(action.due()) {
        seq![Part::Priority(configured(action_at(actions, start), action.due(), action.front()))]
    } else if mode is AutoMobbing {
        seq![]
    } else {
        seq![Part::Normal(action_at(actions, start))]
    }
}

/// The parts that the configured actions from `start` on make.
pub open spec fn configured_parts(mode: RotatorMode, actions: Seq<Action>, start: int) -> Seq<Part>
    decreases actions.len() - start,
{
    if 0 <= start < actions.len() {
        proof {
            lemma_linked_run_fits(actions, start + 1);
        }
        part_at(mode, actions, start) + configured_parts(
            mode,
            actions,
            start + 1 + linked_run(actions, start + 1),
        )
    } else {
        seq![]
    }
}

/// The part for each buff from `start` on.
pub open spec fn buff_parts(buffs: Seq<(BuffKind, KeyKind)>, start: int) -> Seq<Part> {
    Seq::new(
        (buffs.len() - start) as nat,
        |i: int|
            Part::Priority(
                urgent(
                    Condition::Buff(buffs[start + i].0),
                    key_once(buffs[start + i].1, ActionKeyWith::Stationary, 10, 10),
                    Some(ActionMetadata::Buff(buffs[start + i].0)),
                ),
            ),
    )
}

impl RotatorBuildArgs {
    /// The actions of the character, then those of the map.
    pub open spec fn actions(&self) -> Seq<Action> {
        self.character_actions@ + self.map_actions@
    }

    /// The first action has none before it to be linked to.
    pub open spec fn wf(&self) -> bool {
        self.actions().len() > 0 ==> !(self.actions()[0].due() is Linked)
    }

    pub open spec fn low_priority_parts(&self) -> Seq<Part> {
        part_if(
            self.enable_using_generic_booster,
            urgent(
                Condition::UseBooster(Booster::Generic),
                PlayerAction::UseBooster(UseBooster { kind: Booster::Generic }),
                Some(ActionMetadata::UseBooster),
            ),
        ) + part_if(
            self.enable_using_hexa_booster,
            urgent(
                Condition::UseBooster(Booster::Hexa),
                PlayerAction::UseBooster(UseBooster { kind: Booster::Hexa }),
                Some(ActionMetadata::UseBooster),
            ),
        ) + part_if(
            !(self.hexa_booster_exchange_condition is Never),
            urgent(
                Condition::ExchangeHexaBooster(self.hexa_booster_exchange_condition),
                PlayerAction::ExchangeBooster(
                    ExchangeBooster {
                        amount: self.hexa_booster_exchange_amount,
                        all: self.hexa_booster_exchange_all,
                    },
                ),
                None,
            ),
        ) + part_if(
            self.familiars.enable_familiars_swapping,
            urgent(
                Condition::FamiliarsSwap(self.familiars.swap_check_millis),
                PlayerAction::FamiliarsSwap(
                    FamiliarsSwap {
                        swappable_slots: self.familiars.swappable_familiars,
                        swappable_rarities: self.familiars.swappable_rarities,
                    },
                ),
                None,
            ),
        )
    }

    pub open spec fn elite_boss_parts(&self) -> Seq<Part> {
        part_if(
            self.elite_boss_behavior is CycleChannel,
            urgent(Condition::EliteBoss, to_channel(), None),
        ) + part_if(
            self.elite_boss_behavior is UseKey,
            urgent(
                Condition::EliteBoss,
                key_once(self.elite_boss_behavior_key, ActionKeyWith::Stationary, 10, 10),
                None,
            ),
        )
    }

    /// Whether the familiar buff is among the buffs to be kept up.
    pub open spec fn keeps_familiar(&self) -> bool {
        exists|i: int| 0 <= i < self.buffs@.len() && (#[trigger] self.buffs@[i]).0 is Familiar
    }

    pub open spec fn high_priority_parts(&self) -> Seq<Part> {
        part_if(
            self.enable_rune_solving,
            urgent(Condition::SolveRune, PlayerAction::SolveRune, None),
        ) + part_if(
            self.enable_transparent_shape_solving,
            urgent(Condition::SolveTransparentShape, PlayerAction::SolveShape, None),
        ) + part_if(
            self.enable_violetta_solving,
            urgent(Condition::SolveVioletta, PlayerAction::SolveVioletta, None),
        ) + self.elite_boss_parts() + part_if(
            self.enable_panic_mode,
            urgent(Condition::Panic, to_channel(), None),
        ) + part_if(
            self.keeps_familiar(),
            urgent(
                Condition::FamiliarEssence,
                key_once(self.familiar_essence_key, ActionKeyWith::Any, 5, 0),
                None,
            ),
        ) + buff_parts(self.buffs@, 0) + part_if(
            true,
            urgent(Condition::Unstuck, PlayerAction::Unstuck, None),
        )
    }

    /// All parts, in the order in which they are added.
    pub open spec fn parts(&self) -> Seq<Part> {
        self.low_priority_parts() + configured_parts(self.mode, self.actions(), 0)
            + self.high_priority_parts()
    }
}

impl RotatorView {
    /// The rotator with one more part under the next id.
    pub open spec fn added(self, part: Part) -> Self {
        let next_id = self.next_id.wrapping_add(1);
        match part {
            Part::Priority(action) => RotatorView {
                entries: inserted(self.entries, self.next_id, action),
                next_id,
                ..self
            },
            Part::Normal(action) => RotatorView {
                normal_actions: self.normal_actions.push((self.next_id, action)),
                next_id,
                ..self
            },
        }
    }

    /// The rotator with the parts added one after the other.
    pub open spec fn added_all(self, parts: Seq<Part>) -> Self
        decreases parts.len(),
    {
        if parts.len() == 0 {
            self
        } else {
            self.added_all(parts.drop_last()).added(parts.last())
        }
    }

    /// The rotator without any action.
    pub open spec fn emptied(self, args: &RotatorBuildArgs) -> Self {
        RotatorView {
            normal_actions: seq![],
            normal_rotate_mode: args.mode,
            normal_actions_reset_on_erda: args.enable_reset_normal_actions_on_erda,
            entries: seq![],
            ..self.queue_reset()
        }
    }

    /// The rotator built anew. What was injected stays.
    pub open spec fn built(self, args: &RotatorBuildArgs) -> Self {
        self.emptied(args).added_all(args.parts())
    }
}

/// Adding two runs of parts one after the other is adding them at once.
pub proof fn lemma_added_all_concat(rotator: RotatorView, a: Seq<Part>, b: Seq<Part>)
    ensures
        rotator.added_all(a + b) == rotator.added_all(a).added_all(b),
    decreases b.len(),
{
    if b.len() == 0 {
        assert(a + b =~= a);
    } else {
        assert((a + b).drop_last() =~= a + b.drop_last());
        lemma_added_all_concat(rotator, a, b.drop_last());
    }
}

} // verus!
