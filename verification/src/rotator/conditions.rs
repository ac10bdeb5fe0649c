//! When a priority action is due.

use vstd::prelude::*;

use crate::clock::Instant;
use crate::detect::{QuickSlotsHexaBooster, SolErda};
use crate::ecs::{Buff, BuffKind, Minimap, Resources, Skill, World};
use crate::models::actions::{ActionCondition, ExchangeHexaBoosterCondition};
use crate::player::actions::Booster;
use crate::task::Update;

verus! {

/// [`Condition`] evaluation result.
#[derive(Clone, Copy, PartialEq, Eq, Debug, Structural)]
pub enum ConditionResult {
    /// The action will be queued.
    Queue,
    /// The action is skipped.
    Skip,
    /// The action is skipped but `last_queued_time` is updated.
    Ignore,
}

#[derive(Clone, Copy, PartialEq, Eq, Debug, Structural)]
pub struct PriorityActionQueueInfo {
    /// Whether this action is being ignored.
    ///
    /// While ignored, [`Self::last_queued_time`] will be updated to the current time.
    /// The action is ignored for as long as it is still in the queue or the player
    /// is still executing it.
    pub ignoring: bool,
    /// The last [`Instant`] when this action was queued.
    pub last_queued_time: Option<Instant>,
}

impl Default for PriorityActionQueueInfo {
    fn default() -> (res: Self)
        ensures
            !res.ignoring,
            res.last_queued_time is None,
    {
        PriorityActionQueueInfo { ignoring: false, last_queued_time: None }
    }
}

/// Predicate for when a priority action can be queued.
#[derive(Clone, Copy, PartialEq, Eq, Debug, Structural)]
pub enum Condition {
    /// Always the same answer.
    Always(ConditionResult),
    /// The condition of a configured action.
    Fixed(ActionCondition),
    FamiliarEssence,
    /// Familiars were not swapped for so many milliseconds.
    FamiliarsSwap(u64),
    SolveRune,
    SolveTransparentShape,
    SolveVioletta,
    Buff(BuffKind),
    Panic,
    EliteBoss,
    UseBooster(Booster),
    ExchangeHexaBooster(ExchangeHexaBoosterCondition),
    Unstuck,
}

/// What a condition says before anything is detected for it.
#[derive(Clone, Copy, PartialEq, Eq, Debug, Structural)]
pub enum Gate {
    /// No detection is needed.
    Settled(ConditionResult),
    /// It depends on a detection running in the background.
    Poll,
}

/// Something to be detected in the background.
#[derive(Clone, Copy, PartialEq, Eq, Debug, Structural)]
pub enum Detection {
    FamiliarEssenceDepleted,
    LieDetectorShapePreparing,
    LieDetectorVioletta,
    EliteBossBar,
    TimerNotVisible,
    HexaBoosterExchangeable(ExchangeHexaBoosterCondition),
    EscSettings,
}

/// Whether at least `millis` milliseconds lie between `last` and `now`, or there was no `last`.
pub open spec fn passed(last: Option<Instant>, millis: u128, now: Instant) -> bool {
    match last {
        Some(last) => now.since(last).millis() >= millis,
        None => true,
    }
}

pub fn at_least_millis_passed_since(
    last_queued_time: Option<Instant>,
    millis: u128,
    now: Instant,
) -> (res: bool)
    ensures
        res == passed(last_queued_time, millis, now),
{
    match last_queued_time {
        Some(last) => now.duration_since(last).as_millis() >= millis,
        None => true,
    }
}

/// Whether an action comes back by itself, so that its condition can be waited for.
pub open spec fn recurs(condition: ActionCondition) -> bool {
    condition is EveryMillis || condition is ErdaShowerOffCooldown
}

/// Whether an action that recurs is due again.
pub open spec fn fixed_due(
    world: &World,
    last: Option<Instant>,
    condition: ActionCondition,
    now: Instant,
) -> bool {
    match condition {
        ActionCondition::EveryMillis(millis) => passed(last, millis as u128, now),
        ActionCondition::ErdaShowerOffCooldown => passed(last, 20_000, now)
            && world.erda_shower is Idle,
        _ => false,
    }
}

pub fn should_queue_fixed_action(
    world: &World,
    last_queued_time: Option<Instant>,
    condition: ActionCondition,
    now: Instant,
) -> (res: bool)
    requires
        recurs(condition),
    ensures
        res == fixed_due(world, last_queued_time, condition, now),
{
    let millis_should_passed: u128 = match condition {
        ActionCondition::EveryMillis(millis) => millis as u128,
        _ => 20_000,
    };
    if !at_least_millis_passed_since(last_queued_time, millis_should_passed, now) {
        return false;
    }
    match condition {
        ActionCondition::ErdaShowerOffCooldown => matches!(world.erda_shower, Skill::Idle),
        _ => true,
    }
}

/// Whether `kind` cannot be used while `other` is active.
pub open spec fn excludes(kind: BuffKind, other: BuffKind) -> bool {
    match kind {
        BuffKind::SmallWealthAcquisitionPotion => other == BuffKind::WealthAcquisitionPotion,
        BuffKind::WealthAcquisitionPotion => other == BuffKind::SmallWealthAcquisitionPotion,
        BuffKind::SmallExpAccumulationPotion => other == BuffKind::ExpAccumulationPotion,
        BuffKind::ExpAccumulationPotion => other == BuffKind::SmallExpAccumulationPotion,
        BuffKind::ExpCouponX2 => other == BuffKind::ExpCouponX3 || other == BuffKind::ExpCouponX4,
        BuffKind::ExpCouponX3 => other == BuffKind::ExpCouponX2 || other == BuffKind::ExpCouponX4,
        BuffKind::ExpCouponX4 => other == BuffKind::ExpCouponX3 || other == BuffKind::ExpCouponX2,
        BuffKind::BonusExpCoupon => other == BuffKind::MvpBonusExpCoupon,
        _ => false,
    }
}

/// Whether a buff is missing and no buff that excludes it is there.
pub open spec fn buff_wanted(world: &World, kind: BuffKind) -> bool {
    &&& world.buff(kind) is No
    &&& forall|other: BuffKind|
        #![trigger world.buff(other)]
        excludes(kind, other) ==> world.buff(other) is No
}

fn lacks(world: &World, kind: BuffKind) -> (res: bool)
    ensures
        res == world.buff(kind) is No,
{
    matches!(world.buff_of(kind), Buff::No)
}

pub fn is_buff_wanted(world: &World, kind: BuffKind) -> (res: bool)
    ensures
        res == buff_wanted(world, kind),
{
    let rivals_missing: bool = match kind {
        BuffKind::SmallWealthAcquisitionPotion => lacks(world, BuffKind::WealthAcquisitionPotion),
        BuffKind::WealthAcquisitionPotion => lacks(world, BuffKind::SmallWealthAcquisitionPotion),
        BuffKind::SmallExpAccumulationPotion => lacks(world, BuffKind::ExpAccumulationPotion),
        BuffKind::ExpAccumulationPotion => lacks(world, BuffKind::SmallExpAccumulationPotion),
        BuffKind::ExpCouponX2 => lacks(world, BuffKind::ExpCouponX4) && lacks(
            world,
            BuffKind::ExpCouponX3,
        ),
        BuffKind::ExpCouponX3 => lacks(world, BuffKind::ExpCouponX4) && lacks(
            world,
            BuffKind::ExpCouponX2,
        ),
        BuffKind::ExpCouponX4 => lacks(world, BuffKind::ExpCouponX2) && lacks(
            world,
            BuffKind::ExpCouponX3,
        ),
        BuffKind::BonusExpCoupon => lacks(world, BuffKind::MvpBonusExpCoupon),
        _ => true,
    };
    rivals_missing && lacks(world, kind)
}

/// Of two buffs that exclude each other in both directions, at most one is wanted while the
/// other is active.
pub proof fn law_excluded_buff_is_not_wanted(world: &World, kind: BuffKind, other: BuffKind)
    requires
        excludes(kind, other),
        !(world.buff(other) is No),
    ensures
        !buff_wanted(world, kind),
{
}

/// Whether Sol Erda is to be exchanged, from what the two detections saw.
pub open spec fn exchangeable(
    condition: ExchangeHexaBoosterCondition,
    booster: QuickSlotsHexaBooster,
    sol_erda: SolErda,
) -> bool {
    &&& booster is Unavailable
    &&& match condition {
        ExchangeHexaBoosterCondition::Never => false,
        ExchangeHexaBoosterCondition::Full => sol_erda is Full,
        ExchangeHexaBoosterCondition::AtLeastOne => sol_erda is Full || sol_erda is AtLeastOne,
    }
}

/// Whether Sol Erda is to be exchanged into a booster. Either detection may fail; how much Sol
/// Erda there is only matters where no booster is available.
pub fn should_exchange_hexa_booster(
    condition: ExchangeHexaBoosterCondition,
    booster: Option<QuickSlotsHexaBooster>,
    sol_erda: Option<SolErda>,
) -> (res: Update)
    requires
        !(condition is Never),
    ensures
        res == match (booster, sol_erda) {
            (None, _) => Update::Failed,
            (Some(QuickSlotsHexaBooster::Available), _) => Update::Answer(false),
            (Some(QuickSlotsHexaBooster::Unavailable), None) => Update::Failed,
            (Some(seen), Some(erda)) => Update::Answer(exchangeable(condition, seen, erda)),
        },
{
    match booster {
        None => Update::Failed,
        Some(QuickSlotsHexaBooster::Available) => Update::Answer(false),
        Some(QuickSlotsHexaBooster::Unavailable) => match sol_erda {
            None => Update::Failed,
            Some(sol_erda) => {
                let queue: bool = match condition {
                    ExchangeHexaBoosterCondition::Never => false,
                    ExchangeHexaBoosterCondition::Full => matches!(sol_erda, SolErda::Full),
                    ExchangeHexaBoosterCondition::AtLeastOne => matches!(
                        sol_erda,
                        SolErda::AtLeastOne | SolErda::Full
                    ),
                };
                Update::Answer(queue)
            },
        },
    }
}

impl Condition {
    /// Whether the condition can be evaluated at all.
    pub open spec fn wf(self) -> bool {
        match self {
            Condition::Fixed(condition) => recurs(condition),
            _ => true,
        }
    }

    /// What the condition says before anything is detected for it.
    pub open spec fn gate_spec(
        self,
        resources: &Resources,
        world: &World,
        last: Option<Instant>,
        now: Instant,
    ) -> Gate {
        let skip = Gate::Settled(ConditionResult::Skip);
        let ignore = Gate::Settled(ConditionResult::Ignore);
        let queue = Gate::Settled(ConditionResult::Queue);
        let context = world.player.context;
        match self {
            Condition::Always(result) => Gate::Settled(result),
            Condition::Fixed(condition) => if fixed_due(world, last, condition, now) {
                queue
            } else {
                skip
            },
            Condition::FamiliarEssence => if passed(last, 20_000, now) && world.buff(
                BuffKind::Familiar,
            ) is Yes {
                Gate::Poll
            } else {
                skip
            },
            Condition::FamiliarsSwap(millis) => if passed(last, millis as u128, now)
                && !context.swap_limit_reached() {
                queue
            } else {
                skip
            },
            Condition::SolveRune => if context.validating_rune {
                ignore
            } else if passed(last, 10_000, now) && (world.minimap.state matches Minimap::Idle(idle)
                && idle.rune is Some) && world.buff(BuffKind::Rune) is No {
                queue
            } else {
                skip
            },
            Condition::SolveTransparentShape | Condition::SolveVioletta =>
                if resources.detector is None {
                ignore
            } else {
                Gate::Poll
            },
            Condition::Buff(kind) => if passed(last, 20_000, now) && world.minimap.state is Idle
                && buff_wanted(world, kind) {
                queue
            } else {
                skip
            },
            Condition::Panic => match world.minimap.state {
                Minimap::Detecting => skip,
                Minimap::Idle(idle) => if !idle.has_any_other_player || last is None {
                    ignore
                } else if passed(last, 15_000, now) {
                    queue
                } else {
                    skip
                },
            },
            Condition::EliteBoss => if !passed(last, 15_000, now) {
                skip
            } else if resources.detector is None {
                ignore
            } else {
                Gate::Poll
            },
            Condition::UseBooster(kind) => if !passed(last, 20_000, now) {
                skip
            } else if context.booster_exhausted(kind) || resources.detector is None {
                ignore
            } else {
                Gate::Poll
            },
            Condition::ExchangeHexaBooster(_) => if passed(last, 20_000, now)
                && resources.detector is Some {
                Gate::Poll
            } else {
                skip
            },
            Condition::Unstuck => if passed(last, 3_000, now)
                && world.player.can_override_state_anywhere && resources.detector is Some
                && !context.is_dead {
                Gate::Poll
            } else {
                skip
            },
        }
    }

    /// What the condition says once its detection has reported.
    pub open spec fn settle_spec(self, update: Update) -> ConditionResult {
        match update {
            Update::Answer(true) => ConditionResult::Queue,
            Update::Pending => ConditionResult::Skip,
            Update::Answer(false) | Update::Failed => if self is Unstuck {
                ConditionResult::Skip
            } else {
                ConditionResult::Ignore
            },
        }
    }

    /// What the condition says, given what its detection reports.
    pub open spec fn verdict(
        self,
        resources: &Resources,
        world: &World,
        last: Option<Instant>,
        now: Instant,
        update: Update,
    ) -> ConditionResult {
        match self.gate_spec(resources, world, last, now) {
            Gate::Settled(result) => result,
            Gate::Poll => self.settle_spec(update),
        }
    }

    pub fn gate(
        &self,
        resources: &Resources,
        world: &World,
        last: Option<Instant>,
        now: Instant,
    ) -> (res: Gate)
        requires
            self.wf(),
        ensures
            res == self.gate_spec(resources, world, last, now),
    {
        let skip: Gate = Gate::Settled(ConditionResult::Skip);
        let ignore: Gate = Gate::Settled(ConditionResult::Ignore);
        let queue: Gate = Gate::Settled(ConditionResult::Queue);
        match *self {
            Condition::Always(result) => Gate::Settled(result),
            Condition::Fixed(condition) => {
                if should_queue_fixed_action(world, last, condition, now) {
                    queue
                } else {
                    skip
                }
            },
            Condition::FamiliarEssence => {
                if !at_least_millis_passed_since(last, 20_000, now) {
                    return skip;
                }
                if !matches!(world.buff_of(BuffKind::Familiar), Buff::Yes) {
                    return skip;
                }
                Gate::Poll
            },
            Condition::FamiliarsSwap(swap_check_millis) => {
                if !at_least_millis_passed_since(last, swap_check_millis as u128, now) {
                    return skip;
                }
                if world.player.context.is_familiars_swap_fail_count_limit_reached() {
                    return skip;
                }
                queue
            },
            Condition::SolveRune => {
                if world.player.context.validating_rune {
                    return ignore;
                }
                if !at_least_millis_passed_since(last, 10_000, now) {
                    return skip;
                }
                match world.minimap.state {
                    Minimap::Idle(idle) => if idle.rune.is_some() && lacks(world, BuffKind::Rune) {
                        queue
                    } else {
                        skip
                    },
                    Minimap::Detecting => skip,
                }
            },
            Condition::SolveTransparentShape | Condition::SolveVioletta => {
                if resources.detector.is_none() {
                    return ignore;
                }
                Gate::Poll
            },
            Condition::Buff(kind) => {
                if !at_least_millis_passed_since(last, 20_000, now) {
                    return skip;
                }
                if !matches!(world.minimap.state, Minimap::Idle(_)) {
                    return skip;
                }
                if is_buff_wanted(world, kind) {
                    queue
                } else {
                    skip
                }
            },
            Condition::Panic => match world.minimap.state {
                Minimap::Detecting => skip,
                Minimap::Idle(idle) => {
                    if !idle.has_any_other_player || last.is_none() {
                        return ignore;
                    }
                    if at_least_millis_passed_since(last, 15_000, now) {
                        queue
                    } else {
                        skip
                    }
                },
            },
            Condition::EliteBoss => {
                if !at_least_millis_passed_since(last, 15_000, now) {
                    return skip;
                }
                if resources.detector.is_none() {
                    return ignore;
                }
                Gate::Poll
            },
            Condition::UseBooster(kind) => {
                if !at_least_millis_passed_since(last, 20_000, now) {
                    return skip;
                }
                if world.player.context.is_booster_fail_count_limit_reached(kind) {
                    return ignore;
                }
                if resources.detector.is_none() {
                    return ignore;
                }
                Gate::Poll
            },
            Condition::ExchangeHexaBooster(_) => {
                if !at_least_millis_passed_since(last, 20_000, now) {
                    return skip;
                }
                if resources.detector.is_none() {
                    return skip;
                }
                Gate::Poll
            },
            Condition::Unstuck => {
                if !at_least_millis_passed_since(last, 3_000, now) {
                    return skip;
                }
                if !world.player.can_override_state_anywhere {
                    return skip;
                }
                if resources.detector.is_none() {
                    return skip;
                }
                if world.player.context.is_dead {
                    return skip;
                }
                Gate::Poll
            },
        }
    }

    pub fn settle(&self, update: Update) -> (res: ConditionResult)
        ensures
            res == self.settle_spec(update),
    {
        match update {
            Update::Answer(true) => ConditionResult::Queue,
            Update::Pending => ConditionResult::Skip,
            Update::Answer(false) | Update::Failed => if matches!(self, Condition::Unstuck) {
                ConditionResult::Skip
            } else {
                ConditionResult::Ignore
            },
        }
    }

    pub fn evaluate(
        &self,
        resources: &Resources,
        world: &World,
        last: Option<Instant>,
        now: Instant,
        update: Update,
    ) -> (res: ConditionResult)
        requires
            self.wf(),
        ensures
            res == self.verdict(resources, world, last, now, update),
    {
        match self.gate(resources, world, last, now) {
            Gate::Settled(result) => result,
            Gate::Poll => self.settle(update),
        }
    }

    /// What is to be detected for the condition and how many milliseconds apart, if anything.
    pub open spec fn detection_spec(self) -> Option<(Detection, u64)> {
        match self {
            Condition::FamiliarEssence => Some((Detection::FamiliarEssenceDepleted, 10_000)),
            Condition::SolveTransparentShape => Some((Detection::LieDetectorShapePreparing, 3_000)),
            Condition::SolveVioletta => Some((Detection::LieDetectorVioletta, 3_000)),
            Condition::EliteBoss => Some((Detection::EliteBossBar, 5_000)),
            Condition::UseBooster(_) => Some((Detection::TimerNotVisible, 10_000)),
            Condition::ExchangeHexaBooster(condition) => Some(
                (Detection::HexaBoosterExchangeable(condition), 10_000),
            ),
            Condition::Unstuck => Some((Detection::EscSettings, 3_000)),
            _ => None,
        }
    }

    pub fn detection(&self) -> (res: Option<(Detection, u64)>)
        ensures
            res == self.detection_spec(),
    {
        match *self {
            Condition::FamiliarEssence => Some((Detection::FamiliarEssenceDepleted, 10_000)),
            Condition::SolveTransparentShape => Some((Detection::LieDetectorShapePreparing, 3_000)),
            Condition::SolveVioletta => Some((Detection::LieDetectorVioletta, 3_000)),
            Condition::EliteBoss => Some((Detection::EliteBossBar, 5_000)),
            Condition::UseBooster(_) => Some((Detection::TimerNotVisible, 10_000)),
            Condition::ExchangeHexaBooster(condition) => Some(
                (Detection::HexaBoosterExchangeable(condition), 10_000),
            ),
            Condition::Unstuck => Some((Detection::EscSettings, 3_000)),
            _ => None,
        }
    }
}

/// A condition waits for a detection only where it has one to wait for.
pub proof fn law_polling_conditions_have_a_detection(
    condition: Condition,
    resources: &Resources,
    world: &World,
    last: Option<Instant>,
    now: Instant,
)
    requires
        condition.gate_spec(resources, world, last, now) is Poll,
    ensures
        condition.detection_spec() is Some,
{
}

/// Apart from actions injected by hand, solving a lie detector and giving up on other players,
/// no condition queues an action that has been queued within the last three seconds.
pub proof fn law_queued_conditions_are_spaced(
    condition: Condition,
    resources: &Resources,
    world: &World,
    last: Instant,
    now: Instant,
    update: Update,
)
    requires
        condition.verdict(resources, world, Some(last), now, update) is Queue,
        match condition {
            Condition::Always(_) => false,
            Condition::SolveTransparentShape | Condition::SolveVioletta => false,
            Condition::Fixed(ActionCondition::EveryMillis(millis)) => millis >= 3_000,
            Condition::FamiliarsSwap(millis) => millis >= 3_000,
            _ => true,
        },
    ensures
        now.since(last).millis() >= 3_000,
{
}

} // verus!
