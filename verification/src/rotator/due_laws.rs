//! When priority actions become due, and what a pass over them does.

use vstd::prelude::*;

use crate::clock::Instant;
use crate::detect::{QuickSlotsHexaBooster, SolErda};
use crate::ecs::{buff_state, Buff, BuffEntity, BuffKind, Minimap, Resources, Skill, World};
use crate::models::actions::{ActionCondition, ExchangeHexaBoosterCondition};
use crate::player::actions::Booster;
use crate::rotator::action::{ActionMetadata, PriorityAction};
use crate::rotator::conditions::{
    buff_wanted, exchangeable, Condition, ConditionResult, Detection, PriorityActionQueueInfo,
};
use crate::rotator::model::{
    erda_busy, reported, uses_booster, waits_for_erda, Observation, RotatorView,
};
use crate::rotator::table::{ids_of, lemma_lookup, lemma_lookup_updated, lookup, updated};
use crate::task::Update;

verus! {

/// Whether so many milliseconds lie between `last` and `now`, or there was no `last`.
pub open spec fn waited(last: Option<Instant>, now: Instant, millis: int) -> bool {
    match last {
        None => true,
        Some(last) => millis == 0 || last.nanos + millis * 1_000_000 <= now.nanos,
    }
}

/// The player panics only because of another player: alone on the map it never does, whatever the
/// time, and neither does it while the map is not known. With another player there, it panics once
/// there was nobody for fifteen seconds, and no sooner.
pub proof fn law_panic_needs_another_player(
    resources: &Resources,
    world: &World,
    last: Option<Instant>,
    now: Instant,
    update: Update,
)
    ensures
        ({
            let verdict = Condition::Panic.verdict(resources, world, last, now, update);
            match world.minimap.state {
                Minimap::Detecting => verdict == ConditionResult::Skip,
                Minimap::Idle(idle) => {
                    &&& !idle.has_any_other_player ==> verdict == ConditionResult::Ignore
                    &&& last is None ==> verdict == ConditionResult::Ignore
                    &&& idle.has_any_other_player && last is Some ==> verdict == if last->0.nanos
                        + 15_000_000_000 <= now.nanos {
                        ConditionResult::Queue
                    } else {
                        ConditionResult::Skip
                    }
                },
            }
        }),
{
}

/// A rune is solved exactly where one is on the map, its buff is missing, none is being validated
/// and the last attempt was ten seconds ago. While one is being validated, time starts over.
pub proof fn law_rune_is_solved_when_it_is_there(
    resources: &Resources,
    world: &World,
    last: Option<Instant>,
    now: Instant,
    update: Update,
)
    ensures
        ({
            let verdict = Condition::SolveRune.verdict(resources, world, last, now, update);
            let rune = match world.minimap.state {
                Minimap::Idle(idle) => idle.rune,
                Minimap::Detecting => None,
            };
            &&& verdict == ConditionResult::Ignore <==> world.player.context.validating_rune
            &&& verdict == ConditionResult::Queue <==> {
                &&& !world.player.context.validating_rune
                &&& rune is Some
                &&& world.buff(BuffKind::Rune) == Buff::No
                &&& waited(last, now, 10_000)
            }
        }),
{
}

/// A buff is used exactly where the map is known, the buff is missing, no other one that excludes it
/// is active and the last attempt was twenty seconds ago.
pub proof fn law_buff_is_used_when_it_is_missing(
    resources: &Resources,
    world: &World,
    kind: BuffKind,
    last: Option<Instant>,
    now: Instant,
    update: Update,
)
    ensures
        ({
            let verdict = Condition::Buff(kind).verdict(resources, world, last, now, update);
            &&& verdict != ConditionResult::Ignore
            &&& verdict == ConditionResult::Queue ==> {
                &&& world.minimap.state is Idle
                &&& world.buff(kind) == Buff::No
                &&& waited(last, now, 20_000)
            }
            &&& world.minimap.state is Idle && waited(last, now, 20_000) ==> (verdict
                == ConditionResult::Queue <==> buff_wanted(world, kind))
        }),
{
}

/// Of the potions for wealth and for experience, small and large exclude each other; so do the three
/// coupons for experience among themselves. The bonus coupon is not used along with the other one.
/// All other buffs are used whenever they are missing.
pub proof fn law_buffs_that_exclude_each_other(world: &World)
    ensures
        ({
            let lacks = |kind: BuffKind| world.buff(kind) == Buff::No;
            let wealth = lacks(BuffKind::WealthAcquisitionPotion) && lacks(
                BuffKind::SmallWealthAcquisitionPotion,
            );
            let exp = lacks(BuffKind::ExpAccumulationPotion) && lacks(
                BuffKind::SmallExpAccumulationPotion,
            );
            let coupons = lacks(BuffKind::ExpCouponX2) && lacks(BuffKind::ExpCouponX3) && lacks(
                BuffKind::ExpCouponX4,
            );
            &&& buff_wanted(world, BuffKind::WealthAcquisitionPotion) == wealth
            &&& buff_wanted(world, BuffKind::SmallWealthAcquisitionPotion) == wealth
            &&& buff_wanted(world, BuffKind::ExpAccumulationPotion) == exp
            &&& buff_wanted(world, BuffKind::SmallExpAccumulationPotion) == exp
            &&& buff_wanted(world, BuffKind::ExpCouponX2) == coupons
            &&& buff_wanted(world, BuffKind::ExpCouponX3) == coupons
            &&& buff_wanted(world, BuffKind::ExpCouponX4) == coupons
            &&& buff_wanted(world, BuffKind::BonusExpCoupon) == (lacks(BuffKind::BonusExpCoupon)
                && lacks(BuffKind::MvpBonusExpCoupon))
            &&& buff_wanted(world, BuffKind::MvpBonusExpCoupon) == lacks(
                BuffKind::MvpBonusExpCoupon,
            )
            &&& buff_wanted(world, BuffKind::Rune) == lacks(BuffKind::Rune)
            &&& buff_wanted(world, BuffKind::Familiar) == lacks(BuffKind::Familiar)
            &&& forall|n: u32|
                buff_wanted(world, BuffKind::Independent(n)) == #[trigger] lacks(
                    BuffKind::Independent(n),
                )
        }),
{
    assert(world.buff(BuffKind::WealthAcquisitionPotion) == world.buff(
        BuffKind::WealthAcquisitionPotion,
    ));
}

/// What a configured action waits for: its own time, or twenty seconds and Erda Shower ready to be
/// used. Time never starts over for it.
pub proof fn law_configured_action_waits_for_its_time(
    resources: &Resources,
    world: &World,
    millis: u64,
    last: Option<Instant>,
    now: Instant,
    update: Update,
)
    ensures
        Condition::Fixed(ActionCondition::EveryMillis(millis)).verdict(
            resources,
            world,
            last,
            now,
            update,
        ) == if waited(last, now, millis as int) {
            ConditionResult::Queue
        } else {
            ConditionResult::Skip
        },
        Condition::Fixed(ActionCondition::ErdaShowerOffCooldown).verdict(
            resources,
            world,
            last,
            now,
            update,
        ) == if waited(last, now, 20_000) && world.erda_shower == Skill::Idle {
            ConditionResult::Queue
        } else {
            ConditionResult::Skip
        },
{
}

/// Familiars are swapped each time that so many milliseconds have passed, until swapping them has
/// failed too often.
pub proof fn law_familiars_are_swapped_until_it_fails(
    resources: &Resources,
    world: &World,
    millis: u64,
    last: Option<Instant>,
    now: Instant,
    update: Update,
)
    ensures
        ({
            let context = world.player.context;
            Condition::FamiliarsSwap(millis).verdict(resources, world, last, now, update) == if waited(
                last,
                now,
                millis as int,
            ) && context.familiars_swap_fail_count < context.config.familiars_swap_fail_limit {
                ConditionResult::Queue
            } else {
                ConditionResult::Skip
            }
        }),
{
}

/// Nothing that has to be seen is done before it is seen: what depends on a detection is queued only
/// in a tick in which the detection says so, and never while that is still running. Where the
/// detection says no or fails, time starts over, except for a player that is stuck.
pub proof fn law_seen_before_it_is_done(
    condition: Condition,
    resources: &Resources,
    world: &World,
    last: Option<Instant>,
    now: Instant,
    update: Update,
)
    requires
        match condition {
            Condition::FamiliarEssence | Condition::SolveTransparentShape => true,
            Condition::SolveVioletta | Condition::EliteBoss | Condition::UseBooster(_) => true,
            Condition::ExchangeHexaBooster(_) | Condition::Unstuck => true,
            _ => false,
        },
    ensures
        ({
            let verdict = condition.verdict(resources, world, last, now, update);
            let seen = condition.verdict(resources, world, last, now, Update::Answer(true));
            &&& verdict == ConditionResult::Queue <==> update == Update::Answer(true) && seen
                == ConditionResult::Queue
            &&& seen == ConditionResult::Queue && update == Update::Pending ==> verdict
                == ConditionResult::Skip
            &&& seen == ConditionResult::Queue && (update == Update::Answer(false) || update
                == Update::Failed) ==> verdict == if condition == Condition::Unstuck {
                ConditionResult::Skip
            } else {
                ConditionResult::Ignore
            }
            &&& seen != ConditionResult::Queue ==> verdict == seen
        }),
{
}

/// What has to hold, besides what is seen, for what depends on a detection. A puzzle is solved
/// whenever it is seen, whatever was queued when. Familiar essence is refilled only while the
/// familiars are there; a booster is not used any more once it has failed too often; and a player is
/// freed only where its state may be replaced and it is not dead.
pub proof fn law_what_has_to_hold_besides(
    resources: &Resources,
    world: &World,
    booster: Booster,
    exchange: ExchangeHexaBoosterCondition,
    last: Option<Instant>,
    now: Instant,
)
    ensures
        ({
            let says = |condition: Condition|
                condition.verdict(resources, world, last, now, Update::Answer(true));
            let context = world.player.context;
            let frame = resources.detector is Some;
            let exhausted = match booster {
                Booster::Generic => context.generic_booster_exhausted,
                Booster::Hexa => context.hexa_booster_exhausted,
            };
            let due = |when: bool|
                if when {
                    ConditionResult::Queue
                } else {
                    ConditionResult::Skip
                };
            let due_or_ignored = |when: bool|
                if when {
                    ConditionResult::Queue
                } else {
                    ConditionResult::Ignore
                };
            &&& says(Condition::SolveTransparentShape) == due_or_ignored(frame)
            &&& says(Condition::SolveVioletta) == due_or_ignored(frame)
            &&& says(Condition::FamiliarEssence) == due(
                waited(last, now, 20_000) && world.buff(BuffKind::Familiar) == Buff::Yes,
            )
            &&& says(Condition::EliteBoss) == if waited(last, now, 15_000) {
                due_or_ignored(frame)
            } else {
                ConditionResult::Skip
            }
            &&& says(Condition::UseBooster(booster)) == if waited(last, now, 20_000) {
                due_or_ignored(frame && !exhausted)
            } else {
                ConditionResult::Skip
            }
            &&& says(Condition::ExchangeHexaBooster(exchange)) == due(
                frame && waited(last, now, 20_000),
            )
            &&& says(Condition::Unstuck) == due(
                frame && waited(last, now, 3_000) && world.player.can_override_state_anywhere
                    && !context.is_dead,
            )
        }),
{
}

/// Each condition that depends on a detection asks for its own, and the others for none.
pub proof fn law_conditions_ask_for_what_they_depend_on(condition: Condition)
    ensures
        match condition.detection_spec() {
            Some((Detection::FamiliarEssenceDepleted, millis)) => condition
                == Condition::FamiliarEssence && millis == 10_000,
            Some((Detection::LieDetectorShapePreparing, millis)) => condition
                == Condition::SolveTransparentShape && millis == 3_000,
            Some((Detection::LieDetectorVioletta, millis)) => condition == Condition::SolveVioletta
                && millis == 3_000,
            Some((Detection::EliteBossBar, millis)) => condition == Condition::EliteBoss && millis
                == 5_000,
            Some((Detection::TimerNotVisible, millis)) => condition is UseBooster && millis
                == 10_000,
            Some((Detection::HexaBoosterExchangeable(exchange), millis)) => condition
                == Condition::ExchangeHexaBooster(exchange) && millis == 10_000,
            Some((Detection::EscSettings, millis)) => condition == Condition::Unstuck && millis
                == 3_000,
            None => condition is Always || condition is Fixed || condition is FamiliarsSwap
                || condition is SolveRune || condition is Buff || condition is Panic,
        },
{
}

/// What is due stays due: as long as nothing else changes, time alone never takes back a queuing.
pub proof fn law_due_conditions_stay_due(
    condition: Condition,
    resources: &Resources,
    world: &World,
    last: Option<Instant>,
    now: Instant,
    later: Instant,
    update: Update,
)
    requires
        now.nanos <= later.nanos,
        condition.verdict(resources, world, last, now, update) == ConditionResult::Queue,
    ensures
        condition.verdict(resources, world, last, later, update) == ConditionResult::Queue,
{
}

/// The first entity of a kind tells whether a buff is there. Without one it is not.
pub proof fn law_buff_is_told_by_its_first_entity(world: &World, kind: BuffKind)
    ensures
        match world.buff(kind) {
            Buff::No => true,
            state => exists|i: int|
                #![trigger world.buffs@[i]]
                0 <= i < world.buffs@.len() && world.buffs@[i].kind == kind && world.buffs@[i].state
                    == state && forall|j: int| 0 <= j < i ==> (#[trigger] world.buffs@[j]).kind
                    != kind,
        },
        world.buff(kind) == Buff::No ==> forall|i: int|
            #![trigger world.buffs@[i]]
            0 <= i < world.buffs@.len() && world.buffs@[i].kind == kind && (forall|j: int|
                0 <= j < i ==> (#[trigger] world.buffs@[j]).kind != kind)
                ==> world.buffs@[i].state == Buff::No,
{
    lemma_buff(world.buffs@, kind);
}

proof fn lemma_buff(buffs: Seq<BuffEntity>, kind: BuffKind)
    ensures
        (forall|i: int| 0 <= i < buffs.len() ==> (#[trigger] buffs[i]).kind != kind)
            ==> buff_state(buffs, kind) == Buff::No,
        (exists|i: int| 0 <= i < buffs.len() && (#[trigger] buffs[i]).kind == kind) ==> exists|i: int|
            #![trigger buffs[i]]
            0 <= i < buffs.len() && buffs[i].kind == kind && buffs[i].state
                == buff_state(buffs, kind) && forall|j: int|
                0 <= j < i ==> (#[trigger] buffs[j]).kind != kind,
    decreases buffs.len(),
{
    if buffs.len() > 0 && buffs[0].kind != kind {
        let rest = buffs.drop_first();
        lemma_buff(rest, kind);
        if exists|i: int| 0 <= i < buffs.len() && (#[trigger] buffs[i]).kind == kind {
            let i = choose|i: int| 0 <= i < buffs.len() && (#[trigger] buffs[i]).kind == kind;
            assert(rest[i - 1].kind == kind);
            let k = choose|k: int|
                #![trigger rest[k]]
                0 <= k < rest.len() && rest[k].kind == kind && rest[k].state
                    == buff_state(rest, kind) && forall|j: int|
                    0 <= j < k ==> (#[trigger] rest[j]).kind != kind;
            assert(buffs[k + 1].kind == kind);
            assert forall|j: int| 0 <= j < k + 1 implies (#[trigger] buffs[j]).kind != kind by {
                if j > 0 {
                    assert(rest[j - 1].kind != kind);
                }
            }
        } else {
            assert forall|i: int| 0 <= i < rest.len() implies (#[trigger] rest[i]).kind != kind by {
                assert(buffs[i + 1].kind != kind);
            }
        }
    } else if buffs.len() > 0 {
        assert(buffs[0].kind == kind);
    }
}

/// Sol Erda is exchanged only where no booster is left: when it is full, or already with the first
/// one, as configured.
pub proof fn law_exchange_needs_erda_and_no_booster(
    booster: QuickSlotsHexaBooster,
    sol_erda: SolErda,
)
    ensures
        exchangeable(ExchangeHexaBoosterCondition::Full, booster, sol_erda) <==> booster
            == QuickSlotsHexaBooster::Unavailable && sol_erda
            == SolErda::Full,
        exchangeable(ExchangeHexaBoosterCondition::AtLeastOne, booster, sol_erda) <==> booster
            == QuickSlotsHexaBooster::Unavailable && (sol_erda
            == SolErda::Full || sol_erda == SolErda::AtLeastOne),
        !exchangeable(ExchangeHexaBoosterCondition::Never, booster, sol_erda),
{
}

/// Whether the condition of a priority action says that it is to be queued.
pub open spec fn says_queue(
    action: PriorityAction,
    resources: &Resources,
    world: &World,
    observed: &Observation,
    id: u32,
) -> bool {
    action.condition.verdict(
        resources,
        world,
        action.queue_info.last_queued_time,
        observed.now,
        reported(observed.updates@, id),
    ) == ConditionResult::Queue
}

/// Whether an action waits for Erda Shower.
pub open spec fn erda_kind(rotator: RotatorView, id: u32) -> bool {
    lookup(rotator.entries, id) matches Some(action) && action.condition_kind == Some(
        ActionCondition::ErdaShowerOffCooldown,
    )
}

/// Whether an action came to the queue with good reason: its condition says so, and it neither waits
/// nor is carried out already.
pub open spec fn came_due(
    rotator: RotatorView,
    resources: &Resources,
    world: &World,
    observed: &Observation,
    id: u32,
    to_front: bool,
) -> bool {
    &&& lookup(rotator.entries, id) matches Some(action)
    &&& action.queue_to_front == to_front
    &&& says_queue(action, resources, world, observed, id)
    &&& world.player.context.priority_action_id != Some(id)
    &&& !rotator.queue.contains(id)
}

proof fn lemma_untouched(
    rotator: RotatorView,
    resources: &Resources,
    world: &World,
    observed: &Observation,
    count: nat,
    id: u32,
)
    requires
        count <= rotator.entries.len(),
        forall|j: int| 0 <= j < count ==> #[trigger] ids_of(rotator.entries)[j] != id,
    ensures
        lookup(rotator.passed(resources, world, observed, count).0.entries, id) == lookup(
            rotator.entries,
            id,
        ),
    decreases count,
{
    if count > 0 {
        let before = rotator.passed(resources, world, observed, (count - 1) as nat).0;
        let after = rotator.passed(resources, world, observed, count).0;
        let other = ids_of(rotator.entries)[count - 1];
        lemma_untouched(rotator, resources, world, observed, (count - 1) as nat, id);
        assert(other != id);
        if let Some(action) = lookup(before.entries, other) {
            let info = choose|info: PriorityActionQueueInfo|
                after.entries == updated(
                    before.entries,
                    other,
                    #[trigger] action.with_info(info),
                );
            lemma_lookup_updated(before.entries, other, action.with_info(info), id);
        }
    }
}

proof fn lemma_contains_concat(a: Seq<u32>, b: Seq<u32>, c: Seq<u32>, x: u32)
    ensures
        (a + b + c).contains(x) <==> a.contains(x) || b.contains(x) || c.contains(x),
{
    let all = a + b + c;
    if all.contains(x) {
        let i = choose|i: int| 0 <= i < all.len() && all[i] == x;
        if i < a.len() {
            assert(a[i] == x);
        } else if i < a.len() + b.len() {
            assert(b[i - a.len()] == x);
        } else {
            assert(c[i - a.len() - b.len()] == x);
        }
    }
    if a.contains(x) {
        let i = choose|i: int| 0 <= i < a.len() && a[i] == x;
        assert(all[i] == x);
    }
    if b.contains(x) {
        let i = choose|i: int| 0 <= i < b.len() && b[i] == x;
        assert(all[a.len() + i] == x);
    }
    if c.contains(x) {
        let i = choose|i: int| 0 <= i < c.len() && c[i] == x;
        assert(all[a.len() + b.len() + i] == x);
    }
}

/// What a pass over the first `count` actions puts in front of the queue and behind it.
proof fn lemma_pass(
    rotator: RotatorView,
    resources: &Resources,
    world: &World,
    observed: &Observation,
    count: nat,
) -> (res: (Seq<u32>, Seq<u32>))
    requires
        rotator.wf(),
        count <= rotator.entries.len(),
    ensures
        rotator.passed(resources, world, observed, count).0.queue =~= res.0 + rotator.queue + res.1,
        forall|x: u32| #[trigger]
            res.0.contains(x) ==> came_due(rotator, resources, world, observed, x, true)
                && ids_of(rotator.entries).take(count as int).contains(x),
        forall|x: u32| #[trigger]
            res.1.contains(x) ==> came_due(rotator, resources, world, observed, x, false)
                && ids_of(rotator.entries).take(count as int).contains(x),
        rotator.passed(resources, world, observed, count).1 <==> (exists|x: u32|
            #![trigger erda_kind(rotator, x)]
            (res.0.contains(x) || res.1.contains(x)) && erda_kind(rotator, x)),
        rotator.passed(resources, world, observed, count).0 == (RotatorView {
            entries: rotator.passed(resources, world, observed, count).0.entries,
            queue: rotator.passed(resources, world, observed, count).0.queue,
            ..rotator
        }),
    decreases count,
{
    if count == 0 {
        assert(seq![] + rotator.queue + seq![] =~= rotator.queue);
        (seq![], seq![])
    } else {
        let last = (count - 1) as nat;
        let (fronts, backs) = lemma_pass(rotator, resources, world, observed, last);
        let ids = ids_of(rotator.entries);
        let before = rotator.passed(resources, world, observed, last).0;
        let after = rotator.passed(resources, world, observed, count).0;
        let id = ids[count - 1];
        let context = world.player.context;
        let has_erda = erda_busy(rotator.entries, rotator.queue, context);
        lemma_untouched(rotator, resources, world, observed, last, id);
        assert(ids.take(count as int)[count - 1] == id);
        assert(forall|x: u32| #[trigger]
            ids.take(last as int).contains(x) ==> ids.take(count as int).contains(x)) by {
            assert forall|x: u32| #[trigger] ids.take(last as int).contains(x) implies ids.take(
                count as int,
            ).contains(x) by {
                let j = choose|j: int| 0 <= j < last && ids.take(last as int)[j] == x;
                assert(ids.take(count as int)[j] == x);
            }
        }
        if before.chosen(resources, world, observed, has_erda, id) {
            let action = lookup(rotator.entries, id)->0;
            lemma_contains_concat(fronts, rotator.queue, backs, id);
            if rotator.queue.contains(id) {
                let j = choose|j: int| 0 <= j < rotator.queue.len() && rotator.queue[j] == id;
                assert(waits_for_erda(rotator.entries, rotator.queue[j])
                    == action.waits_for_erda());
            }
            assert(came_due(rotator, resources, world, observed, id, action.queue_to_front));
            assert(erda_kind(rotator, id) == waits_for_erda(
                before.entries,
                id,
            ));
            let res = if action.queue_to_front {
                (seq![id] + fronts, backs)
            } else {
                (fronts, backs.push(id))
            };
            assert(after.queue =~= res.0 + rotator.queue + res.1);
            assert forall|x: u32| #[trigger] res.0.contains(x) implies x == id && action.queue_to_front
                || fronts.contains(x) by {
                let j = choose|j: int| 0 <= j < res.0.len() && res.0[j] == x;
                if action.queue_to_front && j > 0 {
                    assert(fronts[j - 1] == x);
                }
            }
            assert forall|x: u32| #[trigger] res.1.contains(x) implies x == id
                && !action.queue_to_front || backs.contains(x) by {
                let j = choose|j: int| 0 <= j < res.1.len() && res.1[j] == x;
                if j < backs.len() {
                    assert(backs[j] == x);
                }
            }
            assert(res.0.contains(id) || res.1.contains(id)) by {
                if action.queue_to_front {
                    assert(res.0[0] == id);
                } else {
                    assert(res.1[backs.len() as int] == id);
                }
            }
            assert forall|x: u32| #[trigger] fronts.contains(x) implies res.0.contains(x) by {
                let j = choose|j: int| 0 <= j < fronts.len() && fronts[j] == x;
                if action.queue_to_front {
                    assert(res.0[j + 1] == x);
                }
            }
            assert forall|x: u32| #[trigger] backs.contains(x) implies res.1.contains(x) by {
                let j = choose|j: int| 0 <= j < backs.len() && backs[j] == x;
                assert(res.1[j] == x);
            }
            res
        } else {
            assert(after.queue == before.queue);
            (fronts, backs)
        }
    }
}

/// A pass over the priority actions queues nothing that is not due: what it puts in front of the
/// queue are actions to be queued to the front, what it puts behind it are the others, and each of
/// them is told so by its condition while it neither waits nor is carried out. Whatever was waiting
/// before still waits, in the same order.
pub proof fn law_only_due_actions_are_queued(
    rotator: RotatorView,
    resources: &Resources,
    world: &World,
    observed: &Observation,
) -> (res: (Seq<u32>, Seq<u32>))
    requires
        rotator.wf(),
    ensures
        rotator.priority_rotated(resources, world, observed).0.queue =~= res.0 + rotator.queue
            + res.1,
        forall|i: int|
            0 <= i < res.0.len() ==> came_due(
                rotator,
                resources,
                world,
                observed,
                #[trigger] res.0[i],
                true,
            ),
        forall|i: int|
            0 <= i < res.1.len() ==> came_due(
                rotator,
                resources,
                world,
                observed,
                #[trigger] res.1[i],
                false,
            ),
{
    let res = lemma_pass(rotator, resources, world, observed, rotator.entries.len());
    assert forall|i: int| 0 <= i < res.0.len() implies came_due(
        rotator,
        resources,
        world,
        observed,
        #[trigger] res.0[i],
        true,
    ) by {
        assert(res.0.contains(res.0[i]));
    }
    assert forall|i: int| 0 <= i < res.1.len() implies came_due(
        rotator,
        resources,
        world,
        observed,
        #[trigger] res.1[i],
        false,
    ) by {
        assert(res.1.contains(res.1[i]));
    }
    res
}

/// Only where an action that waits for Erda Shower is queued, and only where that is configured, the
/// normal actions start over, and the player forgets the one it has. Apart from that a pass leaves
/// the player and the normal actions alone.
pub proof fn law_erda_starts_normal_actions_over(
    rotator: RotatorView,
    resources: &Resources,
    world: &World,
    observed: &Observation,
)
    requires
        rotator.wf(),
    ensures
        ({
            let (after, context) = rotator.priority_rotated(resources, world, observed);
            let before = world.player.context;
            let queued_erda = exists|x: u32|
                #![trigger erda_kind(rotator, x)]
                erda_kind(rotator, x) && after.queue.contains(x) && !rotator.queue.contains(x);
            &&& after.normal_actions == rotator.normal_actions
            &&& after.side_queue == rotator.side_queue
            &&& after.priority_queuing_linked_action == rotator.priority_queuing_linked_action
            &&& if queued_erda && rotator.normal_actions_reset_on_erda {
                &&& after.normal_index == 0
                &&& after.normal_queuing_linked_action is None
                &&& context.normal_action is None
                &&& context.normal_action_id is None
                &&& context.priority_action == before.priority_action
                &&& context.priority_action_id == before.priority_action_id
            } else {
                &&& after.normal_index == rotator.normal_index
                &&& after.normal_queuing_linked_action == rotator.normal_queuing_linked_action
                &&& context == before
            }
        }),
{
    let (fronts, backs) = lemma_pass(rotator, resources, world, observed, rotator.entries.len());
    let after = rotator.priority_rotated(resources, world, observed).0;
    assert forall|x: u32| #[trigger] erda_kind(rotator, x) implies (after.queue.contains(x)
        && !rotator.queue.contains(x) <==> fronts.contains(x) || backs.contains(x)) by {
        lemma_contains_concat(fronts, rotator.queue, backs, x);
    }
}

proof fn lemma_stays_queued(
    rotator: RotatorView,
    resources: &Resources,
    world: &World,
    observed: &Observation,
    from: nat,
    count: nat,
    id: u32,
)
    requires
        from <= count,
        rotator.passed(resources, world, observed, from).0.queue.contains(id),
    ensures
        rotator.passed(resources, world, observed, count).0.queue.contains(id),
    decreases count - from,
{
    if from < count {
        lemma_stays_queued(rotator, resources, world, observed, from, (count - 1) as nat, id);
        let before = rotator.passed(resources, world, observed, (count - 1) as nat).0.queue;
        let after = rotator.passed(resources, world, observed, count).0.queue;
        let j = choose|j: int| 0 <= j < before.len() && before[j] == id;
        if after.len() > before.len() {
            assert(after[j] == id || after[j + 1] == id);
        }
    }
}

/// An action that is due is queued, unless it waits or is carried out already, uses a booster, or
/// waits for Erda Shower while another such action waits or is carried out.
pub proof fn law_due_actions_are_queued(
    rotator: RotatorView,
    resources: &Resources,
    world: &World,
    observed: &Observation,
    id: u32,
)
    requires
        rotator.wf(),
        lookup(rotator.entries, id) matches Some(action) && says_queue(
            action,
            resources,
            world,
            observed,
            id,
        ) && action.metadata != Some(ActionMetadata::UseBooster),
        world.player.context.priority_action_id != Some(id),
        rotator.priority_queuing_linked_action matches Some((queuing, _)) ==> queuing != id,
        !rotator.queue.contains(id),
        erda_kind(rotator, id) ==> {
            &&& world.player.context.priority_action_id matches Some(other) ==> !erda_kind(
                rotator,
                other,
            )
            &&& forall|i: int|
                0 <= i < rotator.queue.len() ==> !erda_kind(rotator, #[trigger] rotator.queue[i])
        },
    ensures
        rotator.priority_rotated(resources, world, observed).0.queue.contains(id),
{
    let ids = ids_of(rotator.entries);
    lemma_lookup(rotator.entries, id);
    let action = lookup(rotator.entries, id)->0;
    let k = choose|k: int|
        0 <= k < rotator.entries.len() && #[trigger] rotator.entries[k] == (id, action);
    assert(ids[k] == id);
    let (fronts, backs) = lemma_pass(rotator, resources, world, observed, k as nat);
    lemma_contains_concat(fronts, rotator.queue, backs, id);
    assert(!ids.take(k).contains(id)) by {
        if ids.take(k).contains(id) {
            let j = choose|j: int| 0 <= j < k && ids.take(k)[j] == id;
            assert(ids[j] == ids[k]);
        }
    }
    lemma_untouched(rotator, resources, world, observed, k as nat, id);
    let before = rotator.passed(resources, world, observed, k as nat).0;
    let after = rotator.passed(resources, world, observed, (k + 1) as nat).0;
    let context = world.player.context;
    let has_erda = erda_busy(rotator.entries, rotator.queue, context);
    if action.waits_for_erda() {
        assert(erda_kind(rotator, id));
        assert(!has_erda) by {
            assert forall|i: int| 0 <= i < rotator.queue.len() implies !waits_for_erda(
                rotator.entries,
                #[trigger] rotator.queue[i],
            ) by {
                assert(!erda_kind(rotator, rotator.queue[i]));
            }
        }
    }
    assert(before.chosen(resources, world, observed, has_erda, id));
    if action.queue_to_front {
        assert(after.queue[0] == id);
    } else {
        assert(after.queue[before.queue.len() as int] == id);
    }
    lemma_stays_queued(
        rotator,
        resources,
        world,
        observed,
        (k + 1) as nat,
        rotator.entries.len(),
        id,
    );
}

/// Boosters are used one at a time: one that is due is queued only where no other one waits or is
/// carried out, and then it is.
pub proof fn law_due_booster_waits_for_others(
    rotator: RotatorView,
    resources: &Resources,
    world: &World,
    observed: &Observation,
    has_erda: bool,
    id: u32,
)
    requires
        lookup(rotator.entries, id) matches Some(action) && says_queue(
            action,
            resources,
            world,
            observed,
            id,
        ) && action.metadata == Some(ActionMetadata::UseBooster) && !erda_kind(rotator, id),
        world.player.context.priority_action_id != Some(id),
        rotator.priority_queuing_linked_action matches Some((queuing, _)) ==> queuing != id,
        !rotator.queue.contains(id),
    ensures
        ({
            let after = rotator.visited(resources, world, observed, has_erda, id);
            let boosts = |other: u32|
                lookup(rotator.entries, other) matches Some(action) && action.metadata == Some(
                    ActionMetadata::UseBooster,
                );
            let another = (world.player.context.priority_action_id matches Some(other) && boosts(
                other,
            )) || exists|i: int| 0 <= i < rotator.queue.len() && boosts(#[trigger] rotator.queue[i]);
            after.queue.contains(id) <==> !another
        }),
{
    let after = rotator.visited(resources, world, observed, has_erda, id);
    let action = lookup(rotator.entries, id)->0;
    if rotator.chosen(resources, world, observed, has_erda, id) {
        if action.queue_to_front {
            assert(after.queue[0] == id);
        } else {
            assert(after.queue[rotator.queue.len() as int] == id);
        }
        assert forall|i: int| 0 <= i < rotator.queue.len() implies !(lookup(
            rotator.entries,
            #[trigger] rotator.queue[i],
        ) matches Some(action) && action.metadata == Some(ActionMetadata::UseBooster)) by {
            assert(!uses_booster(rotator.entries, rotator.queue[i]));
        }
    } else {
        assert(after.queue == rotator.queue);
        if exists|i: int|
            0 <= i < rotator.queue.len() && uses_booster(
                rotator.entries,
                #[trigger] rotator.queue[i],
            ) {
            let i = choose|i: int|
                0 <= i < rotator.queue.len() && uses_booster(
                    rotator.entries,
                    #[trigger] rotator.queue[i],
                );
            assert(lookup(rotator.entries, rotator.queue[i]) is Some);
        }
    }
}

proof fn lemma_untouched_from(
    rotator: RotatorView,
    resources: &Resources,
    world: &World,
    observed: &Observation,
    from: nat,
    count: nat,
    id: u32,
)
    requires
        from <= count <= rotator.entries.len(),
        forall|j: int| from <= j < count ==> #[trigger] ids_of(rotator.entries)[j] != id,
    ensures
        lookup(rotator.passed(resources, world, observed, count).0.entries, id) == lookup(
            rotator.passed(resources, world, observed, from).0.entries,
            id,
        ),
    decreases count - from,
{
    if from < count {
        let before = rotator.passed(resources, world, observed, (count - 1) as nat).0;
        let after = rotator.passed(resources, world, observed, count).0;
        let other = ids_of(rotator.entries)[count - 1];
        lemma_untouched_from(rotator, resources, world, observed, from, (count - 1) as nat, id);
        assert(other != id);
        if let Some(action) = lookup(before.entries, other) {
            let info = choose|info: PriorityActionQueueInfo|
                after.entries == updated(before.entries, other, #[trigger] action.with_info(info));
            lemma_lookup_updated(before.entries, other, action.with_info(info), id);
        }
    }
}

/// Time starts over for each action that waits, is carried out or is told to by its condition; for
/// one that is skipped it goes on. Nothing else of an action ever changes.
pub proof fn law_time_starts_over_where_it_should(
    rotator: RotatorView,
    resources: &Resources,
    world: &World,
    observed: &Observation,
    id: u32,
)
    requires
        rotator.wf(),
        lookup(rotator.entries, id) is Some,
    ensures
        ({
            let action = lookup(rotator.entries, id)->0;
            let context = world.player.context;
            let after = rotator.priority_rotated(resources, world, observed).0;
            let verdict = action.condition.verdict(
                resources,
                world,
                action.queue_info.last_queued_time,
                observed.now,
                reported(observed.updates@, id),
            );
            let linked = (rotator.priority_queuing_linked_action matches Some((queuing, _))
                && queuing == id) || (context.priority_action_id == Some(id)
                && action.inner is Linked);
            let busy = if erda_kind(rotator, id) {
                linked || (context.priority_action_id matches Some(other) && erda_kind(
                    rotator,
                    other,
                )) || exists|i: int|
                    0 <= i < rotator.queue.len() && erda_kind(rotator, #[trigger] rotator.queue[i])
            } else {
                linked || context.priority_action_id == Some(id) || rotator.queue.contains(id)
            };
            &&& lookup(after.entries, id) matches Some(now)
            &&& now.queue_info.ignoring == busy
            &&& now.queue_info.last_queued_time == if busy || verdict != ConditionResult::Skip {
                Some(observed.now)
            } else {
                action.queue_info.last_queued_time
            }
            &&& now == (PriorityAction { queue_info: now.queue_info, ..action })
        }),
{
    let ids = ids_of(rotator.entries);
    lemma_lookup(rotator.entries, id);
    let action = lookup(rotator.entries, id)->0;
    let k = choose|k: int|
        0 <= k < rotator.entries.len() && #[trigger] rotator.entries[k] == (id, action);
    assert(ids[k] == id);
    let (fronts, backs) = lemma_pass(rotator, resources, world, observed, k as nat);
    lemma_contains_concat(fronts, rotator.queue, backs, id);
    assert(!ids.take(k).contains(id)) by {
        if ids.take(k).contains(id) {
            let j = choose|j: int| 0 <= j < k && ids.take(k)[j] == id;
            assert(ids[j] == ids[k]);
        }
    }
    lemma_untouched(rotator, resources, world, observed, k as nat, id);
    let before = rotator.passed(resources, world, observed, k as nat).0;
    let after = rotator.passed(resources, world, observed, (k + 1) as nat).0;
    let info = choose|info: PriorityActionQueueInfo|
        after.entries == updated(before.entries, id, #[trigger] action.with_info(info));
    lemma_lookup_updated(before.entries, id, action.with_info(info), id);
    let context = world.player.context;
    let has_erda = erda_busy(rotator.entries, rotator.queue, context);
    assert(has_erda == ((context.priority_action_id matches Some(other) && erda_kind(
        rotator,
        other,
    )) || exists|i: int|
        0 <= i < rotator.queue.len() && erda_kind(rotator, #[trigger] rotator.queue[i]))) by {
        assert forall|i: int| 0 <= i < rotator.queue.len() implies waits_for_erda(
            rotator.entries,
            #[trigger] rotator.queue[i],
        ) == erda_kind(rotator, rotator.queue[i]) by {}
        if exists|i: int|
            0 <= i < rotator.queue.len() && waits_for_erda(
                rotator.entries,
                #[trigger] rotator.queue[i],
            ) {
            let i = choose|i: int|
                0 <= i < rotator.queue.len() && waits_for_erda(
                    rotator.entries,
                    #[trigger] rotator.queue[i],
                );
            assert(erda_kind(rotator, rotator.queue[i]));
        }
    }
    let ignoring = before.ignored(context, has_erda, id, action);
    let last = action.queue_info.last_queued_time;
    lemma_lookup_updated(
        before.entries,
        id,
        action.with_info(
            PriorityActionQueueInfo { ignoring, last_queued_time: Some(observed.now) },
        ),
        id,
    );
    lemma_lookup_updated(
        before.entries,
        id,
        action.with_info(PriorityActionQueueInfo { ignoring, last_queued_time: last }),
        id,
    );
    lemma_untouched_from(
        rotator,
        resources,
        world,
        observed,
        (k + 1) as nat,
        rotator.entries.len(),
        id,
    );
}

/// What a detection has reported is the first of its updates; without any it is still running.
pub proof fn law_first_update_is_reported(updates: Seq<(u32, Update)>, id: u32, index: int)
    requires
        0 <= index <= updates.len(),
        forall|i: int| 0 <= i < index ==> (#[trigger] updates[i]).0 != id,
    ensures
        index < updates.len() && updates[index].0 == id ==> reported(updates, id)
            == updates[index].1,
        index == updates.len() ==> reported(updates, id) == Update::Pending,
    decreases updates.len(),
{
    if updates.len() > 0 && index > 0 {
        assert(updates[0].0 != id);
        let rest = updates.drop_first();
        assert forall|i: int| 0 <= i < index - 1 implies (#[trigger] rest[i]).0 != id by {
            assert(updates[i + 1].0 != id);
        }
        law_first_update_is_reported(rest, id, index - 1);
    }
}

} // verus!
