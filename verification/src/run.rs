//! What happens in every tick.

use vstd::prelude::*;

use crate::clock::Instant;
use crate::ecs::{Minimap, OperationState, Resources, World, WorldEvent};
use crate::player::Player;
use crate::task::Update;

verus! {

/// What came of capturing a frame.
#[derive(Clone, Copy, PartialEq, Eq, Debug, Structural)]
pub enum CaptureOutcome {
    Captured,
    WindowNotFound,
    WindowInvalidSize,
    /// No frame could be captured, for a reason that may pass.
    Failed,
}

/// Whether capturing goes on normally. While the player is in the cash shop, frames may well be
/// missing.
pub open spec fn captures_normally(outcome: CaptureOutcome, player_in_cash_shop: bool) -> bool {
    outcome is Captured || (!player_in_cash_shop && outcome is Failed)
}

pub fn is_capturing_normally(outcome: CaptureOutcome, player_in_cash_shop: bool) -> (res: bool)
    ensures
        res == captures_normally(outcome, player_in_cash_shop),
{
    match outcome {
        CaptureOutcome::Captured => true,
        CaptureOutcome::WindowNotFound | CaptureOutcome::WindowInvalidSize => false,
        CaptureOutcome::Failed => !player_in_cash_shop,
    }
}

/// Whether actions are being rotated.
pub open spec fn runs(state: OperationState) -> bool {
    state is Running || state is RunUntil
}

/// Counts the tick, and the time since the last one if the bot was actively running.
pub fn count_tick(resources: &mut Resources, now: Instant)
    requires
        old(resources).tick < u64::MAX,
        old(resources).total_runtime.nanos + now.since(old(resources).last_runtime_tick).nanos
            <= u128::MAX,
    ensures
        *final(resources) == (Resources {
            tick: (old(resources).tick + 1) as u64,
            total_runtime: final(resources).total_runtime,
            last_runtime_tick: now,
            ..*old(resources)
        }),
        final(resources).total_runtime.nanos == old(resources).total_runtime.nanos + if runs(
            old(resources).operation,
        ) {
            now.since(old(resources).last_runtime_tick).nanos as int
        } else {
            0
        },
{
    resources.tick = resources.tick + 1;
    let running: bool = match resources.operation {
        OperationState::Running | OperationState::RunUntil(_) => true,
        OperationState::Halting | OperationState::TemporaryHalting(_) => false,
    };
    if running {
        let elapsed: u128 = now.duration_since(resources.last_runtime_tick).nanos;
        resources.total_runtime.nanos = resources.total_runtime.nanos + elapsed;
    }
    resources.last_runtime_tick = now;
}

/// What is compared before and after the systems have run.
#[derive(Clone, Copy, PartialEq, Eq, Debug, Structural)]
pub struct Snapshot {
    pub running_cycle: bool,
    pub halting: bool,
    pub player_dead: bool,
    pub minimap_idle: bool,
}

impl Snapshot {
    pub open spec fn of(resources: &Resources, world: &World) -> Self {
        Snapshot {
            running_cycle: resources.operation is RunUntil,
            halting: resources.operation.halts(),
            player_dead: world.player.context.is_dead,
            minimap_idle: world.minimap.state is Idle,
        }
    }

    pub fn take(resources: &Resources, world: &World) -> (res: Self)
        ensures
            res == Snapshot::of(resources, world),
    {
        Snapshot {
            running_cycle: matches!(resources.operation, OperationState::RunUntil(_)),
            halting: resources.operation.halting(),
            player_dead: world.player.context.is_dead,
            minimap_idle: matches!(world.minimap.state, Minimap::Idle(_)),
        }
    }
}

/// The event if it has happened.
pub open spec fn event_if(happened: bool, event: WorldEvent) -> Seq<WorldEvent> {
    if happened {
        seq![event]
    } else {
        seq![]
    }
}

fn report_if(events: &mut Vec<WorldEvent>, happened: bool, event: WorldEvent)
    ensures
        final(events)@ == old(events)@ + event_if(happened, event),
{
    if happened {
        events.push(event);
    }
    assert(events@ =~= old(events)@ + event_if(happened, event));
}

/// What has happened while the systems were running.
pub open spec fn system_events(before: Snapshot, after: Snapshot) -> Seq<WorldEvent> {
    event_if(before.running_cycle && after.halting, WorldEvent::RunTimerEnded) + event_if(
        !before.player_dead && after.player_dead,
        WorldEvent::PlayerDied,
    ) + event_if(before.minimap_idle && !after.minimap_idle, WorldEvent::MinimapChanged)
}

fn compare(before: Snapshot, after: Snapshot) -> (res: Vec<WorldEvent>)
    ensures
        res@ == system_events(before, after),
{
    let mut events: Vec<WorldEvent> = Vec::new();
    // Go to town on stop cycle
    report_if(&mut events, before.running_cycle && after.halting, WorldEvent::RunTimerEnded);
    assert(events@ =~= event_if(
        before.running_cycle && after.halting,
        WorldEvent::RunTimerEnded,
    ));
    report_if(&mut events, !before.player_dead && after.player_dead, WorldEvent::PlayerDied);
    report_if(
        &mut events,
        before.minimap_idle && !after.minimap_idle,
        WorldEvent::MinimapChanged,
    );
    events
}

/// Something that may appear and be gone again.
#[derive(Clone, Copy, PartialEq, Eq, Debug, Structural)]
pub struct EventWatch {
    pub event: WorldEvent,
    /// Whether it was there when it was looked for last.
    pub previous: bool,
}

impl EventWatch {
    pub fn new(event: WorldEvent) -> (res: Self)
        ensures
            res == (EventWatch { event, previous: false }),
    {
        EventWatch { event, previous: false }
    }

    /// The watch after it has heard from its detection.
    pub open spec fn heard(self, update: Update) -> Self {
        match update {
            Update::Answer(current) => EventWatch { previous: current, ..self },
            Update::Failed | Update::Pending => self,
        }
    }

    /// The event, where it was not there before and is there now.
    pub open spec fn events(self, update: Update) -> Seq<WorldEvent> {
        event_if(update == Update::Answer(true) && !self.previous, self.event)
    }

    pub fn hear(&mut self, update: Update, events: &mut Vec<WorldEvent>)
        ensures
            *final(self) == old(self).heard(update),
            final(events)@ == old(events)@ + old(self).events(update),
    {
        let appeared: bool = matches!(update, Update::Answer(true)) && !self.previous;
        report_if(events, appeared, self.event);
        if let Update::Answer(current) = update {
            self.previous = current;
        }
    }
}

/// What the detections that run beside the systems have to say.
#[derive(Clone, Copy, PartialEq, Eq, Debug, Structural)]
pub struct WatchUpdates {
    pub lie_detector_shape: Update,
    pub lie_detector_violetta: Update,
    pub elite_boss: Update,
}

/// What is remembered from one tick to the next.
#[derive(Clone, Copy, PartialEq, Eq, Debug, Structural)]
pub struct SystemsLoop {
    pub is_capturing_normally: bool,
    pub lie_detector_shape: EventWatch,
    pub lie_detector_violetta: EventWatch,
    pub elite_boss: EventWatch,
}

impl SystemsLoop {
    pub fn new() -> (res: Self)
        ensures
            res == (SystemsLoop {
                is_capturing_normally: false,
                lie_detector_shape: EventWatch {
                    event: WorldEvent::LieDetectorShapeAppeared,
                    previous: false,
                },
                lie_detector_violetta: EventWatch {
                    event: WorldEvent::LieDetectorViolettaAppeared,
                    previous: false,
                },
                elite_boss: EventWatch { event: WorldEvent::EliteBossAppeared, previous: false },
            }),
    {
        SystemsLoop {
            is_capturing_normally: false,
            lie_detector_shape: EventWatch::new(WorldEvent::LieDetectorShapeAppeared),
            lie_detector_violetta: EventWatch::new(WorldEvent::LieDetectorViolettaAppeared),
            elite_boss: EventWatch::new(WorldEvent::EliteBossAppeared),
        }
    }

    /// Begins a tick before the systems run. They run only where a frame was captured.
    ///
    /// Returns whether they run.
    pub fn begin_tick(
        &self,
        resources: &mut Resources,
        outcome: CaptureOutcome,
        now: Instant,
    ) -> (res: bool)
        requires
            old(resources).tick < u64::MAX,
            old(resources).total_runtime.nanos + now.since(
                old(resources).last_runtime_tick,
            ).nanos <= u128::MAX,
        ensures
            res == outcome is Captured,
            *final(resources) == (Resources {
                tick: (old(resources).tick + 1) as u64,
                total_runtime: final(resources).total_runtime,
                last_runtime_tick: now,
                ..*old(resources)
            }),
            final(resources).total_runtime.nanos == old(resources).total_runtime.nanos + if runs(
                old(resources).operation,
            ) {
                now.since(old(resources).last_runtime_tick).nanos as int
            } else {
                0
            },
    {
        count_tick(resources, now);
        matches!(outcome, CaptureOutcome::Captured)
    }

    /// The loop after a tick in which the systems have run.
    pub open spec fn heard(self, updates: WatchUpdates) -> Self {
        SystemsLoop {
            lie_detector_shape: self.lie_detector_shape.heard(updates.lie_detector_shape),
            lie_detector_violetta: self.lie_detector_violetta.heard(
                updates.lie_detector_violetta,
            ),
            elite_boss: self.elite_boss.heard(updates.elite_boss),
            ..self
        }
    }

    pub open spec fn watch_events(self, updates: WatchUpdates) -> Seq<WorldEvent> {
        self.lie_detector_shape.events(updates.lie_detector_shape)
            + self.lie_detector_violetta.events(updates.lie_detector_violetta)
            + self.elite_boss.events(updates.elite_boss)
    }

    /// Whether capturing has gone on normally until now and no longer does.
    pub open spec fn capture_fails(self, normal: bool) -> bool {
        self.is_capturing_normally && !normal
    }

    fn hear(&mut self, updates: WatchUpdates, events: &mut Vec<WorldEvent>)
        ensures
            *final(self) == old(self).heard(updates),
            final(events)@ == old(events)@ + old(self).watch_events(updates),
    {
        let ghost before = events@;
        let ghost shape = self.lie_detector_shape.events(updates.lie_detector_shape);
        let ghost violetta = self.lie_detector_violetta.events(updates.lie_detector_violetta);
        let ghost elite_boss = self.elite_boss.events(updates.elite_boss);
        self.lie_detector_shape.hear(updates.lie_detector_shape, events);
        self.lie_detector_violetta.hear(updates.lie_detector_violetta, events);
        self.elite_boss.hear(updates.elite_boss, events);
        assert(before + shape + violetta + elite_boss =~= before + (shape + violetta + elite_boss));
    }

    /// Ends a tick in which the systems have run, and returns what has happened in it.
    pub fn end_tick(&mut self, before: Snapshot, resources: &Resources, world: &World, updates:
        WatchUpdates) -> (res: Vec<WorldEvent>)
        ensures
            *final(self) == (SystemsLoop {
                is_capturing_normally: true,
                ..old(self).heard(updates)
            }),
            res@ == system_events(before, Snapshot::of(resources, world)) + old(self).watch_events(updates),
    {
        let mut events: Vec<WorldEvent> = compare(before, Snapshot::take(resources, world));
        self.hear(updates, &mut events);
        self.is_capturing_normally = true;
        events
    }

    /// Ends a tick in which no frame was captured, and returns whether capturing has failed just
    /// now.
    pub fn end_tick_without_frame(&mut self, outcome: CaptureOutcome, player: &Player) -> (res:
        Vec<WorldEvent>)
        requires
            !(outcome is Captured),
        ensures
            ({
                let normal = captures_normally(outcome, *player is CashShopThenExit);
                &&& *final(self) == (SystemsLoop { is_capturing_normally: normal, ..*old(self) })
                &&& res@ == event_if(old(self).capture_fails(normal), WorldEvent::CaptureFailed)
            }),
    {
        let was_capturing_normally: bool = self.is_capturing_normally;
        let player_in_cash_shop: bool = matches!(player, Player::CashShopThenExit);
        self.is_capturing_normally = is_capturing_normally(outcome, player_in_cash_shop);
        let mut events: Vec<WorldEvent> = Vec::new();
        if was_capturing_normally && !self.is_capturing_normally {
            events.push(WorldEvent::CaptureFailed);
        }
        assert(events@ =~= event_if(
            old(self).capture_fails(self.is_capturing_normally),
            WorldEvent::CaptureFailed,
        ));
        events
    }
}

/// How many nanoseconds are left of a frame, if any.
pub open spec fn frame_rest(fps: u32, elapsed_nanos: u128) -> Option<int> {
    let nanos_per_frame = 1_000_000_000int / fps as int;
    if elapsed_nanos <= nanos_per_frame {
        Some(nanos_per_frame - elapsed_nanos)
    } else {
        None
    }
}

/// For how many nanoseconds to sleep until the next frame; a frame that is late is not waited
/// for.
pub fn frame_sleep_nanos(fps: u32, elapsed_nanos: u128) -> (res: Option<u32>)
    requires
        fps > 0,
    ensures
        match res {
            Some(nanos) => frame_rest(fps, elapsed_nanos) == Some(nanos as int),
            None => frame_rest(fps, elapsed_nanos) is None,
        },
{
    let nanos_per_frame: u32 = 1_000_000_000 / fps;
    assert(1_000_000_000int / fps as int <= 1_000_000_000) by (nonlinear_arith)
        requires
            fps > 0,
    ;
    if elapsed_nanos <= nanos_per_frame as u128 {
        Some(nanos_per_frame - elapsed_nanos as u32)
    } else {
        None
    }
}

/// Starts something that is never started again.
///
/// Returns whether it is to be started now.
pub fn start_once(started: &mut bool) -> (res: bool)
    ensures
        res == !*old(started),
        *final(started),
{
    let res: bool = !*started;
    *started = true;
    res
}

/// Something that stays is reported once: as long as its detection does not report that it is
/// gone, no second event comes.
pub proof fn law_appearing_is_reported_once(watch: EventWatch, first: Update, second: Update)
    requires
        watch.events(first).len() > 0,
    ensures
        watch.heard(first).events(second).len() == 0,
{
}

/// Something that was gone is reported again.
pub proof fn law_reappearing_is_reported_again(watch: EventWatch)
    ensures
        watch.heard(Update::Answer(false)).events(Update::Answer(true)) =~= seq![watch.event],
{
}

/// That capturing fails is reported when it begins to fail, and not while it goes on failing.
pub proof fn law_capture_failure_is_reported_once(state: SystemsLoop, normal: bool, again: bool)
    requires
        state.capture_fails(normal),
    ensures
        !(SystemsLoop { is_capturing_normally: normal, ..state }).capture_fails(again),
{
}

/// A tick and the sleep after it take exactly one frame, unless the tick alone takes longer.
pub proof fn law_frames_are_evenly_spaced(fps: u32, elapsed_nanos: u128)
    requires
        fps > 0,
        elapsed_nanos <= 1_000_000_000int / fps as int,
    ensures
        frame_rest(fps, elapsed_nanos) is Some,
        elapsed_nanos + frame_rest(fps, elapsed_nanos)->0 == 1_000_000_000int / fps as int,
{
}

/// Capturing goes on normally with every frame, never without a window or with one of no size, and
/// with a frame missing for another reason only outside of the cash shop.
pub proof fn law_missing_frames_are_normal_outside_of_the_cash_shop(player_in_cash_shop: bool)
    ensures
        captures_normally(CaptureOutcome::Captured, player_in_cash_shop),
        !captures_normally(CaptureOutcome::WindowNotFound, player_in_cash_shop),
        !captures_normally(CaptureOutcome::WindowInvalidSize, player_in_cash_shop),
        captures_normally(CaptureOutcome::Failed, player_in_cash_shop) != player_in_cash_shop,
{
}

/// The bot either runs or halts, and never both.
pub proof fn law_bot_runs_or_halts(state: OperationState)
    ensures
        runs(state) != state.halts(),
        runs(OperationState::Running),
        state is RunUntil ==> runs(state),
        state is TemporaryHalting ==> state.halts(),
        OperationState::Halting.halts(),
{
}

/// Of what the systems do, exactly this is reported: a run with an end that has halted, a player that
/// has died and a minimap that is no longer seen. Each is reported once.
pub proof fn law_changes_are_reported(before: Snapshot, after: Snapshot)
    ensures
        ({
            let events = system_events(before, after);
            let ended = before.running_cycle && after.halting;
            let died = !before.player_dead && after.player_dead;
            let changed = before.minimap_idle && !after.minimap_idle;
            &&& events.contains(WorldEvent::RunTimerEnded) <==> ended
            &&& events.contains(WorldEvent::PlayerDied) <==> died
            &&& events.contains(WorldEvent::MinimapChanged) <==> changed
            &&& events.no_duplicates()
            &&& events.len() == (if ended {
                1int
            } else {
                0
            }) + (if died {
                1int
            } else {
                0
            }) + (if changed {
                1int
            } else {
                0
            })
        }),
{
    let events = system_events(before, after);
    let ended = before.running_cycle && after.halting;
    let died = !before.player_dead && after.player_dead;
    let changed = before.minimap_idle && !after.minimap_idle;
    let i = if ended {
        1int
    } else {
        0
    };
    let j = i + if died {
        1int
    } else {
        0
    };
    if ended {
        assert(events[0] == WorldEvent::RunTimerEnded);
    }
    if died {
        assert(events[i] == WorldEvent::PlayerDied);
    }
    if changed {
        assert(events[j] == WorldEvent::MinimapChanged);
    }
}

/// What is compared is what the resources and the world say.
pub proof fn law_snapshot_is_what_is_there(resources: &Resources, world: &World)
    ensures
        ({
            let snapshot = Snapshot::of(resources, world);
            &&& snapshot.running_cycle <==> resources.operation is RunUntil
            &&& snapshot.halting <==> resources.operation is Halting || resources.operation
                is TemporaryHalting
            &&& snapshot.player_dead <==> world.player.context.is_dead
            &&& snapshot.minimap_idle <==> world.minimap.state is Idle
        }),
{
}

/// Something is reported just when it is there and was not there before, and remembered as its
/// detection has answered. Without an answer nothing is reported and nothing is forgotten.
pub proof fn law_appearing_is_reported(watch: EventWatch, update: Update)
    ensures
        watch.events(update).len() <= 1,
        watch.events(update).len() == 1 <==> update == Update::Answer(true) && !watch.previous,
        watch.events(update).len() == 1 ==> watch.events(update)[0] == watch.event,
        watch.heard(update).event == watch.event,
        watch.heard(update).previous == match update {
            Update::Answer(there) => there,
            _ => watch.previous,
        },
{
}

/// Each of the three detections is heard on its own: what it says is remembered for it and reported
/// as its event, whatever the others say.
pub proof fn law_detections_are_heard_one_by_one(state: SystemsLoop, updates: WatchUpdates)
    requires
        state.lie_detector_shape.event == WorldEvent::LieDetectorShapeAppeared,
        state.lie_detector_violetta.event == WorldEvent::LieDetectorViolettaAppeared,
        state.elite_boss.event == WorldEvent::EliteBossAppeared,
    ensures
        ({
            let events = state.watch_events(updates);
            let next = state.heard(updates);
            let shape = updates.lie_detector_shape == Update::Answer(true)
                && !state.lie_detector_shape.previous;
            let violetta = updates.lie_detector_violetta == Update::Answer(true)
                && !state.lie_detector_violetta.previous;
            let elite_boss = updates.elite_boss == Update::Answer(true)
                && !state.elite_boss.previous;
            &&& events.contains(WorldEvent::LieDetectorShapeAppeared) <==> shape
            &&& events.contains(WorldEvent::LieDetectorViolettaAppeared) <==> violetta
            &&& events.contains(WorldEvent::EliteBossAppeared) <==> elite_boss
            &&& events.no_duplicates()
            &&& next.is_capturing_normally == state.is_capturing_normally
            &&& updates.lie_detector_shape matches Update::Answer(there)
                ==> next.lie_detector_shape.previous == there
            &&& updates.lie_detector_violetta matches Update::Answer(there)
                ==> next.lie_detector_violetta.previous == there
            &&& updates.elite_boss matches Update::Answer(there) ==> next.elite_boss.previous
                == there
        }),
{
    let events = state.watch_events(updates);
    let a = state.lie_detector_shape.events(updates.lie_detector_shape);
    let b = state.lie_detector_violetta.events(updates.lie_detector_violetta);
    let c = state.elite_boss.events(updates.elite_boss);
    if a.len() > 0 {
        assert(events[0] == a[0]);
    }
    if b.len() > 0 {
        assert(events[a.len() as int] == b[0]);
    }
    if c.len() > 0 {
        assert(events[(a.len() + b.len()) as int] == c[0]);
    }
}

/// That capturing fails is reported just when it went on normally until now and no longer does.
pub proof fn law_capture_failure_is_reported(state: SystemsLoop, normal: bool)
    ensures
        state.capture_fails(normal) <==> state.is_capturing_normally && !normal,
{
}

/// A frame that takes longer than its time is not waited for.
pub proof fn law_late_frames_are_not_waited_for(fps: u32, elapsed_nanos: u128)
    requires
        fps > 0,
        elapsed_nanos * fps > 1_000_000_000,
    ensures
        frame_rest(fps, elapsed_nanos) is None,
{
    let nanos_per_frame = 1_000_000_000int / fps as int;
    assert(elapsed_nanos > nanos_per_frame) by (nonlinear_arith)
        requires
            fps > 0,
            elapsed_nanos * fps > 1_000_000_000,
            nanos_per_frame == 1_000_000_000int / fps as int,
    ;
}

} // verus!
