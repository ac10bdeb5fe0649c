//! Solving the transparent shape puzzle of the lie detector.

use std::sync::Arc;

use vstd::prelude::*;

use crate::bridge::{InputCommand, MouseKind};
use crate::detect::Detector;
use crate::ecs::{PlayerEntity, Resources};
use crate::geometry::{Point, Rect};
use crate::player::actions::PlayerAction;
use crate::player::context::next_action;
use crate::player::timeout::{fresh, next_timeout_lifecycle, ticked, Lifecycle, Timeout};
use crate::player::Player;
use crate::task::Update;

verus! {

/// How many ticks apart the puzzle is looked for.
pub const CHECK_INTERVAL: u64 = 10;

/// How many times the title detection can fail before giving up.
pub const MAX_TITLE_RETRIES: u8 = 10;

/// The ticks after which a puzzle is over in any case.
pub const SOLVING_TIMEOUT: u32 = 545;

/// How far below the title the puzzle begins.
pub const REGION_OFFSET: i32 = 20;

pub const REGION_WIDTH: i32 = 758;

pub const REGION_HEIGHT: i32 = 505;

/// Representing the current state of transparent shape (e.g. lie detector) solving.
#[derive(Clone, Copy, PartialEq, Eq, Debug, Structural)]
pub enum State {
    Waiting,
    Solving(Timeout),
    Completed,
}

impl Default for State {
    fn default() -> (res: Self)
        ensures
            res is Waiting,
    {
        State::Waiting
    }
}

#[derive(Clone, Copy, PartialEq, Eq, Debug, Structural)]
pub struct SolvingShape {
    pub state: State,
    /// Number of consecutive times the title detection has failed after the
    /// preparing phase ended. Reset to 0 while the preparing phase is still
    /// active.
    pub title_retries: u8,
}

/// What is left to be done after an update.
#[derive(Debug)]
pub enum ShapeFollowup {
    Nothing,
    /// The puzzle in this region is to be solved in the background, and recorded or not.
    StartSolving(Rect, bool),
    /// The frame is to be handed to where the puzzle is being solved.
    SendFrame(Arc<Detector>),
}

/// What was heard from where the puzzle is being solved.
#[derive(Clone, Copy, PartialEq, Eq, Debug, Structural)]
pub struct ShapeProgress {
    /// Whether the title of the puzzle is still there.
    pub title: Update,
    /// Where the cursor has to go.
    pub cursor: Option<Point>,
}

impl Default for SolvingShape {
    fn default() -> (res: Self)
        ensures
            res == (SolvingShape { state: State::Waiting, title_retries: 0 }),
    {
        SolvingShape { state: State::default(), title_retries: 0 }
    }
}

/// Whether the puzzle below the title can be represented.
pub open spec fn region_fits(title: Rect) -> bool {
    &&& title.x + REGION_WIDTH <= i32::MAX
    &&& title.y + REGION_OFFSET + REGION_HEIGHT <= i32::MAX
}

/// The puzzle that belongs to a title.
pub open spec fn region_below(title: Rect) -> Rect {
    Rect {
        x: title.x,
        y: (title.y + REGION_OFFSET) as i32,
        width: REGION_WIDTH,
        height: REGION_HEIGHT,
    }
}

impl SolvingShape {
    /// There are retries left, and no puzzle is counted past its timeout.
    pub open spec fn wf(self) -> bool {
        &&& self.title_retries < MAX_TITLE_RETRIES || self.state is Completed
        &&& self.state matches State::Solving(timeout) ==> timeout.total <= timeout.current
            <= SOLVING_TIMEOUT
    }

    /// What is done while waiting for the puzzle to begin.
    pub open spec fn waited(self, tick: u64, detector: Detector) -> Self {
        if tick % CHECK_INTERVAL != 0 {
            self
        } else if detector.lie_detector_shape_preparing {
            SolvingShape { title_retries: 0, ..self }
        } else if detector.lie_detector_shape is Some {
            SolvingShape { state: State::Solving(fresh()), ..self }
        } else {
            SolvingShape {
                title_retries: (self.title_retries + 1) as u8,
                state: if self.title_retries + 1 >= MAX_TITLE_RETRIES {
                    State::Completed
                } else {
                    self.state
                },
            }
        }
    }

    /// Whether the puzzle begins while waiting.
    pub open spec fn begins(self, tick: u64, detector: Detector) -> bool {
        &&& tick % CHECK_INTERVAL == 0
        &&& !detector.lie_detector_shape_preparing
        &&& detector.lie_detector_shape is Some
    }

    /// What is done while the puzzle is being solved.
    pub open spec fn solved(self, timeout: Timeout, progress: ShapeProgress) -> Self {
        if progress.title == Update::Answer(false) {
            SolvingShape { state: State::Completed, ..self }
        } else {
            match ticked(timeout, SOLVING_TIMEOUT) {
                Lifecycle::Ended => SolvingShape { state: State::Completed, ..self },
                Lifecycle::Started(next) => SolvingShape { state: State::Solving(next), ..self },
                Lifecycle::Updated(next) => SolvingShape { state: State::Solving(next), ..self },
            }
        }
    }

    /// One more tick.
    pub open spec fn stepped(self, tick: u64, detector: Detector, progress: ShapeProgress) -> Self {
        match self.state {
            State::Waiting => self.waited(tick, detector),
            State::Solving(timeout) => self.solved(timeout, progress),
            State::Completed => self,
        }
    }

    /// The name of the current state.
    pub fn name(&self) -> (res: &'static str)
        ensures
            res@ == match self.state {
                State::Waiting => "Waiting"@,
                State::Solving(_) => "Solving"@,
                State::Completed => "Completed"@,
            },
    {
        match self.state {
            State::Waiting => "Waiting",
            State::Solving(_) => "Solving",
            State::Completed => "Completed",
        }
    }
}

pub fn update_waiting(resources: &mut Resources, solving_shape: &mut SolvingShape) -> (res:
    ShapeFollowup)
    requires
        old(solving_shape).state is Waiting,
        old(solving_shape).title_retries < MAX_TITLE_RETRIES,
        old(resources).tick % CHECK_INTERVAL == 0 ==> old(resources).detector is Some,
        old(resources).lie_detector_count < u64::MAX,
        old(solving_shape).begins(old(resources).tick, *old(resources).detector->0)
            ==> region_fits(old(resources).detector->0.lie_detector_shape->0),
    ensures
        ({
            let tick = old(resources).tick;
            let detector = *old(resources).detector->0;
            &&& *final(solving_shape) == old(solving_shape).waited(tick, detector)
            &&& if old(solving_shape).begins(tick, detector) {
                &&& *final(resources) == (Resources {
                    lie_detector_count: (old(resources).lie_detector_count + 1) as u64,
                    ..*old(resources)
                })
                &&& res == ShapeFollowup::StartSolving(
                    region_below(detector.lie_detector_shape->0),
                    old(resources).debug.auto_record_lie_detector,
                )
            } else {
                &&& *final(resources) == *old(resources)
                &&& res == ShapeFollowup::Nothing
            }
        }),
{
    if resources.tick % CHECK_INTERVAL != 0 {
        return ShapeFollowup::Nothing;
    }
    if resources.detector().lie_detector_shape_preparing {
        // Reset retry counter while the preparing phase is still active,
        // so we have all retries available once shapes appear.
        solving_shape.title_retries = 0;
        return ShapeFollowup::Nothing;
    }
    match resources.detector().lie_detector_shape {
        None => {
            solving_shape.title_retries = solving_shape.title_retries + 1;
            if solving_shape.title_retries >= MAX_TITLE_RETRIES {
                solving_shape.state = State::Completed;
            }
            ShapeFollowup::Nothing
        },
        Some(title) => {
            let tl: Point = title.tl().shift(Point::new(0, REGION_OFFSET));
            let br: Point = tl.shift(Point::new(REGION_WIDTH, REGION_HEIGHT));
            let region: Rect = Rect::from_points(tl, br);
            solving_shape.state = State::Solving(Timeout::default());
            resources.lie_detector_count = resources.lie_detector_count + 1;
            ShapeFollowup::StartSolving(region, resources.debug.auto_record_lie_detector)
        },
    }
}

pub fn update_solving(
    resources: &mut Resources,
    solving_shape: &mut SolvingShape,
    progress: ShapeProgress,
) -> (res: ShapeFollowup)
    requires
        old(solving_shape).state matches State::Solving(timeout) && timeout.total < u32::MAX,
        old(resources).detector is Some,
    ensures
        *final(solving_shape) == old(solving_shape).solved(
            old(solving_shape).state->Solving_0,
            progress,
        ),
        *final(resources) == (Resources {
            input: final(resources).input,
            ..*old(resources)
        }),
        if final(solving_shape).state is Completed {
            &&& final(resources).input@ == old(resources).input@
            &&& res == ShapeFollowup::Nothing
        } else {
            &&& final(resources).input@ == match progress.cursor {
                Some(cursor) => old(resources).input@.push(
                    InputCommand::Mouse(cursor.x, cursor.y, MouseKind::Move),
                ),
                None => old(resources).input@,
            }
            &&& res == ShapeFollowup::SendFrame(old(resources).detector->0)
        },
{
    let timeout: Timeout = match solving_shape.state {
        State::Solving(timeout) => timeout,
        _ => vstd::pervasive::unreached(),
    };
    if matches!(progress.title, Update::Answer(false)) {
        solving_shape.state = State::Completed;
        return ShapeFollowup::Nothing;
    }
    match next_timeout_lifecycle(timeout, SOLVING_TIMEOUT) {
        Lifecycle::Ended => {
            solving_shape.state = State::Completed;
            ShapeFollowup::Nothing
        },
        Lifecycle::Started(timeout) | Lifecycle::Updated(timeout) => {
            if let Some(cursor) = progress.cursor {
                resources.input.push(InputCommand::Mouse(cursor.x, cursor.y, MouseKind::Move));
            }
            solving_shape.state = State::Solving(timeout);
            ShapeFollowup::SendFrame(resources.detector_cloned())
        },
    }
}

/// What an update makes of the resources and what is left to be done.
pub open spec fn shape_effects(
    solving_shape: SolvingShape,
    progress: ShapeProgress,
    before: Resources,
    after: Resources,
    followup: ShapeFollowup,
) -> bool {
    let detector = *before.detector->0;
    let next = solving_shape.stepped(before.tick, detector, progress);
    if solving_shape.state is Waiting && solving_shape.begins(before.tick, detector) {
        &&& after == (Resources {
            lie_detector_count: (before.lie_detector_count + 1) as u64,
            ..before
        })
        &&& followup == ShapeFollowup::StartSolving(
            region_below(detector.lie_detector_shape->0),
            before.debug.auto_record_lie_detector,
        )
    } else if solving_shape.state is Solving && next.state is Solving {
        &&& after == (Resources { input: after.input, ..before })
        &&& after.input@ == match progress.cursor {
            Some(cursor) => before.input@.push(
                InputCommand::Mouse(cursor.x, cursor.y, MouseKind::Move),
            ),
            None => before.input@,
        }
        &&& followup == ShapeFollowup::SendFrame(before.detector->0)
    } else {
        &&& after == (Resources { input: after.input, ..before })
        &&& after.input@ == before.input@
        &&& followup == ShapeFollowup::Nothing
    }
}

/// Whether the puzzle can be updated: there is a frame to look at where one is looked at, and
/// what is seen fits.
pub open spec fn can_solve(solving_shape: SolvingShape, resources: &Resources) -> bool {
    &&& solving_shape.wf()
    &&& !(solving_shape.state is Completed)
    &&& solving_shape.state is Solving || resources.tick % CHECK_INTERVAL == 0
        ==> resources.detector is Some
    &&& resources.lie_detector_count < u64::MAX
    &&& solving_shape.state is Waiting && solving_shape.begins(
        resources.tick,
        *resources.detector->0,
    ) ==> region_fits(resources.detector->0.lie_detector_shape->0)
}

/// Updates the [`Player::SolvingShape`] contextual state.
///
/// Note: Detections of the puzzle's title while waiting for it are blocking. But this should be
/// acceptable for this state.
pub fn update_solving_shape_state(
    resources: &mut Resources,
    player: &mut PlayerEntity,
    progress: ShapeProgress,
) -> (res: ShapeFollowup)
    requires
        old(player).state matches Player::SolvingShape(solving_shape) && can_solve(
            solving_shape,
            old(resources),
        ),
        old(player).context.next() is None || old(player).context.next() == Some(
            PlayerAction::SolveShape,
        ),
    ensures
        ({
            let before = old(player).state->SolvingShape_0;
            let next = before.stepped(
                old(resources).tick,
                *old(resources).detector->0,
                progress,
            );
            &&& shape_effects(before, progress, *old(resources), *final(resources), res)
            &&& next.wf()
            &&& *final(player) == if old(player).context.next() is None {
                PlayerEntity { state: Player::Idle, ..*old(player) }
            } else if next.state is Completed {
                PlayerEntity {
                    state: Player::Idle,
                    context: old(player).context.action_completed(),
                    ..*old(player)
                }
            } else {
                PlayerEntity { state: Player::SolvingShape(next), ..*old(player) }
            }
        }),
{
    let mut solving_shape: SolvingShape = match &player.state {
        Player::SolvingShape(solving_shape) => *solving_shape,
        _ => vstd::pervasive::unreached(),
    };
    let followup: ShapeFollowup = match solving_shape.state {
        State::Waiting => update_waiting(resources, &mut solving_shape),
        State::Solving(_) => update_solving(resources, &mut solving_shape, progress),
        State::Completed => vstd::pervasive::unreached(),
    };
    match next_action(&player.context) {
        Some(_) => {
            if matches!(solving_shape.state, State::Completed) {
                player.context.clear_action_completed();
                player.state = Player::Idle;
            } else {
                player.state = Player::SolvingShape(solving_shape);
            }
        },
        // Force cancel if not from action
        None => {
            player.state = Player::Idle;
        },
    }
    followup
}

/// The puzzle after looking for its title `count` times in vain.
pub open spec fn after_failures(count: nat, tick: u64, detector: Detector) -> SolvingShape
    decreases count,
{
    if count == 0 {
        SolvingShape { state: State::Waiting, title_retries: 0 }
    } else {
        after_failures((count - 1) as nat, tick, detector).waited(tick, detector)
    }
}

/// Looking for the title is given up after ten failures, and not before.
pub proof fn law_title_is_given_up_after_all_retries(count: nat, tick: u64, detector: Detector)
    requires
        tick % CHECK_INTERVAL == 0,
        !detector.lie_detector_shape_preparing,
        detector.lie_detector_shape is None,
        count <= MAX_TITLE_RETRIES,
    ensures
        after_failures(count, tick, detector).title_retries == count,
        after_failures(count, tick, detector).state is Completed <==> count == MAX_TITLE_RETRIES,
    decreases count,
{
    if count > 0 {
        law_title_is_given_up_after_all_retries((count - 1) as nat, tick, detector);
    }
}

/// A puzzle that is waited for begins in a tick that is a multiple of ten, once the time to prepare is
/// over and its title is there. It is then solved from the first tick on.
pub proof fn law_puzzle_begins_with_its_title(
    solving_shape: SolvingShape,
    tick: u64,
    detector: Detector,
    progress: ShapeProgress,
)
    requires
        solving_shape.state is Waiting,
        solving_shape.title_retries < 10,
    ensures
        ({
            let next = solving_shape.stepped(tick, detector, progress);
            let looks = tick % 10 == 0;
            let preparing = detector.lie_detector_shape_preparing;
            let seen = detector.lie_detector_shape is Some;
            &&& next.state is Solving <==> looks && !preparing && seen
            &&& next.state matches State::Solving(timeout) ==> timeout.current == 0
                && timeout.total == 0 && !timeout.started
            &&& next.state is Completed <==> looks && !preparing && !seen
                && solving_shape.title_retries == 9
            &&& next.title_retries == if looks && preparing {
                0
            } else if looks && !seen {
                solving_shape.title_retries + 1
            } else {
                solving_shape.title_retries as int
            }
        }),
{
}

/// A puzzle that is being solved is over when its title is gone, or when it has gone on for 545 ticks
/// after its first one. Until then every tick is counted.
pub proof fn law_puzzle_is_over_with_its_title_or_its_time(
    solving_shape: SolvingShape,
    tick: u64,
    detector: Detector,
    progress: ShapeProgress,
)
    requires
        solving_shape.state matches State::Solving(timeout) && timeout.current < u32::MAX
            && timeout.total < u32::MAX,
    ensures
        ({
            let next = solving_shape.stepped(tick, detector, progress);
            let timeout = solving_shape.state->Solving_0;
            &&& next.title_retries == solving_shape.title_retries
            &&& next.state is Completed <==> progress.title == Update::Answer(false)
                || timeout.started && timeout.current >= 545
            &&& !(next.state is Waiting)
            &&& next.state matches State::Solving(counted) ==> {
                &&& counted.started
                &&& counted.current == timeout.current + if timeout.started {
                    1int
                } else {
                    0
                }
            }
        }),
{
}

/// A puzzle that is over stays so.
pub proof fn law_completed_puzzle_stays_completed(
    solving_shape: SolvingShape,
    tick: u64,
    detector: Detector,
    progress: ShapeProgress,
)
    requires
        solving_shape.state is Completed,
    ensures
        solving_shape.stepped(tick, detector, progress) == solving_shape,
{
}

/// The puzzle begins 20 pixels below the corner of its title and is 758 pixels wide and 505 high.
pub proof fn law_puzzle_lies_below_its_title(title: Rect)
    requires
        region_fits(title),
    ensures
        ({
            let region = region_below(title);
            &&& region.x == title.x
            &&& region.y == title.y + 20
            &&& region.width == 758
            &&& region.height == 505
        }),
{
}

/// Every puzzle that begins is counted and handed on together with whether it is recorded. While it is
/// solved every frame is handed on and the mouse goes where it has to. In any other tick nothing is
/// done.
pub proof fn law_puzzle_is_handed_on(
    solving_shape: SolvingShape,
    progress: ShapeProgress,
    before: Resources,
    after: Resources,
    followup: ShapeFollowup,
)
    requires
        can_solve(solving_shape, &before),
        shape_effects(solving_shape, progress, before, after, followup),
    ensures
        ({
            let detector = *before.detector->0;
            let begins = solving_shape.state is Waiting && before.tick % 10 == 0
                && !detector.lie_detector_shape_preparing && detector.lie_detector_shape is Some;
            let goes_on = solving_shape.state matches State::Solving(timeout) && progress.title
                != Update::Answer(false) && !(timeout.started && timeout.current >= 545);
            &&& after.debug == before.debug
            &&& after.detector == before.detector
            &&& after.operation == before.operation
            &&& after.tick == before.tick
            &&& after.lie_detector_count == before.lie_detector_count + if begins {
                1int
            } else {
                0
            }
            &&& after.input@ == match progress.cursor {
                Some(cursor) if goes_on => before.input@.push(
                    InputCommand::Mouse(cursor.x, cursor.y, MouseKind::Move),
                ),
                _ => before.input@,
            }
            &&& match followup {
                ShapeFollowup::StartSolving(region, recorded) => {
                    &&& begins
                    &&& recorded == before.debug.auto_record_lie_detector
                    &&& region.x == detector.lie_detector_shape->0.x
                },
                ShapeFollowup::SendFrame(frame) => goes_on && Some(frame) == before.detector,
                ShapeFollowup::Nothing => !begins && !goes_on,
            }
        }),
{
}

} // verus!
