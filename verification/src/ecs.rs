//! What the systems share: the resources of a run and the world they work on.

use std::sync::Arc;

use vstd::prelude::*;

use crate::bridge::InputCommand;
use crate::clock::{Duration, Instant};
use crate::detect::Detector;
use crate::geometry::{Point, Rect};
use crate::models::actions::Bound;
use crate::player::context::PlayerContext;
use crate::player::Player;

verus! {

/// An arrow of a solved rune.
#[derive(Clone, Copy, PartialEq, Eq, Debug, Structural)]
pub enum SolvedArrow {
    Up,
    Down,
    Left,
    Right,
}

/// Debugging information.
#[derive(Debug)]
pub struct Debug {
    pub auto_save_rune: bool,
    pub auto_record_lie_detector: bool,
    pub last_rune_detector: Option<Arc<Detector>>,
    pub last_rune_result: Option<[SolvedArrow; 4]>,
}

impl Debug {
    pub fn new() -> (res: Self)
        ensures
            !res.auto_save_rune,
            !res.auto_record_lie_detector,
            res.last_rune_detector is None,
            res.last_rune_result is None,
    {
        Debug {
            auto_save_rune: false,
            auto_record_lie_detector: false,
            last_rune_detector: None,
            last_rune_result: None,
        }
    }

    /// The frame and the arrows to be saved for training, if saving is on and there are any.
    pub fn save_last_rune_result(&self) -> (res: Option<(&Arc<Detector>, [SolvedArrow; 4])>)
        ensures
            res is Some <==> (self.auto_save_rune && self.last_rune_detector is Some
                && self.last_rune_result is Some),
            match res {
                Some((detector, result)) => Some(*detector) == self.last_rune_detector && Some(
                    result,
                ) == self.last_rune_result,
                None => true,
            },
    {
        if !self.auto_save_rune {
            return None;
        }
        match (&self.last_rune_detector, self.last_rune_result) {
            (Some(detector), Some(result)) => Some((detector, result)),
            _ => None,
        }
    }

    /// Remembers the arrows of the rune solved last and the frame it was solved on.
    pub fn set_last_rune_result(&mut self, detector: Arc<Detector>, result: [SolvedArrow; 4])
        ensures
            *final(self) == (Debug {
                last_rune_detector: Some(detector),
                last_rune_result: Some(result),
                ..*old(self)
            }),
    {
        self.last_rune_detector = Some(detector);
        self.last_rune_result = Some(result);
    }
}

/// Whether actions are being rotated.
#[derive(Clone, Copy, PartialEq, Eq, Debug, Structural)]
pub enum OperationState {
    Halting,
    /// Halting, with so much time left to run once resumed.
    TemporaryHalting(Duration),
    Running,
    RunUntil(Instant),
}

impl OperationState {
    pub open spec fn halts(self) -> bool {
        self is Halting || self is TemporaryHalting
    }

    pub fn halting(&self) -> (res: bool)
        ensures
            res == self.halts(),
    {
        match self {
            OperationState::Halting | OperationState::TemporaryHalting(_) => true,
            OperationState::Running | OperationState::RunUntil(_) => false,
        }
    }
}

/// A struct containing shared resources.
#[derive(Debug)]
pub struct Resources {
    /// A resource to hold debugging information.
    pub debug: Debug,
    /// The inputs to be sent, in order.
    pub input: Vec<InputCommand>,
    /// The detections on the frame captured last.
    ///
    /// This is `None` when no frame has ever been captured.
    pub detector: Option<Arc<Detector>>,
    /// A resource indicating current operation state.
    pub operation: OperationState,
    /// A resource indicating current tick.
    pub tick: u64,
    /// How many lie detectors have been encountered so far.
    pub lie_detector_count: u64,
    /// Accumulated time the bot has been running since startup.
    pub total_runtime: Duration,
    /// Tracks when the last runtime accumulation happened.
    pub last_runtime_tick: Instant,
}

impl Resources {
    /// Resources at startup, with the given frame if one has been captured.
    pub fn new(detector: Option<Arc<Detector>>, operation: OperationState, now: Instant) -> (res:
        Self)
        ensures
            res.input@.len() == 0,
            res.detector == detector,
            res.operation == operation,
            res.tick == 0,
            res.lie_detector_count == 0,
            res.total_runtime.nanos == 0,
            res.last_runtime_tick == now,
            !res.debug.auto_save_rune && !res.debug.auto_record_lie_detector,
            res.debug.last_rune_detector is None && res.debug.last_rune_result is None,
    {
        Resources {
            debug: Debug::new(),
            input: Vec::new(),
            detector,
            operation,
            tick: 0,
            lie_detector_count: 0,
            total_runtime: Duration { nanos: 0 },
            last_runtime_tick: now,
        }
    }

    /// Retrieves the [`Detector`] for the latest captured frame.
    pub fn detector(&self) -> (res: &Detector)
        requires
            self.detector is Some,
        ensures
            *res == *self.detector->0,
    {
        match &self.detector {
            Some(detector) => detector,
            None => vstd::pervasive::unreached(),
        }
    }

    /// Same as [`Self::detector`] but cloned.
    pub fn detector_cloned(&self) -> (res: Arc<Detector>)
        requires
            self.detector is Some,
        ensures
            res == self.detector->0,
    {
        match &self.detector {
            Some(detector) => detector.clone(),
            None => vstd::pervasive::unreached(),
        }
    }
}

/// Different game-related events.
#[derive(Clone, Copy, PartialEq, Eq, Debug, Structural)]
pub enum WorldEvent {
    RunTimerEnded,
    PlayerDied,
    MinimapChanged,
    CaptureFailed,
    LieDetectorShapeAppeared,
    LieDetectorViolettaAppeared,
    EliteBossAppeared,
}

#[derive(Clone, Copy, PartialEq, Eq, Debug, Structural)]
pub struct MinimapIdle {
    /// Where the minimap is inside of the frame.
    pub bbox: Rect,
    pub rune: Option<Point>,
    pub has_any_other_player: bool,
}

#[derive(Clone, Copy, PartialEq, Eq, Debug, Structural)]
pub enum Minimap {
    Detecting,
    Idle(MinimapIdle),
}

#[derive(Debug)]
pub struct MinimapEntity {
    pub state: Minimap,
    pub portals: Vec<Bound>,
}

#[derive(Clone, Copy, PartialEq, Eq, Debug, Structural)]
pub enum Skill {
    Detecting,
    Idle,
    Cooldown,
}

#[derive(Clone, Copy, PartialEq, Eq, Debug, Structural)]
pub enum Buff {
    No,
    Yes,
    Volatile,
}

#[derive(Clone, Copy, PartialEq, Eq, Debug, Structural)]
pub enum BuffKind {
    Rune,
    Familiar,
    WealthAcquisitionPotion,
    SmallWealthAcquisitionPotion,
    ExpAccumulationPotion,
    SmallExpAccumulationPotion,
    ExpCouponX2,
    ExpCouponX3,
    ExpCouponX4,
    BonusExpCoupon,
    MvpBonusExpCoupon,
    /// One of the buffs that are independent of all others.
    Independent(u32),
}

#[derive(Clone, Copy, PartialEq, Eq, Debug, Structural)]
pub struct BuffEntity {
    pub kind: BuffKind,
    pub state: Buff,
}

/// The state of the first entity of that kind; a buff that is not tracked is not there.
pub open spec fn buff_state(buffs: Seq<BuffEntity>, kind: BuffKind) -> Buff
    decreases buffs.len(),
{
    if buffs.len() == 0 {
        Buff::No
    } else if buffs[0].kind == kind {
        buffs[0].state
    } else {
        buff_state(buffs.drop_first(), kind)
    }
}

#[derive(Debug)]
pub struct PlayerEntity {
    pub state: Player,
    pub context: PlayerContext,
    /// Where the player was last on its way to, one place after the other.
    pub last_destinations: Option<Vec<Point>>,
    /// Whether the state may be replaced with the player where it was last seen.
    pub can_override_state: bool,
    /// Whether the state may be replaced wherever the player is.
    pub can_override_state_anywhere: bool,
}

/// A container for entities.
#[derive(Debug)]
pub struct World {
    pub minimap: MinimapEntity,
    pub player: PlayerEntity,
    pub erda_shower: Skill,
    pub buffs: Vec<BuffEntity>,
}

impl World {
    pub open spec fn buff(&self, kind: BuffKind) -> Buff {
        buff_state(self.buffs@, kind)
    }

    pub fn buff_of(&self, kind: BuffKind) -> (res: Buff)
        ensures
            res == self.buff(kind),
    {
        let mut i: usize = 0;
        assert(self.buffs@.skip(0) =~= self.buffs@);
        while i < self.buffs.len()
            invariant
                i <= self.buffs.len(),
                buff_state(self.buffs@.skip(i as int), kind) == self.buff(kind),
            decreases self.buffs.len() - i,
        {
            assert(self.buffs@.skip(i as int).drop_first() =~= self.buffs@.skip(i as int + 1));
            if self.buffs[i].kind == kind {
                return self.buffs[i].state;
            }
            i = i + 1;
        }
        Buff::No
    }
}

} // verus!
