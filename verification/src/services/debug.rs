//! Recording and trying things out.

use vstd::prelude::*;

use crate::api::{DebugState, TransparentShapeDifficulty};
use crate::ecs::Resources;
use crate::geometry::Point;
use crate::recording::{is_recording, new_recording_path};

verus! {

/// The width of the screens that shapes are known from.
pub const GAME_WIDTH: i32 = 1366;

pub const GAME_HEIGHT: i32 = 768;

/// What recording videos has come to.
#[derive(Clone, Copy, PartialEq, Eq, Debug, Structural)]
pub struct DebugService {
    pub is_recording: bool,
}

impl Default for DebugService {
    fn default() -> (res: Self)
        ensures
            !res.is_recording,
    {
        DebugService { is_recording: false }
    }
}

/// What is to be done with the recording.
#[derive(Debug)]
pub enum RecordStep {
    /// Nothing, since there is no frame to begin with.
    Ignore,
    Stop,
    /// A recording begins with the frame captured last, under this path.
    Start(String),
}

/// What is to be done in a tick.
#[derive(Clone, Copy, PartialEq, Eq, Debug, Structural)]
pub struct DebugPoll {
    /// Whether the frame captured last is to be recorded.
    pub write_frame: bool,
    /// What is to be shown, if what was shown last was picked up.
    pub state: Option<DebugState>,
}

impl DebugService {
    pub fn poll(&self, resources: &Resources, picked_up: bool) -> (res: DebugPoll)
        ensures
            res.write_frame == (self.is_recording && resources.detector is Some),
            res.state == if picked_up {
                Some(
                    DebugState {
                        is_recording: self.is_recording,
                        is_rune_auto_saving: resources.debug.auto_save_rune,
                        is_lie_detector_auto_recording: resources.debug.auto_record_lie_detector,
                    },
                )
            } else {
                None
            },
    {
        let write_frame: bool = self.is_recording && resources.detector.is_some();
        let state: Option<DebugState> = if picked_up {
            Some(
                DebugState {
                    is_recording: self.is_recording,
                    is_rune_auto_saving: resources.debug.auto_save_rune,
                    is_lie_detector_auto_recording: resources.debug.auto_record_lie_detector,
                },
            )
        } else {
            None
        };
        DebugPoll { write_frame, state }
    }

    /// Starts or stops recording. Without a frame nothing can be started.
    pub fn record_video(&mut self, resources: &Resources, start: bool) -> (res: RecordStep)
        ensures
            match res {
                RecordStep::Stop => !start,
                RecordStep::Ignore => start && resources.detector is None,
                RecordStep::Start(path) => start && resources.detector is Some && is_recording(
                    path@,
                    ""@,
                ),
            },
            final(self).is_recording == if !start {
                false
            } else if resources.detector is None {
                old(self).is_recording
            } else {
                true
            },
    {
        if !start {
            self.is_recording = false;
            return RecordStep::Stop;
        }
        if resources.detector.is_none() {
            return RecordStep::Ignore;
        }
        self.is_recording = true;
        RecordStep::Start(new_recording_path(""))
    }
}

impl crate::ecs::Debug {
    /// Where a lie detector is recorded.
    pub fn new_recording(&self) -> (res: String)
        ensures
            is_recording(res@, "ld_"@),
    {
        new_recording_path("ld_")
    }
}

/// The video that a difficulty is tried out with.
pub fn test_video_name(difficulty: TransparentShapeDifficulty) -> (res: &'static str)
    ensures
        res@ == match difficulty {
            TransparentShapeDifficulty::Normal => "transparent_shape_test_normal.mp4"@,
            TransparentShapeDifficulty::Hard => "transparent_shape_test_hard.mp4"@,
        },
{
    match difficulty {
        TransparentShapeDifficulty::Normal => "transparent_shape_test_normal.mp4",
        TransparentShapeDifficulty::Hard => "transparent_shape_test_hard.mp4",
    }
}

/// The name under which a video that was picked is kept.
pub fn picked_video_name(file_name: Option<String>) -> (res: String)
    ensures
        res@ == match file_name {
            Some(name) => name@,
            None => "test_video.mp4"@,
        },
{
    match file_name {
        Some(name) => name,
        None => "test_video.mp4".to_owned(),
    }
}

/// Whether a frame is too small to be a whole screen.
pub fn is_cropped(width: i32, height: i32) -> (res: bool)
    ensures
        res == (width < 1000 || height < 700),
{
    width < 1000 || height < 700
}

/// How much is to be added around a frame.
#[derive(Clone, Copy, PartialEq, Eq, Debug, Structural)]
pub struct Border {
    pub top: i32,
    pub bottom: i32,
    pub left: i32,
    pub right: i32,
}

/// Half of what is missing goes before and the rest after; nothing is added where nothing is
/// missing.
pub open spec fn padding(size: int, target: int) -> (int, int) {
    if size >= target {
        (0, 0)
    } else {
        ((target - size) / 2, target - size - (target - size) / 2)
    }
}

fn pad_to(size: i32, target: i32) -> (res: (i32, i32))
    requires
        size >= 0,
        target >= 0,
    ensures
        (res.0 as int, res.1 as int) == padding(size as int, target as int),
{
    if size >= target {
        return (0, 0);
    }
    let missing: i32 = target - size;
    let before: i32 = missing / 2;
    (before, missing - before)
}

/// What is added around a cropped frame to fill a screen, with the frame in the middle. A frame
/// that is large enough stays as it is.
pub fn pad_frame_to_game_screen(width: i32, height: i32) -> (res: Option<Border>)
    requires
        width >= 0,
        height >= 0,
    ensures
        match res {
            None => width >= GAME_WIDTH && height >= GAME_HEIGHT,
            Some(border) => {
                &&& width < GAME_WIDTH || height < GAME_HEIGHT
                &&& (border.top as int, border.bottom as int) == padding(
                    height as int,
                    GAME_HEIGHT as int,
                )
                &&& (border.left as int, border.right as int) == padding(
                    width as int,
                    GAME_WIDTH as int,
                )
            },
        },
{
    if width >= GAME_WIDTH && height >= GAME_HEIGHT {
        return None;
    }
    let (top, bottom): (i32, i32) = pad_to(height, GAME_HEIGHT);
    let (left, right): (i32, i32) = pad_to(width, GAME_WIDTH);
    Some(Border { top, bottom, left, right })
}

/// A video that shapes are tried out with while it is played.
#[derive(Clone, Copy, PartialEq, Eq, Debug, Structural)]
pub struct ShapeTest {
    pub frame_count: u64,
    /// Whether a shape was followed at any time. From then on what is followed is drawn by whatever
    /// follows it.
    pub tracking_active: bool,
}

/// What is to be done with a frame once it was looked at.
#[derive(Clone, Copy, PartialEq, Eq, Debug, Structural)]
pub struct ShapeTestStep {
    /// Whether the frame is shown as it is.
    pub show_frame: bool,
    /// Whether the progress is written to the log.
    pub report: bool,
    pub move_to: Option<Point>,
}

impl ShapeTest {
    pub fn new() -> (res: Self)
        ensures
            res == (ShapeTest { frame_count: 0, tracking_active: false }),
    {
        ShapeTest { frame_count: 0, tracking_active: false }
    }

    /// Begins with a frame: what is added around it, if it was cropped.
    pub fn begin_frame(&mut self, width: i32, height: i32) -> (res: Option<Border>)
        requires
            width >= 0,
            height >= 0,
            old(self).frame_count < u64::MAX,
        ensures
            *final(self) == (ShapeTest {
                frame_count: (old(self).frame_count + 1) as u64,
                ..*old(self)
            }),
            match res {
                None => width >= 1000 && height >= 700,
                Some(border) => {
                    &&& width < 1000 || height < 700
                    &&& (border.top as int, border.bottom as int) == padding(
                        height as int,
                        GAME_HEIGHT as int,
                    )
                    &&& (border.left as int, border.right as int) == padding(
                        width as int,
                        GAME_WIDTH as int,
                    )
                },
            },
    {
        self.frame_count = self.frame_count + 1;
        if is_cropped(width, height) {
            pad_frame_to_game_screen(width, height)
        } else {
            None
        }
    }

    /// Ends with a frame once it was looked at for the shape to follow.
    pub fn end_frame(&mut self, cursor: Option<Point>) -> (res: ShapeTestStep)
        ensures
            *final(self) == (ShapeTest {
                tracking_active: old(self).tracking_active || cursor is Some,
                ..*old(self)
            }),
            res == (ShapeTestStep {
                show_frame: !old(self).tracking_active && cursor is None,
                report: old(self).frame_count % 30 == 0,
                move_to: cursor,
            }),
    {
        if cursor.is_some() {
            self.tracking_active = true;
        }
        ShapeTestStep {
            show_frame: !self.tracking_active,
            report: self.frame_count % 30 == 0,
            move_to: cursor,
        }
    }
}

/// A frame that is padded fills a screen exactly, except where it is larger already, and lies in
/// the middle of it.
pub proof fn law_padded_frame_fills_the_screen(size: int, target: int)
    requires
        0 <= size,
        0 <= target,
    ensures
        ({
            let (before, after) = padding(size, target);
            &&& before >= 0
            &&& after >= 0
            &&& before <= after <= before + 1
            &&& size + before + after == if size >= target {
                size
            } else {
                target
            }
        }),
{
}

/// A screen is 1366 pixels wide and 768 high, and a frame that is smaller is padded up to that.
pub proof fn law_screens_have_one_size(width: int, height: int)
    requires
        0 <= width <= 1366,
        0 <= height <= 768,
    ensures
        ({
            let (left, right) = padding(width, GAME_WIDTH as int);
            let (top, bottom) = padding(height, GAME_HEIGHT as int);
            &&& left + width + right == 1366
            &&& top + height + bottom == 768
        }),
{
}

} // verus!
