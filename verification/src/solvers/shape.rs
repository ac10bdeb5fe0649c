//! Following the one shape that moves against all others.

use vstd::prelude::*;

use crate::geometry::{
    distance_squared, half, halve, mid_point, root, square_root, squared_distance, Point, Rect,
};
use crate::solvers::angles::ANGLE_WINDOW;

verus! {

/// Frames to use slow cursor transition after a distant track switch.
pub const CURSOR_SMOOTHING_SLOW_FRAMES: u32 = 10;

/// How many frames apart it is checked whether another shape rotates more strongly.
pub const ROTATION_CHECK_INTERVAL: u64 = 15;

/// How often another shape must turn out to be the best one again before it is followed instead.
pub const SWITCH_FRAMES: u32 = 4;

/// For how many frames a shape must have been followed to tell how the background moves.
pub const BACKGROUND_TRACKLET_LEN: u64 = 5;

/// How many shapes are needed to tell how the background moves.
pub const BACKGROUND_TRACKS: usize = 3;

/// A shape as it is seen in one frame.
#[derive(Clone, Copy, PartialEq, Eq, Debug, Structural)]
pub struct ShapeTrack {
    pub track_id: u64,
    /// Where it is inside of the region.
    pub rect: Rect,
    /// For how many frames it has been followed.
    pub tracklet_len: u64,
    /// How far it is expected to go until it is seen again.
    pub step: Point,
    /// How much it has rotated lately: the more, the larger.
    pub drift: u64,
}

impl ShapeTrack {
    /// How many pixels its middle is away from a point.
    pub open spec fn distance(self, point: Point) -> int {
        let squared = squared_distance(point, self.rect.middle());
        if squared >= 0x4000_0000_0000_0000 {
            i32::MAX as int
        } else {
            root(squared) as int
        }
    }

    /// Whether its middle is at least as far away from a point as its corners are from each other.
    pub open spec fn is_far_from(self, point: Point) -> bool {
        squared_distance(self.rect.middle(), point) >= self.rect.width * self.rect.width
            + self.rect.height * self.rect.height
    }

    fn distance_to(&self, point: Point) -> (res: i64)
        requires
            self.rect.has_middle(),
        ensures
            res == self.distance(point),
    {
        let squared: u128 = distance_squared(point, mid_point(self.rect));
        if squared >= 0x4000_0000_0000_0000 {
            i32::MAX as i64
        } else {
            square_root(squared as u64) as i64
        }
    }

    fn far_from(&self, point: Point) -> (res: bool)
        requires
            self.rect.has_middle(),
        ensures
            res == self.is_far_from(point),
    {
        let squared: u128 = distance_squared(mid_point(self.rect), point);
        let corner: Point = Point { x: self.rect.width, y: self.rect.height };
        let zero: Point = Point { x: 0, y: 0 };
        proof {
            let (w, h) = (self.rect.width as int, self.rect.height as int);
            assert(w * w + h * h >= 0) by (nonlinear_arith);
        }
        squared >= distance_squared(corner, zero)
    }
}

/// Whether the middle of every shape can be represented.
pub open spec fn have_middles(tracks: Seq<ShapeTrack>) -> bool {
    forall|i: int| 0 <= i < tracks.len() ==> (#[trigger] tracks[i]).rect.has_middle()
}

/// The middle of a region, measured from its corner.
pub open spec fn center(region: Rect) -> Point {
    Point { x: half(region.width as int) as i32, y: half(region.height as int) as i32 }
}

#[derive(Clone, Copy, PartialEq, Eq, Debug, Structural)]
pub struct TransparentShapeSolver {
    pub current_track_id: Option<u64>,
    pub candidate_track_id: Option<u64>,
    pub candidate_track_count: u32,
    /// The cursor inside of the region.
    pub last_cursor: Option<Point>,
    /// How far the shape under the cursor is expected to go until it is seen again.
    pub last_step: Option<Point>,
    /// How many consecutive frames the current track has been followed.
    pub current_track_tenure: u32,
    /// Countdown of frames to use slow cursor smoothing after a track switch.
    pub slow_smoothing_remaining: u32,
}

impl Default for TransparentShapeSolver {
    fn default() -> (res: Self)
        ensures
            res == (TransparentShapeSolver {
                current_track_id: None,
                candidate_track_id: None,
                candidate_track_count: 0,
                last_cursor: None,
                last_step: None,
                current_track_tenure: 0,
                slow_smoothing_remaining: 0,
            }),
            res.wf(),
    {
        TransparentShapeSolver {
            current_track_id: None,
            candidate_track_id: None,
            candidate_track_count: 0,
            last_cursor: None,
            last_step: None,
            current_track_tenure: 0,
            slow_smoothing_remaining: 0,
        }
    }
}

/// The first of those among the first `count` shapes that are closest to a point.
pub open spec fn closest_of(point: Point, tracks: Seq<ShapeTrack>, count: nat) -> int
    decreases count,
{
    if count <= 1 {
        0
    } else {
        let before = closest_of(point, tracks, (count - 1) as nat);
        if tracks[count - 1].distance(point) < tracks[before].distance(point) {
            count - 1
        } else {
            before
        }
    }
}

/// The last of those among the first `count` shapes that rotate most strongly.
pub open spec fn most_rotating_of(tracks: Seq<ShapeTrack>, count: nat) -> int
    decreases count,
{
    if count <= 1 {
        0
    } else {
        let before = most_rotating_of(tracks, (count - 1) as nat);
        if tracks[count - 1].drift >= tracks[before].drift {
            count - 1
        } else {
            before
        }
    }
}

/// No shape is closer to a point than the one picked, and none before it is as close.
pub proof fn law_closest_is_first_of_the_closest(point: Point, tracks: Seq<ShapeTrack>, count: nat)
    requires
        1 <= count <= tracks.len(),
    ensures
        0 <= closest_of(point, tracks, count) < count,
        forall|j: int|
            0 <= j < count ==> tracks[closest_of(point, tracks, count)].distance(point) <= (
            #[trigger] tracks[j]).distance(point),
        forall|j: int|
            0 <= j < closest_of(point, tracks, count) ==> tracks[closest_of(
                point,
                tracks,
                count,
            )].distance(point) < (#[trigger] tracks[j]).distance(point),
    decreases count,
{
    if count > 1 {
        law_closest_is_first_of_the_closest(point, tracks, (count - 1) as nat);
    }
}

/// No shape rotates more strongly than the one picked, and none after it as strongly.
pub proof fn law_most_rotating_is_last_of_the_strongest(tracks: Seq<ShapeTrack>, count: nat)
    requires
        1 <= count <= tracks.len(),
    ensures
        0 <= most_rotating_of(tracks, count) < count,
        forall|j: int|
            0 <= j < count ==> tracks[most_rotating_of(tracks, count)].drift >= (
            #[trigger] tracks[j]).drift,
        forall|j: int|
            most_rotating_of(tracks, count) < j < count ==> tracks[most_rotating_of(
                tracks,
                count,
            )].drift > (#[trigger] tracks[j]).drift,
    decreases count,
{
    if count > 1 {
        law_most_rotating_is_last_of_the_strongest(tracks, (count - 1) as nat);
    }
}

/// The shape to begin with.
pub open spec fn initial_of(region: Rect, tracks: Seq<ShapeTrack>, has_history: bool) -> int {
    if has_history {
        most_rotating_of(tracks, tracks.len())
    } else {
        closest_of(center(region), tracks, tracks.len())
    }
}

/// Finds the first shape among those closest to a point.
pub fn find_track_closest_to(point: Point, tracks: &Vec<ShapeTrack>) -> (res: Option<usize>)
    requires
        have_middles(tracks@),
    ensures
        match res {
            Some(i) => i < tracks@.len() && i == closest_of(point, tracks@, tracks@.len()),
            None => tracks@.len() == 0,
        },
{
    if tracks.len() == 0 {
        return None;
    }
    let mut best: usize = 0;
    let mut i: usize = 1;
    while i < tracks.len()
        invariant
            1 <= i <= tracks@.len(),
            best < i,
            best == closest_of(point, tracks@, i as nat),
            have_middles(tracks@),
        decreases tracks@.len() - i,
    {
        assert(tracks@[i as int].rect.has_middle() && tracks@[best as int].rect.has_middle());
        if tracks[i].distance_to(point) < tracks[best].distance_to(point) {
            best = i;
        }
        i = i + 1;
    }
    Some(best)
}

fn find_most_rotating(tracks: &Vec<ShapeTrack>) -> (res: Option<usize>)
    ensures
        match res {
            Some(i) => i < tracks@.len() && i == most_rotating_of(tracks@, tracks@.len()),
            None => tracks@.len() == 0,
        },
{
    if tracks.len() == 0 {
        return None;
    }
    let mut best: usize = 0;
    let mut i: usize = 1;
    while i < tracks.len()
        invariant
            1 <= i <= tracks@.len(),
            best < i,
            best == most_rotating_of(tracks@, i as nat),
        decreases tracks@.len() - i,
    {
        if tracks[i].drift >= tracks[best].drift {
            best = i;
        }
        i = i + 1;
    }
    Some(best)
}

/// The first entry with the largest number among the first `count`.
pub open spec fn leader_of(scores: Seq<(u64, u64)>, count: nat) -> int
    decreases count,
{
    if count <= 1 {
        0
    } else {
        let before = leader_of(scores, (count - 1) as nat);
        if scores[count - 1].1 > scores[before].1 {
            count - 1
        } else {
            before
        }
    }
}

/// Finds the track, given with how strongly it rotates, that rotates most strongly.
pub fn leading_rotation(scores: &Vec<(u64, u64)>) -> (res: Option<usize>)
    ensures
        match res {
            Some(i) => i < scores@.len() && i == leader_of(scores@, scores@.len()),
            None => scores@.len() == 0,
        },
{
    if scores.len() == 0 {
        return None;
    }
    let mut best: usize = 0;
    let mut i: usize = 1;
    while i < scores.len()
        invariant
            1 <= i <= scores@.len(),
            best < i,
            best == leader_of(scores@, i as nat),
        decreases scores@.len() - i,
    {
        if scores[i].1 > scores[best].1 {
            best = i;
        }
        i = i + 1;
    }
    Some(best)
}

/// The track that rotates most strongly.
#[derive(Clone, Copy, PartialEq, Eq, Debug, Structural)]
pub struct RotationLead {
    pub track_id: u64,
    /// Whether it rotates at all, and more than twice as strongly as the current track.
    pub clear: bool,
}

/// What is seen and known of the shapes in one frame.
#[derive(Debug)]
pub struct SeenShapes {
    pub tracks: Vec<ShapeTrack>,
    /// Whether the angles of some shape are known for long enough.
    pub has_history: bool,
    /// The number of the frame.
    pub call: u64,
    pub lead: Option<RotationLead>,
    /// How well each shape stands out from the background, where that can be told.
    pub scores: Vec<Option<u64>>,
}

/// Which shapes tell how the background moves, and which one is under the cursor.
pub struct Background {
    pub under_cursor: Option<Rect>,
    pub indices: Seq<usize>,
}

/// Whether a shape that is neither new nor on top of the one under the cursor stands out.
pub open spec fn background_after(
    before: Background,
    track: ShapeTrack,
    index: usize,
    cursor: Option<Point>,
) -> Background {
    if track.tracklet_len < BACKGROUND_TRACKLET_LEN {
        before
    } else if before.under_cursor is Some && before.under_cursor->0.meets(track.rect) {
        before
    } else {
        match cursor {
            None => Background { indices: before.indices.push(index), ..before },
            Some(cursor) => if track.rect.has(cursor) {
                Background {
                    under_cursor: if before.under_cursor is None {
                        Some(track.rect)
                    } else {
                        before.under_cursor
                    },
                    ..before
                }
            } else if track.is_far_from(cursor) {
                Background { indices: before.indices.push(index), ..before }
            } else {
                before
            },
        }
    }
}

/// What the first `count` shapes say of the background.
pub open spec fn background_of(tracks: Seq<ShapeTrack>, cursor: Option<Point>, count: nat) -> Background
    decreases count,
{
    if count == 0 {
        Background { under_cursor: None, indices: seq![] }
    } else {
        background_after(
            background_of(tracks, cursor, (count - 1) as nat),
            tracks[count - 1],
            (count - 1) as usize,
            cursor,
        )
    }
}

/// The shapes whose movement tells how the background moves. Shapes that are new, under the
/// cursor or close to it are left out, and with fewer than three nothing can be told.
pub fn background_tracks(last_cursor: Option<Point>, tracks: &Vec<ShapeTrack>) -> (res: Option<
    Vec<usize>,
>)
    requires
        have_middles(tracks@),
    ensures
        ({
            let indices = background_of(tracks@, last_cursor, tracks@.len()).indices;
            match res {
                Some(found) => found@ == indices && indices.len() >= BACKGROUND_TRACKS,
                None => indices.len() < BACKGROUND_TRACKS,
            }
        }),
{
    let mut under_cursor: Option<Rect> = None;
    let mut indices: Vec<usize> = Vec::new();
    let mut i: usize = 0;
    while i < tracks.len()
        invariant
            i <= tracks@.len(),
            under_cursor == background_of(tracks@, last_cursor, i as nat).under_cursor,
            indices@ == background_of(tracks@, last_cursor, i as nat).indices,
            have_middles(tracks@),
        decreases tracks@.len() - i,
    {
        let track: ShapeTrack = tracks[i];
        assert(tracks@[i as int].rect.has_middle());
        let covered: bool = match under_cursor {
            Some(rect) => rect.overlaps(track.rect),
            None => false,
        };
        if track.tracklet_len >= BACKGROUND_TRACKLET_LEN && !covered {
            match last_cursor {
                None => indices.push(i),
                Some(cursor) => {
                    if track.rect.contains(cursor) {
                        if under_cursor.is_none() {
                            under_cursor = Some(track.rect);
                        }
                    } else if track.far_from(cursor) {
                        indices.push(i);
                    }
                },
            }
        }
        i = i + 1;
    }
    if indices.len() < BACKGROUND_TRACKS {
        None
    } else {
        Some(indices)
    }
}

impl TransparentShapeSolver {
    /// A cursor comes with where it will go, and no other shape has been the best one often enough
    /// to be followed.
    pub open spec fn wf(self) -> bool {
        &&& self.last_cursor is Some ==> self.last_step is Some
        &&& self.candidate_track_count < SWITCH_FRAMES
    }

    /// The solver once a shape to begin with was chosen.
    pub open spec fn with_initial(
        self,
        region: Rect,
        tracks: Seq<ShapeTrack>,
        has_history: bool,
    ) -> Self {
        if self.current_track_id is Some || tracks.len() == 0 {
            self
        } else {
            let track = tracks[initial_of(region, tracks, has_history)];
            TransparentShapeSolver {
                current_track_id: Some(track.track_id),
                last_cursor: Some(track.rect.middle()),
                last_step: Some(track.step),
                ..self
            }
        }
    }

    /// The solver once it was checked whether another shape rotates more strongly.
    pub open spec fn with_rotation(self, call: u64, lead: Option<RotationLead>) -> Self {
        match (self.current_track_id, lead) {
            (Some(current), Some(lead)) if call % ROTATION_CHECK_INTERVAL == 0 && lead.track_id
                != current && lead.clear && self.current_track_tenure > ANGLE_WINDOW =>
                TransparentShapeSolver {
                current_track_id: Some(lead.track_id),
                current_track_tenure: 0,
                slow_smoothing_remaining: CURSOR_SMOOTHING_SLOW_FRAMES,
                ..self
            },
            _ => self,
        }
    }

    /// Whether a shape may be followed: it has a score and is not seen for the first time, unless
    /// it is the current one.
    pub open spec fn eligible(self, track: ShapeTrack, score: Option<u64>) -> bool {
        &&& Some(track.track_id) == self.current_track_id || track.tracklet_len >= 1
        &&& score is Some
    }

    /// The last of the best shapes among the first `count`.
    pub open spec fn best_of(self, tracks: Seq<ShapeTrack>, scores: Seq<Option<u64>>, count: nat) -> Option<
        int,
    >
        decreases count,
    {
        if count == 0 {
            None
        } else {
            let before = self.best_of(tracks, scores, (count - 1) as nat);
            if self.eligible(tracks[count - 1], scores[count - 1]) && (before is None
                || scores[count - 1]->0 >= scores[before->0]->0) {
                Some(count - 1)
            } else {
                before
            }
        }
    }

    /// The first of the shapes from `start` on with that id.
    pub open spec fn find(tracks: Seq<ShapeTrack>, track_id: u64, start: int) -> Option<int>
        decreases tracks.len() - start,
    {
        if 0 <= start < tracks.len() {
            if tracks[start].track_id == track_id {
                Some(start)
            } else {
                Self::find(tracks, track_id, start + 1)
            }
        } else {
            None
        }
    }

    pub open spec fn one_more_frame(self) -> Self {
        TransparentShapeSolver {
            current_track_tenure: (self.current_track_tenure + 1) as u32,
            ..self
        }
    }

    /// The current shape is followed on, as long as it is still there.
    pub open spec fn stayed(self, tracks: Seq<ShapeTrack>, current: u64) -> (Self, Option<int>) {
        match Self::find(tracks, current, 0) {
            Some(i) => (self.one_more_frame(), Some(i)),
            None => (self, None),
        }
    }

    /// Another shape was the best one in this frame.
    pub open spec fn challenged(self, track_id: u64) -> Self {
        if self.candidate_track_id == Some(track_id) {
            TransparentShapeSolver {
                candidate_track_count: (self.candidate_track_count + 1) as u32,
                ..self
            }
        } else {
            TransparentShapeSolver {
                candidate_track_id: Some(track_id),
                candidate_track_count: 0,
                ..self
            }
        }
    }

    /// Which shape is followed in this frame.
    pub open spec fn best_found(
        self,
        tracks: Seq<ShapeTrack>,
        scores: Seq<Option<u64>>,
        switch_threshold: u64,
    ) -> (Self, Option<int>) {
        if self.current_track_id is None || self.last_cursor is None {
            (self, None)
        } else {
            let current = self.current_track_id->0;
            match self.best_of(tracks, scores, tracks.len()) {
                None => self.stayed(tracks, current),
                Some(i) => if tracks[i].track_id == current {
                    (
                        TransparentShapeSolver {
                            candidate_track_id: None,
                            candidate_track_count: 0,
                            ..self.one_more_frame()
                        },
                        Some(i),
                    )
                } else if scores[i]->0 < switch_threshold {
                    (self, None)
                } else {
                    let challenged = self.challenged(tracks[i].track_id);
                    if challenged.candidate_track_count >= SWITCH_FRAMES {
                        (
                            TransparentShapeSolver {
                                current_track_tenure: 0,
                                candidate_track_id: None,
                                candidate_track_count: 0,
                                slow_smoothing_remaining: CURSOR_SMOOTHING_SLOW_FRAMES,
                                ..self
                            },
                            Some(i),
                        )
                    } else {
                        challenged.stayed(tracks, current)
                    }
                },
            }
        }
    }

    /// The solver and where the cursor goes in this frame.
    pub open spec fn followed(
        self,
        tracks: Seq<ShapeTrack>,
        scores: Seq<Option<u64>>,
        switch_threshold: u64,
        region: Rect,
    ) -> (Self, Option<Point>) {
        let (next, found) = self.best_found(tracks, scores, switch_threshold);
        match found {
            Some(i) => {
                let cursor = tracks[i].rect.middle();
                (
                    TransparentShapeSolver {
                        current_track_id: Some(tracks[i].track_id),
                        last_cursor: Some(cursor),
                        last_step: Some(tracks[i].step),
                        ..next
                    },
                    Some(region.top_left().shifted(cursor)),
                )
            },
            None => match next.last_cursor {
                None => (next, None),
                Some(last_cursor) => {
                    let cursor = last_cursor.shifted(next.last_step->0);
                    let absolute = region.top_left().shifted(cursor);
                    if region.has(absolute) {
                        (
                            TransparentShapeSolver { last_cursor: Some(cursor), ..next },
                            Some(absolute),
                        )
                    } else {
                        (next, None)
                    }
                },
            },
        }
    }

    /// The solver before it follows a shape in a frame: with a shape to begin with, or with another
    /// one that rotates more strongly.
    pub open spec fn prepared(self, region: Rect, seen: SeenShapes) -> Self {
        self.with_initial(region, seen.tracks@, seen.has_history).with_rotation(
            seen.call,
            seen.lead,
        )
    }

    /// The solver after a whole frame, and where the cursor goes.
    pub open spec fn framed(self, region: Rect, seen: SeenShapes, switch_threshold: u64) -> (
        Self,
        Option<Point>,
    ) {
        self.prepared(region, seen).followed(
            seen.tracks@,
            seen.scores@,
            switch_threshold,
            region,
        )
    }

    /// Whether all points involved can be represented.
    pub open spec fn fits(self, tracks: Seq<ShapeTrack>, region: Rect) -> bool {
        &&& forall|i: int|
            0 <= i < tracks.len() ==> (#[trigger] tracks[i]).rect.has_middle()
                && region.top_left().can_shift(tracks[i].rect.middle())
        &&& match (self.last_cursor, self.last_step) {
            (Some(cursor), Some(step)) => cursor.can_shift(step) && region.top_left().can_shift(
                cursor.shifted(step),
            ),
            _ => true,
        }
    }

    /// Chooses a shape to begin with, if none is followed. With enough history the one that
    /// rotates most strongly is preferred, otherwise the one closest to the middle.
    pub fn update_initial_track_if_needed(
        &mut self,
        region: Rect,
        tracks: &Vec<ShapeTrack>,
        has_history: bool,
    )
        requires
            have_middles(tracks@),
        ensures
            *final(self) == old(self).with_initial(region, tracks@, has_history),
            old(self).wf() ==> final(self).wf(),
    {
        if self.current_track_id.is_some() {
            return;
        }
        let picked: Option<usize> = if has_history {
            find_most_rotating(tracks)
        } else {
            let middle: Point = Point { x: halve(region.width), y: halve(region.height) };
            find_track_closest_to(middle, tracks)
        };
        if let Some(i) = picked {
            assert(tracks@[i as int].rect.has_middle());
            self.current_track_id = Some(tracks[i].track_id);
            self.last_cursor = Some(mid_point(tracks[i].rect));
            self.last_step = Some(tracks[i].step);
        }
    }

    /// Periodically switches to a track with a much stronger rotation signal.
    pub fn check_rotation(&mut self, call: u64, lead: Option<RotationLead>)
        ensures
            *final(self) == old(self).with_rotation(call, lead),
            old(self).wf() ==> final(self).wf(),
    {
        if call % ROTATION_CHECK_INTERVAL != 0 {
            return;
        }
        if let Some(current_id) = self.current_track_id {
            if let Some(lead) = lead {
                if lead.track_id != current_id && lead.clear && self.current_track_tenure
                    > ANGLE_WINDOW as u32 {
                    self.current_track_id = Some(lead.track_id);
                    self.current_track_tenure = 0;
                    self.slow_smoothing_remaining = CURSOR_SMOOTHING_SLOW_FRAMES;
                }
            }
        }
    }

    fn find_best(&self, tracks: &Vec<ShapeTrack>, scores: &Vec<Option<u64>>) -> (res: Option<usize>)
        requires
            scores@.len() == tracks@.len(),
        ensures
            match (res, self.best_of(tracks@, scores@, tracks@.len())) {
                (Some(i), Some(j)) => i == j && i < tracks@.len() && scores@[j] is Some,
                (None, None) => true,
                _ => false,
            },
    {
        let mut best: Option<usize> = None;
        let mut i: usize = 0;
        while i < tracks.len()
            invariant
                i <= tracks@.len(),
                scores@.len() == tracks@.len(),
                match (best, self.best_of(tracks@, scores@, i as nat)) {
                    (Some(a), Some(b)) => a == b && a < i && scores@[b] is Some,
                    (None, None) => true,
                    _ => false,
                },
            decreases tracks@.len() - i,
        {
            let eligible: bool = match self.current_track_id {
                Some(current) => tracks[i].track_id == current || tracks[i].tracklet_len >= 1,
                None => tracks[i].tracklet_len >= 1,
            };
            if eligible {
                if let Some(score) = scores[i] {
                    let better: bool = match best {
                        None => true,
                        Some(b) => match scores[b] {
                            Some(best_score) => score >= best_score,
                            None => true,
                        },
                    };
                    if better {
                        best = Some(i);
                    }
                }
            }
            i = i + 1;
        }
        best
    }

    fn find_current(tracks: &Vec<ShapeTrack>, current: u64) -> (res: Option<usize>)
        ensures
            match (res, Self::find(tracks@, current, 0)) {
                (Some(i), Some(j)) => i == j && i < tracks@.len(),
                (None, None) => true,
                _ => false,
            },
    {
        let mut i: usize = 0;
        while i < tracks.len()
            invariant
                i <= tracks@.len(),
                Self::find(tracks@, current, i as int) == Self::find(tracks@, current, 0),
            decreases tracks@.len() - i,
        {
            if tracks[i].track_id == current {
                return Some(i);
            }
            i = i + 1;
        }
        None
    }

    /// Finds the shape to follow in this frame.
    ///
    /// Another shape than the current one is followed only after it has been the best one in
    /// several frames, with no third one in between.
    pub fn update_and_find_best_track(
        &mut self,
        tracks: &Vec<ShapeTrack>,
        scores: &Vec<Option<u64>>,
        switch_threshold: u64,
    ) -> (res: Option<usize>)
        requires
            old(self).wf(),
            old(self).current_track_tenure < u32::MAX,
            scores@.len() == tracks@.len(),
        ensures
            ({
                let (next, found) = old(self).best_found(tracks@, scores@, switch_threshold);
                &&& *final(self) == next
                &&& match (res, found) {
                    (Some(i), Some(j)) => i == j && i < tracks@.len(),
                    (None, None) => true,
                    _ => false,
                }
            }),
            final(self).wf(),
    {
        let current: u64 = match self.current_track_id {
            Some(current) => current,
            None => {
                return None;
            },
        };
        if self.last_cursor.is_none() {
            return None;
        }
        if let Some(i) = self.find_best(tracks, scores) {
            let track: ShapeTrack = tracks[i];
            if track.track_id == current {
                self.current_track_tenure = self.current_track_tenure + 1;
                self.candidate_track_id = None;
                self.candidate_track_count = 0;
                return Some(i);
            }
            // If the best candidate is a big jump with low penalized score,
            // don't switch but extrapolate from last known position instead.
            let score: u64 = scores[i].unwrap();
            if score < switch_threshold {
                return None;
            }
            if self.candidate_track_id == Some(track.track_id) {
                self.candidate_track_count = self.candidate_track_count + 1;
            } else {
                self.candidate_track_id = Some(track.track_id);
                self.candidate_track_count = 0;
            }
            if self.candidate_track_count >= SWITCH_FRAMES {
                self.current_track_tenure = 0;
                self.candidate_track_id = None;
                self.candidate_track_count = 0;
                self.slow_smoothing_remaining = CURSOR_SMOOTHING_SLOW_FRAMES;
                return Some(i);
            }
        }
        // Current track still in list but didn't win the scoring.
        // Still prefer it over switching to prevent oscillation.
        match Self::find_current(tracks, current) {
            Some(i) => {
                self.current_track_tenure = self.current_track_tenure + 1;
                Some(i)
            },
            None => None,
        }
    }

    /// Follows the best shape and returns where the cursor goes. Where no shape is to be
    /// followed, the cursor goes on as before, but does not leave the region.
    ///
    /// This comes last in a frame, after [`Self::update_initial_track_if_needed`] and
    /// [`Self::check_rotation`], as the scores depend on the current shape.
    pub fn solve(
        &mut self,
        tracks: &Vec<ShapeTrack>,
        scores: &Vec<Option<u64>>,
        switch_threshold: u64,
        region: Rect,
    ) -> (res: Option<Point>)
        requires
            old(self).wf(),
            old(self).current_track_tenure < u32::MAX,
            scores@.len() == tracks@.len(),
            old(self).fits(tracks@, region),
        ensures
            (*final(self), res) == old(self).followed(tracks@, scores@, switch_threshold, region),
            final(self).wf(),
    {
        match self.update_and_find_best_track(tracks, scores, switch_threshold) {
            Some(i) => {
                assert(tracks@[i as int].rect.has_middle());
                let cursor: Point = mid_point(tracks[i].rect);
                let absolute: Point = region.tl().shift(cursor);
                self.current_track_id = Some(tracks[i].track_id);
                self.last_cursor = Some(cursor);
                self.last_step = Some(tracks[i].step);
                Some(absolute)
            },
            None => {
                let last_cursor: Point = match self.last_cursor {
                    Some(last_cursor) => last_cursor,
                    None => {
                        return None;
                    },
                };
                let next_cursor: Point = last_cursor.shift(self.last_step.unwrap());
                let absolute_next_cursor: Point = region.tl().shift(next_cursor);
                if !region.contains(absolute_next_cursor) {
                    return None;
                }
                self.last_cursor = Some(next_cursor);
                Some(absolute_next_cursor)
            },
        }
    }
}

impl TransparentShapeSolver {
    /// Goes through one whole frame and returns where the cursor goes.
    pub fn solve_frame(&mut self, region: Rect, seen: &SeenShapes, switch_threshold: u64) -> (res:
        Option<Point>)
        requires
            old(self).wf(),
            old(self).current_track_tenure < u32::MAX,
            seen.scores@.len() == seen.tracks@.len(),
            old(self).prepared(region, *seen).fits(seen.tracks@, region),
        ensures
            (*final(self), res) == old(self).framed(region, *seen, switch_threshold),
            final(self).wf(),
    {
        self.update_initial_track_if_needed(region, &seen.tracks, seen.has_history);
        self.check_rotation(seen.call, seen.lead);
        self.solve(&seen.tracks, &seen.scores, switch_threshold, region)
    }
}

/// As soon as there are shapes, one of them is followed from then on, whatever frames are to come.
pub proof fn law_a_shape_is_followed_from_the_first_on(
    solver: TransparentShapeSolver,
    region: Rect,
    seen: SeenShapes,
    switch_threshold: u64,
)
    requires
        solver.current_track_id is Some || seen.tracks@.len() > 0,
    ensures
        solver.framed(region, seen, switch_threshold).0.current_track_id is Some,
{
}

/// Whatever is seen, the cursor only ever leaves the region together with a shape.
pub proof fn law_extrapolated_cursor_stays_in_the_region(
    solver: TransparentShapeSolver,
    tracks: Seq<ShapeTrack>,
    scores: Seq<Option<u64>>,
    switch_threshold: u64,
    region: Rect,
)
    requires
        solver.best_found(tracks, scores, switch_threshold).1 is None,
        solver.followed(tracks, scores, switch_threshold, region).1 is Some,
    ensures
        region.has(solver.followed(tracks, scores, switch_threshold, region).1->0),
{
}

/// A shape is left for another one only where that other one is the candidate already, and once
/// more is all that it takes.
pub proof fn law_shape_is_not_left_at_once(
    solver: TransparentShapeSolver,
    tracks: Seq<ShapeTrack>,
    scores: Seq<Option<u64>>,
    switch_threshold: u64,
)
    requires
        solver.wf(),
        solver.current_track_id is Some,
        solver.best_found(tracks, scores, switch_threshold).1 matches Some(i)
            && tracks[i].track_id != solver.current_track_id->0,
    ensures
        solver.candidate_track_count == SWITCH_FRAMES - 1,
        solver.candidate_track_id == Some(
            tracks[solver.best_found(tracks, scores, switch_threshold).1->0].track_id,
        ),
{
    lemma_find(tracks, solver.current_track_id->0, 0);
}

proof fn lemma_find(tracks: Seq<ShapeTrack>, track_id: u64, start: int)
    requires
        0 <= start,
    ensures
        TransparentShapeSolver::find(tracks, track_id, start) matches Some(i) ==> start <= i
            < tracks.len() && tracks[i].track_id == track_id,
    decreases tracks.len() - start,
{
    if start < tracks.len() {
        lemma_find(tracks, track_id, start + 1);
    }
}

} // verus!
