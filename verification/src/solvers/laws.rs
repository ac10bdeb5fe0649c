//! Which shape the cursor stays on, and when it changes to another one.

use vstd::prelude::*;

use crate::geometry::{root, Point, Rect};
use crate::solvers::angles::slid;
use crate::solvers::shape::{
    background_of, initial_of, law_closest_is_first_of_the_closest,
    law_most_rotating_is_last_of_the_strongest, leader_of, RotationLead, ShapeTrack,
    TransparentShapeSolver, BACKGROUND_TRACKS,
};

verus! {

/// Whether a shape takes part in a frame at all: it has a score, and it was seen before or is the
/// one that is followed.
pub open spec fn takes_part(
    solver: TransparentShapeSolver,
    tracks: Seq<ShapeTrack>,
    scores: Seq<Option<u64>>,
    i: int,
) -> bool {
    &&& scores[i] is Some
    &&& tracks[i].tracklet_len >= 1 || Some(tracks[i].track_id) == solver.current_track_id
}

/// Whether a shape takes part, none that does has a higher score, and none after it as high a one.
pub open spec fn is_best(
    solver: TransparentShapeSolver,
    tracks: Seq<ShapeTrack>,
    scores: Seq<Option<u64>>,
    i: int,
) -> bool {
    &&& 0 <= i < tracks.len()
    &&& takes_part(solver, tracks, scores, i)
    &&& forall|j: int|
        0 <= j < tracks.len() && #[trigger] takes_part(solver, tracks, scores, j) ==> {
            &&& scores[j]->0 <= scores[i]->0
            &&& j > i ==> scores[j]->0 < scores[i]->0
        }
}

/// Whether the shape at `i` is the first one with that name.
pub open spec fn is_first_named(tracks: Seq<ShapeTrack>, track_id: u64, i: int) -> bool {
    &&& 0 <= i < tracks.len()
    &&& tracks[i].track_id == track_id
    &&& forall|j: int| 0 <= j < i ==> (#[trigger] tracks[j]).track_id != track_id
}

proof fn lemma_no_best(
    solver: TransparentShapeSolver,
    tracks: Seq<ShapeTrack>,
    scores: Seq<Option<u64>>,
    count: nat,
)
    requires
        count <= tracks.len(),
        forall|j: int| 0 <= j < count ==> !#[trigger] takes_part(solver, tracks, scores, j),
    ensures
        solver.best_of(tracks, scores, count) is None,
    decreases count,
{
    if count > 0 {
        lemma_no_best(solver, tracks, scores, (count - 1) as nat);
        assert(!takes_part(solver, tracks, scores, count - 1));
    }
}

proof fn lemma_best(
    solver: TransparentShapeSolver,
    tracks: Seq<ShapeTrack>,
    scores: Seq<Option<u64>>,
    count: nat,
    i: int,
)
    requires
        is_best(solver, tracks, scores, i),
        count <= tracks.len(),
    ensures
        i < count ==> solver.best_of(tracks, scores, count) == Some(i),
        i >= count ==> (solver.best_of(tracks, scores, count) matches Some(b) ==> 0 <= b < count
            && takes_part(solver, tracks, scores, b)),
    decreases count,
{
    if count > 0 {
        lemma_best(solver, tracks, scores, (count - 1) as nat, i);
        assert(solver.eligible(tracks[count - 1], scores[count - 1]) == takes_part(
            solver,
            tracks,
            scores,
            count - 1,
        ));
        if let Some(b) = solver.best_of(tracks, scores, (count - 1) as nat) {
            assert(takes_part(solver, tracks, scores, b));
        }
    }
}

proof fn lemma_found(tracks: Seq<ShapeTrack>, track_id: u64, i: int, start: int)
    requires
        is_first_named(tracks, track_id, i),
        0 <= start <= i,
    ensures
        TransparentShapeSolver::find(tracks, track_id, start) == Some(i),
    decreases i - start,
{
    if start < i {
        assert(tracks[start].track_id != track_id);
        lemma_found(tracks, track_id, i, start + 1);
    }
}

proof fn lemma_not_found(tracks: Seq<ShapeTrack>, track_id: u64, start: int)
    requires
        forall|j: int| 0 <= j < tracks.len() ==> (#[trigger] tracks[j]).track_id != track_id,
        0 <= start,
    ensures
        TransparentShapeSolver::find(tracks, track_id, start) is None,
    decreases tracks.len() - start,
{
    if start < tracks.len() {
        assert(tracks[start].track_id != track_id);
        lemma_not_found(tracks, track_id, start + 1);
    }
}

/// Where no shape has a score, the shape that is followed is followed on as long as it is in sight:
/// the cursor goes to its middle, and it has been followed for one frame more.
pub proof fn law_shape_in_sight_is_followed_on(
    solver: TransparentShapeSolver,
    tracks: Seq<ShapeTrack>,
    scores: Seq<Option<u64>>,
    switch_threshold: u64,
    region: Rect,
    i: int,
)
    requires
        solver.current_track_id is Some,
        solver.last_cursor is Some,
        solver.current_track_tenure < u32::MAX,
        is_first_named(tracks, solver.current_track_id->0, i),
        scores.len() == tracks.len(),
        forall|j: int| 0 <= j < scores.len() ==> #[trigger] scores[j] is None,
        region.top_left().can_shift(tracks[i].rect.middle()),
    ensures
        ({
            let (after, cursor) = solver.followed(tracks, scores, switch_threshold, region);
            let middle = tracks[i].rect.middle();
            &&& cursor matches Some(point)
            &&& point.x == region.x + middle.x
            &&& point.y == region.y + middle.y
            &&& after.last_cursor == Some(middle)
            &&& after.last_step == Some(tracks[i].step)
            &&& after.current_track_id == solver.current_track_id
            &&& after.current_track_tenure == solver.current_track_tenure + 1
            &&& after.candidate_track_id == solver.candidate_track_id
            &&& after.candidate_track_count == solver.candidate_track_count
        }),
{
    assert forall|j: int| 0 <= j < tracks.len() implies !#[trigger] takes_part(
        solver,
        tracks,
        scores,
        j,
    ) by {
        assert(scores[j] is None);
    }
    lemma_no_best(solver, tracks, scores, tracks.len());
    lemma_found(tracks, solver.current_track_id->0, i, 0);
}

/// The shape that is followed, where it is the best one, is followed on, and no other one is a
/// candidate any more.
pub proof fn law_best_shape_is_followed_on(
    solver: TransparentShapeSolver,
    tracks: Seq<ShapeTrack>,
    scores: Seq<Option<u64>>,
    switch_threshold: u64,
    region: Rect,
    i: int,
)
    requires
        solver.last_cursor is Some,
        solver.current_track_tenure < u32::MAX,
        is_best(solver, tracks, scores, i),
        solver.current_track_id == Some(tracks[i].track_id),
    ensures
        ({
            let (after, cursor) = solver.followed(tracks, scores, switch_threshold, region);
            &&& cursor is Some
            &&& after.last_cursor == Some(tracks[i].rect.middle())
            &&& after.last_step == Some(tracks[i].step)
            &&& after.current_track_id == solver.current_track_id
            &&& after.current_track_tenure == solver.current_track_tenure + 1
            &&& after.candidate_track_id is None
            &&& after.candidate_track_count == 0
        }),
{
    lemma_best(solver, tracks, scores, tracks.len(), i);
}

/// Where the best shape is another one and its score is too low, no shape is followed: the cursor
/// goes on by the last step as long as that does not lead out of the region, and nothing else
/// changes.
pub proof fn law_weak_shapes_are_not_followed(
    solver: TransparentShapeSolver,
    tracks: Seq<ShapeTrack>,
    scores: Seq<Option<u64>>,
    switch_threshold: u64,
    region: Rect,
    i: int,
)
    requires
        solver.wf(),
        solver.current_track_id is Some,
        solver.last_cursor is Some,
        is_best(solver, tracks, scores, i),
        solver.current_track_id != Some(tracks[i].track_id),
        scores[i]->0 < switch_threshold,
    ensures
        solver.followed(tracks, scores, switch_threshold, region) == extrapolated(solver, region),
{
    lemma_best(solver, tracks, scores, tracks.len(), i);
}

/// The cursor goes on by the last step, unless that leads out of the region.
pub open spec fn extrapolated(solver: TransparentShapeSolver, region: Rect) -> (
    TransparentShapeSolver,
    Option<Point>,
) {
    let x = solver.last_cursor->0.x + solver.last_step->0.x;
    let y = solver.last_cursor->0.y + solver.last_step->0.y;
    let (at_x, at_y) = (region.x + x as i32, region.y + y as i32);
    if region.x <= at_x as i32 && (at_x as i32) < region.x + region.width && region.y <= at_y as i32
        && (at_y as i32) < region.y + region.height {
        (
            TransparentShapeSolver {
                last_cursor: Some(Point { x: x as i32, y: y as i32 }),
                ..solver
            },
            Some(Point { x: at_x as i32, y: at_y as i32 }),
        )
    } else {
        (solver, None)
    }
}

/// A shape that is out of sight leaves the cursor going on by the last step, as long as no other
/// shape has a score.
pub proof fn law_shape_out_of_sight_is_extrapolated(
    solver: TransparentShapeSolver,
    tracks: Seq<ShapeTrack>,
    scores: Seq<Option<u64>>,
    switch_threshold: u64,
    region: Rect,
)
    requires
        solver.wf(),
        solver.current_track_id is Some,
        solver.last_cursor is Some,
        scores.len() == tracks.len(),
        forall|j: int| 0 <= j < scores.len() ==> #[trigger] scores[j] is None,
        forall|j: int|
            0 <= j < tracks.len() ==> (#[trigger] tracks[j]).track_id
                != solver.current_track_id->0,
    ensures
        solver.followed(tracks, scores, switch_threshold, region) == extrapolated(solver, region),
{
    assert forall|j: int| 0 <= j < tracks.len() implies !#[trigger] takes_part(
        solver,
        tracks,
        scores,
        j,
    ) by {
        assert(scores[j] is None);
    }
    lemma_no_best(solver, tracks, scores, tracks.len());
    lemma_not_found(tracks, solver.current_track_id->0, 0);
}

/// As long as the followed shape is in sight and no other one takes part with too low a score, the
/// cursor is on a shape: it is never extrapolated then.
pub proof fn law_cursor_stays_on_a_shape_in_sight(
    solver: TransparentShapeSolver,
    tracks: Seq<ShapeTrack>,
    scores: Seq<Option<u64>>,
    switch_threshold: u64,
    region: Rect,
    i: int,
)
    requires
        solver.wf(),
        solver.current_track_id is Some,
        solver.last_cursor is Some,
        is_first_named(tracks, solver.current_track_id->0, i),
        forall|j: int|
            0 <= j < tracks.len() && #[trigger] takes_part(solver, tracks, scores, j)
                && tracks[j].track_id != solver.current_track_id->0 ==> scores[j]->0
                >= switch_threshold,
    ensures
        ({
            let (after, cursor) = solver.followed(tracks, scores, switch_threshold, region);
            &&& cursor is Some
            &&& exists|k: int|
                0 <= k < tracks.len() && after.current_track_id == Some(
                    (#[trigger] tracks[k]).track_id,
                ) && after.last_cursor == Some(tracks[k].rect.middle())
        }),
{
    lemma_found(tracks, solver.current_track_id->0, i, 0);
    lemma_some_best(solver, tracks, scores, tracks.len());
    let best = solver.best_of(tracks, scores, tracks.len());
    if let Some(b) = best {
        assert(takes_part(solver, tracks, scores, b));
        assert(tracks[b].track_id == tracks[b].track_id);
    }
    let (after, cursor) = solver.followed(tracks, scores, switch_threshold, region);
    let found = solver.best_found(tracks, scores, switch_threshold).1;
    assert(found is Some);
    assert(tracks[found->0].track_id == after.current_track_id->0);
}

proof fn lemma_some_best(
    solver: TransparentShapeSolver,
    tracks: Seq<ShapeTrack>,
    scores: Seq<Option<u64>>,
    count: nat,
)
    requires
        count <= tracks.len(),
    ensures
        solver.best_of(tracks, scores, count) matches Some(b) ==> 0 <= b < count && takes_part(
            solver,
            tracks,
            scores,
            b,
        ),
    decreases count,
{
    if count > 0 {
        lemma_some_best(solver, tracks, scores, (count - 1) as nat);
    }
}

/// One frame of shapes and their scores.
pub struct Scored {
    pub tracks: Seq<ShapeTrack>,
    pub scores: Seq<Option<u64>>,
}

/// The solver after the first `count` frames.
pub open spec fn solved_after(
    solver: TransparentShapeSolver,
    frames: Seq<Scored>,
    switch_threshold: u64,
    region: Rect,
    count: nat,
) -> TransparentShapeSolver
    decreases count,
{
    if count == 0 {
        solver
    } else {
        solved_after(solver, frames, switch_threshold, region, (count - 1) as nat).followed(
            frames[count - 1].tracks,
            frames[count - 1].scores,
            switch_threshold,
            region,
        ).0
    }
}

/// Whether another shape is the best one in a frame in which the followed one is in sight.
pub open spec fn is_challenged(frame: Scored, current: u64, other: u64, threshold: u64) -> bool {
    &&& exists|i: int| is_first_named(frame.tracks, current, i)
    &&& exists|i: int|
        #![trigger frame.tracks[i]]
        0 <= i < frame.tracks.len() && frame.tracks[i].track_id == other
            && frame.tracks[i].tracklet_len >= 1 && frame.scores[i] is Some && frame.scores[i]->0
            >= threshold && forall|j: int|
            0 <= j < frame.tracks.len() && (#[trigger] frame.scores[j]) is Some ==> {
                &&& frame.scores[j]->0 <= frame.scores[i]->0
                &&& j > i ==> frame.scores[j]->0 < frame.scores[i]->0
            }
}

/// Another shape has to be the best one in five frames in a row to be followed instead: in the first
/// four of them the followed one is followed on, and in the fifth it is left, slowly.
pub proof fn law_shape_is_left_in_the_fifth_frame(
    solver: TransparentShapeSolver,
    frames: Seq<Scored>,
    switch_threshold: u64,
    region: Rect,
    other: u64,
    count: nat,
)
    requires
        solver.current_track_id is Some,
        solver.current_track_id != Some(other),
        solver.candidate_track_id != Some(other),
        solver.last_cursor is Some,
        solver.current_track_tenure < 1_000_000_000,
        1 <= count <= 5,
        count <= frames.len(),
        forall|k: int|
            0 <= k < count ==> is_challenged(
                #[trigger] frames[k],
                solver.current_track_id->0,
                other,
                switch_threshold,
            ),
    ensures
        ({
            let after = solved_after(solver, frames, switch_threshold, region, count);
            &&& after.last_cursor is Some
            &&& if count < 5 {
                &&& after.current_track_id == solver.current_track_id
                &&& after.current_track_tenure == solver.current_track_tenure + count
                &&& after.candidate_track_id == Some(other)
                &&& after.candidate_track_count == count - 1
                &&& after.slow_smoothing_remaining == solver.slow_smoothing_remaining
            } else {
                &&& after.current_track_id == Some(other)
                &&& after.current_track_tenure == 0
                &&& after.candidate_track_id is None
                &&& after.candidate_track_count == 0
                &&& after.slow_smoothing_remaining == 10
            }
        }),
    decreases count,
{
    let before = solved_after(solver, frames, switch_threshold, region, (count - 1) as nat);
    if count > 1 {
        law_shape_is_left_in_the_fifth_frame(
            solver,
            frames,
            switch_threshold,
            region,
            other,
            (count - 1) as nat,
        );
    }
    let current = solver.current_track_id->0;
    let frame = frames[count - 1];
    assert(is_challenged(frame, current, other, switch_threshold));
    let first = choose|i: int| is_first_named(frame.tracks, current, i);
    lemma_found(frame.tracks, current, first, 0);
    let i = choose|i: int|
        #![trigger frame.tracks[i]]
        0 <= i < frame.tracks.len() && frame.tracks[i].track_id == other
            && frame.tracks[i].tracklet_len >= 1 && frame.scores[i] is Some && frame.scores[i]->0
            >= switch_threshold && forall|j: int|
            0 <= j < frame.tracks.len() && (#[trigger] frame.scores[j]) is Some ==> {
                &&& frame.scores[j]->0 <= frame.scores[i]->0
                &&& j > i ==> frame.scores[j]->0 < frame.scores[i]->0
            };
    assert(is_best(before, frame.tracks, frame.scores, i));
    lemma_best(before, frame.tracks, frame.scores, frame.tracks.len(), i);
}

/// It is looked for a shape that rotates more strongly only in every fifteenth frame, and it is
/// followed only where it is another one, does so clearly, and the one followed so far was followed
/// for more than twenty frames. Nothing else is changed by that.
pub proof fn law_stronger_rotation_is_looked_for_now_and_then(
    solver: TransparentShapeSolver,
    call: u64,
    lead: Option<RotationLead>,
)
    ensures
        ({
            let after = solver.with_rotation(call, lead);
            let turns = call % 15 == 0 && solver.current_track_id is Some && lead is Some
                && lead->0.clear && Some(lead->0.track_id) != solver.current_track_id
                && solver.current_track_tenure > 20;
            &&& turns ==> after == (TransparentShapeSolver {
                current_track_id: Some(lead->0.track_id),
                current_track_tenure: 0,
                slow_smoothing_remaining: 10,
                ..solver
            })
            &&& !turns ==> after == solver
        }),
{
}

/// The solver begins with a shape that no other one rotates more strongly than, once enough angles
/// are known, and before that with one that no other one is closer to the middle of the region than.
/// The cursor is on that shape. Once it has begun, it does not begin again.
pub proof fn law_solver_begins_with_the_likeliest_shape(
    solver: TransparentShapeSolver,
    region: Rect,
    tracks: Seq<ShapeTrack>,
    has_history: bool,
)
    requires
        tracks.len() > 0,
    ensures
        ({
            let after = solver.with_initial(region, tracks, has_history);
            let middle = Point { x: (region.width / 2) as i32, y: (region.height / 2) as i32 };
            &&& solver.current_track_id is Some ==> after == solver
            &&& solver.current_track_id is None ==> exists|i: int|
                {
                    &&& 0 <= i < tracks.len()
                    &&& after.current_track_id == Some((#[trigger] tracks[i]).track_id)
                    &&& after.last_cursor == Some(tracks[i].rect.middle())
                    &&& after.last_step == Some(tracks[i].step)
                    &&& has_history ==> forall|j: int|
                        0 <= j < tracks.len() ==> (#[trigger] tracks[j]).drift <= tracks[i].drift
                    &&& !has_history && region.width >= 0 && region.height >= 0 ==> forall|j: int|
                        0 <= j < tracks.len() ==> tracks[i].distance(middle) <= (
                        #[trigger] tracks[j]).distance(middle)
                }
        }),
{
    let i = initial_of(region, tracks, has_history);
    if has_history {
        law_most_rotating_is_last_of_the_strongest(tracks, tracks.len());
    } else {
        law_closest_is_first_of_the_closest(
            crate::solvers::shape::center(region),
            tracks,
            tracks.len(),
        );
    }
    assert(tracks[i].track_id == tracks[i].track_id);
}

/// Distances are measured between a point and the middle of a shape, in whole pixels rounded down,
/// as far as they are not huge. Huge ones are all the same.
pub proof fn law_distances_are_measured_from_the_middle(track: ShapeTrack, point: Point)
    ensures
        ({
            let middle = track.rect.middle();
            let (dx, dy) = (point.x - middle.x, point.y - middle.y);
            let d = track.distance(point);
            &&& dx * dx + dy * dy < 0x4000_0000_0000_0000 ==> d * d <= dx * dx + dy * dy < (d + 1)
                * (d + 1)
            &&& dx * dx + dy * dy >= 0x4000_0000_0000_0000 ==> d == 0x7FFF_FFFF
        }),
{
    let middle = track.rect.middle();
    let (dx, dy) = (point.x - middle.x, point.y - middle.y);
    let n = dx * dx + dy * dy;
    assert(n >= 0) by (nonlinear_arith)
        requires
            n == dx * dx + dy * dy,
    ;
    crate::geometry::lemma_root_exists(n as nat);
    assert(crate::geometry::is_root(n as nat, root(n as nat)));
}

/// Only shapes that have been followed for five frames, that are not under the cursor and that are
/// at least as far away from it as their own diagonal tell how the background moves, each of them
/// once and in order.
pub proof fn law_background_is_away_from_the_cursor(
    tracks: Seq<ShapeTrack>,
    cursor: Option<Point>,
    count: nat,
)
    requires
        count <= tracks.len() <= usize::MAX,
    ensures
        forall|k: int|
            #![trigger background_of(tracks, cursor, count).indices[k]]
            0 <= k < background_of(tracks, cursor, count).indices.len() ==> {
                let i = background_of(tracks, cursor, count).indices[k] as int;
                let track = tracks[i];
                let middle = track.rect.middle();
                &&& 0 <= i < count
                &&& track.tracklet_len >= 5
                &&& cursor matches Some(at) ==> {
                    let (dx, dy) = (middle.x - at.x, middle.y - at.y);
                    let (w, h) = (track.rect.width as int, track.rect.height as int);
                    &&& !(track.rect.x <= at.x < track.rect.x + w && track.rect.y <= at.y
                        < track.rect.y + h)
                    &&& dx * dx + dy * dy >= w * w + h * h
                }
                &&& forall|l: int|
                    #![trigger background_of(tracks, cursor, count).indices[l]]
                    0 <= l < k ==> background_of(tracks, cursor, count).indices[l] < i
            },
    decreases count,
{
    if count > 0 {
        let before = background_of(tracks, cursor, (count - 1) as nat);
        law_background_is_away_from_the_cursor(tracks, cursor, (count - 1) as nat);
        let all = background_of(tracks, cursor, count);
        assert forall|k: int| 0 <= k < all.indices.len() implies {
            let i = #[trigger] all.indices[k] as int;
            let track = tracks[i];
            let middle = track.rect.middle();
            &&& 0 <= i < count
            &&& track.tracklet_len >= 5
            &&& cursor matches Some(at) ==> {
                let (dx, dy) = (middle.x - at.x, middle.y - at.y);
                let (w, h) = (track.rect.width as int, track.rect.height as int);
                &&& !(track.rect.x <= at.x < track.rect.x + w && track.rect.y <= at.y < track.rect.y
                    + h)
                &&& dx * dx + dy * dy >= w * w + h * h
            }
            &&& forall|l: int|
                #![trigger all.indices[l]]
                0 <= l < k ==> all.indices[l] < i
        } by {
            if k < before.indices.len() {
                assert(all.indices[k] == before.indices[k]);
                assert forall|l: int| #![trigger all.indices[l]] 0 <= l < k implies all.indices[l]
                    < all.indices[k] by {
                    assert(all.indices[l] == before.indices[l]);
                }
            } else {
                assert forall|l: int| #![trigger all.indices[l]] 0 <= l < k implies all.indices[l]
                    < all.indices[k] by {
                    assert(all.indices[l] == before.indices[l]);
                }
                let track = tracks[count - 1];
                let middle = track.rect.middle();
                if let Some(at) = cursor {
                    let (dx, dy) = (middle.x - at.x, middle.y - at.y);
                    assert(dx * dx + dy * dy >= 0) by (nonlinear_arith);
                }
            }
        }
    }
}

/// The first of those with the largest number leads.
pub proof fn law_leader_has_the_largest_number(scores: Seq<(u64, u64)>, count: nat)
    requires
        1 <= count <= scores.len(),
    ensures
        0 <= leader_of(scores, count) < count,
        forall|j: int|
            0 <= j < count ==> (#[trigger] scores[j]).1 <= scores[leader_of(scores, count)].1,
        forall|j: int|
            0 <= j < leader_of(scores, count) ==> (#[trigger] scores[j]).1 < scores[leader_of(
                scores,
                count,
            )].1,
    decreases count,
{
    if count > 1 {
        law_leader_has_the_largest_number(scores, (count - 1) as nat);
    }
}

/// A window after all of those angles, one after the other.
pub open spec fn slid_over<T>(angles: Seq<T>) -> Seq<T>
    decreases angles.len(),
{
    if angles.len() == 0 {
        seq![]
    } else {
        slid(slid_over(angles.drop_last()), angles.last())
    }
}

/// A window holds the latest twenty angles, in order, or all of them as long as there are fewer.
pub proof fn law_window_holds_the_latest_angles<T>(angles: Seq<T>)
    ensures
        slid_over(angles) =~= if angles.len() <= 20 {
            angles
        } else {
            angles.skip(angles.len() - 20)
        },
    decreases angles.len(),
{
    if angles.len() > 0 {
        law_window_holds_the_latest_angles(angles.drop_last());
    }
}

/// Whether a shape has been followed for five frames and is under the cursor.
pub open spec fn is_under(track: ShapeTrack, cursor: Point) -> bool {
    let rect = track.rect;
    &&& track.tracklet_len >= 5
    &&& rect.x <= cursor.x < rect.x + rect.width
    &&& rect.y <= cursor.y < rect.y + rect.height
}

/// The shape under the cursor is the first one there is that has been followed for five frames.
pub proof fn law_first_shape_under_the_cursor_counts(
    tracks: Seq<ShapeTrack>,
    cursor: Option<Point>,
    count: nat,
)
    requires
        count <= tracks.len(),
    ensures
        match background_of(tracks, cursor, count).under_cursor {
            None => cursor matches Some(at) ==> forall|i: int|
                0 <= i < count ==> !is_under(#[trigger] tracks[i], at),
            Some(rect) => cursor is Some && exists|i: int|
                {
                    &&& 0 <= i < count
                    &&& is_under(#[trigger] tracks[i], cursor->0)
                    &&& tracks[i].rect == rect
                    &&& forall|j: int| 0 <= j < i ==> !is_under(#[trigger] tracks[j], cursor->0)
                },
        },
    decreases count,
{
    if count > 0 {
        law_first_shape_under_the_cursor_counts(tracks, cursor, (count - 1) as nat);
        let before = background_of(tracks, cursor, (count - 1) as nat);
        let all = background_of(tracks, cursor, count);
        if let Some(at) = cursor {
            if before.under_cursor is None && is_under(tracks[count - 1], at) {
                assert(all.under_cursor == Some(tracks[count - 1].rect));
            }
        }
    }
}

/// Every shape that has been followed for five frames tells how the background moves as long as there
/// is no cursor. With one, so does every shape that is not under it, is at least as far away from it
/// as its own diagonal and lies on top of no shape before it that is under the cursor.
pub proof fn law_shapes_away_from_the_cursor_tell_the_background(
    tracks: Seq<ShapeTrack>,
    cursor: Option<Point>,
    count: nat,
    i: usize,
)
    requires
        i < count <= tracks.len() <= usize::MAX,
        tracks[i as int].tracklet_len >= 5,
        cursor matches Some(at) ==> {
            let rect = tracks[i as int].rect;
            let middle = rect.middle();
            let (dx, dy) = (middle.x - at.x, middle.y - at.y);
            let (w, h) = (rect.width as int, rect.height as int);
            &&& !is_under(tracks[i as int], at)
            &&& dx * dx + dy * dy >= w * w + h * h
            &&& forall|j: int|
                0 <= j < i && is_under(#[trigger] tracks[j], at) ==> !tracks[j].rect.meets(rect)
        },
    ensures
        background_of(tracks, cursor, count).indices.contains(i),
    decreases count,
{
    let before = background_of(tracks, cursor, (count - 1) as nat);
    let all = background_of(tracks, cursor, count);
    if count == i + 1 {
        law_first_shape_under_the_cursor_counts(tracks, cursor, i as nat);
        assert(all.indices == before.indices.push(i));
        assert(all.indices.last() == i);
    } else {
        law_shapes_away_from_the_cursor_tell_the_background(
            tracks,
            cursor,
            (count - 1) as nat,
            i,
        );
        let k = choose|k: int| 0 <= k < before.indices.len() && before.indices[k] == i;
        assert(all.indices[k] == i);
    }
}

/// With fewer than three shapes nothing can be told of the background.
pub proof fn law_three_shapes_tell_the_background(shapes: nat)
    ensures
        shapes < BACKGROUND_TRACKS <==> shapes <= 2,
{
}

} // verus!
