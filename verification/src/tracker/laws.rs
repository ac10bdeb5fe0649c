//! What becomes of tracks from frame to frame.

use vstd::prelude::*;

use crate::tracker::assignment::{width, Assignment};
use crate::tracker::bytetracker::{
    duplicate_of_a, duplicate_of_b, fits, high_scores, kept_of_a, kept_of_b, lemma_kept_of_a,
    lemma_kept_of_b, lemma_pairs_in_range, low_scores, near, picked, still_lost, sure_enough,
    FrameMatches, TrackerView,
};
use crate::tracker::strack::{MotionStep, STrack, TrackState};

verus! {

/// A track that is seen again was last seen now: it goes on under its own name from where it began,
/// with the score of what was seen. It has been followed for one frame more, or starts counting
/// anew where it had been lost, and so does the estimate of its motion.
pub proof fn law_seen_again_means_seen_now(track: STrack, detection: STrack, frame_id: u64)
    ensures
        ({
            let after = track.seen_again(detection, frame_id);
            &&& after.frame_id == frame_id
            &&& after.state == TrackState::Followed
            &&& after.score == detection.score
            &&& after.motion == track.motion
            &&& after.start_frame_id == track.start_frame_id
            &&& track.state == TrackState::Lost ==> after.tracklet_len == 0
            &&& track.state == TrackState::Followed && track.tracklet_len < u64::MAX
                ==> after.tracklet_len == track.tracklet_len + 1
            &&& track.seen_again_step(detection) == match track.state {
                TrackState::Followed => MotionStep::Update(track.motion, detection.motion),
                TrackState::Lost => MotionStep::Reactivate(track.motion, detection.motion),
            }
        }),
{
}

/// A track begins when it is seen first, and being lost changes nothing but that it is lost.
pub proof fn law_tracks_begin_and_are_lost(track: STrack, frame_id: u64)
    ensures
        ({
            let begun = track.activated(frame_id);
            &&& begun.frame_id == frame_id
            &&& begun.start_frame_id == frame_id
            &&& begun.tracklet_len == 0
            &&& begun.state == TrackState::Followed
            &&& begun.motion == track.motion
            &&& begun.score == track.score
        }),
        ({
            let lost = track.lost();
            &&& lost.state == TrackState::Lost
            &&& lost.frame_id == track.frame_id
            &&& lost.start_frame_id == track.start_frame_id
            &&& lost.tracklet_len == track.tracklet_len
            &&& lost.motion == track.motion
            &&& lost.score == track.score
        }),
{
}

/// A detection counts only above the lower threshold, and is sure from the higher one on. Those that
/// count keep their order.
pub proof fn law_scores_decide_what_counts(detections: Seq<STrack>, low: u32, high: u32)
    ensures
        low_scores(detections, low, high) == detections.filter(
            |track: STrack| low < track.score && track.score < high,
        ),
        high_scores(detections, low, high) == detections.filter(
            |track: STrack| low < track.score && high <= track.score,
        ),
    decreases detections.len(),
{
    reveal(Seq::filter);
    if detections.len() > 0 {
        law_scores_decide_what_counts(detections.drop_last(), low, high);
    } else {
        assert(detections =~= seq![]);
    }
}

/// Only detections from the threshold on begin new tracks, in their order.
pub proof fn law_sure_detections_begin_tracks(detections: Seq<STrack>, threshold: u32)
    ensures
        sure_enough(detections, threshold) == detections.filter(
            |track: STrack| threshold <= track.score,
        ),
    decreases detections.len(),
{
    reveal(Seq::filter);
    if detections.len() > 0 {
        law_sure_detections_begin_tracks(detections.drop_last(), threshold);
    } else {
        assert(detections =~= seq![]);
    }
}

proof fn lemma_still_lost(tracks: Seq<STrack>, frame_id: u64, max_time_lost: u64)
    ensures
        forall|k: int|
            0 <= k < still_lost(tracks, frame_id, max_time_lost).len() ==> {
                let track = #[trigger] still_lost(tracks, frame_id, max_time_lost)[k];
                &&& track.state == TrackState::Lost
                &&& frame_id - track.frame_id <= max_time_lost
                &&& exists|i: int|
                    0 <= i < tracks.len() && (STrack { state: TrackState::Lost, ..#[trigger] tracks[i] })
                        == track
            },
        forall|i: int|
            0 <= i < tracks.len() && frame_id - (#[trigger] tracks[i]).frame_id <= max_time_lost
                ==> still_lost(tracks, frame_id, max_time_lost).contains(
                (STrack { state: TrackState::Lost, ..tracks[i] }),
            ),
    decreases tracks.len(),
{
    if tracks.len() > 0 {
        let rest = tracks.drop_last();
        lemma_still_lost(rest, frame_id, max_time_lost);
        let before = still_lost(rest, frame_id, max_time_lost);
        let all = still_lost(tracks, frame_id, max_time_lost);
        assert forall|k: int| 0 <= k < all.len() implies {
            let track = #[trigger] all[k];
            &&& track.state == TrackState::Lost
            &&& frame_id - track.frame_id <= max_time_lost
            &&& exists|i: int|
                0 <= i < tracks.len() && (STrack { state: TrackState::Lost, ..#[trigger] tracks[i] })
                    == track
        } by {
            if k < before.len() {
                assert(all[k] == before[k]);
                let i = choose|i: int|
                    0 <= i < rest.len() && (STrack {
                        state: TrackState::Lost,
                        ..#[trigger] rest[i]
                    }) == before[k];
                assert((STrack { state: TrackState::Lost, ..tracks[i] }) == all[k]);
            } else {
                assert((STrack { state: TrackState::Lost, ..tracks[tracks.len() - 1] }) == all[k]);
            }
        }
        assert forall|i: int|
            0 <= i < tracks.len() && frame_id - (#[trigger] tracks[i]).frame_id
                <= max_time_lost implies all.contains(
            (STrack { state: TrackState::Lost, ..tracks[i] }),
        ) by {
            let lost = STrack { state: TrackState::Lost, ..tracks[i] };
            if i < rest.len() {
                assert(rest[i] == tracks[i]);
                assert(before.contains(lost));
                let k = choose|k: int| 0 <= k < before.len() && before[k] == lost;
                assert(all[k] == lost);
            } else {
                assert(all[before.len() as int] == lost);
            }
        }
    }
}

/// A track is matched with the detection that it was assigned exactly where the cost of that is low
/// enough, and otherwise is left.
pub proof fn law_assigned_pairs_match_within_the_cost(assignment: &Assignment, i: usize)
    requires
        assignment.wf(),
        i < assignment.within@.len(),
    ensures
        ({
            let row = assignment.within@[i as int]@;
            let column = assignment.columns@[i as int];
            let cheap = row.len() > 0 && column < row.len() && row[column as int];
            &&& assignment.all_matches().contains((i, column)) <==> cheap
            &&& assignment.rest_rows().contains(i) <==> !cheap
        }),
{
    assert(assignment.within@.len() == assignment.within.len());
    lemma_row(assignment, assignment.within@.len(), i);
}

proof fn lemma_row(assignment: &Assignment, count: nat, i: usize)
    requires
        assignment.wf(),
        count <= assignment.within@.len() <= usize::MAX,
        i < assignment.within@.len(),
    ensures
        assignment.matches(count).contains((i, assignment.columns@[i as int])) <==> i < count
            && assignment.matched(i as int),
        assignment.unmatched_rows(count).contains(i) <==> i < count && !assignment.matched(
            i as int,
        ),
    decreases count,
{
    if count > 0 {
        let before = (count - 1) as nat;
        lemma_row(assignment, before, i);
        let pair = (i, assignment.columns@[i as int]);
        let (a, b) = (assignment.matches(before), assignment.matches(count));
        let (c, d) = (assignment.unmatched_rows(before), assignment.unmatched_rows(count));
        if a.contains(pair) {
            let k = choose|k: int| 0 <= k < a.len() && a[k] == pair;
            assert(b[k] == pair);
        }
        if b.contains(pair) {
            let k = choose|k: int| 0 <= k < b.len() && b[k] == pair;
            if k < a.len() {
                assert(a[k] == pair);
            }
        }
        if c.contains(i) {
            let k = choose|k: int| 0 <= k < c.len() && c[k] == i;
            assert(d[k] == i);
        }
        if d.contains(i) {
            let k = choose|k: int| 0 <= k < d.len() && d[k] == i;
            if k < c.len() {
                assert(c[k] == i);
            }
        }
        if i == count - 1 {
            if assignment.matched(i as int) {
                assert(b[a.len() as int] == pair);
            } else {
                assert(d[c.len() as int] == i);
            }
        }
    }
}

/// After a frame, whatever is followed or has just begun was seen in that very frame, and whatever
/// is lost was seen earlier, but not too long ago. The frames are counted one by one.
pub proof fn law_followed_tracks_were_seen_now(
    tracker: TrackerView,
    detections: Seq<STrack>,
    matches: FrameMatches,
)
    requires
        tracker.wf(),
        tracker.frame_id < u64::MAX,
        !tracker.begins(detections) ==> tracker.next_frame().frame_fits(detections, matches),
    ensures
        ({
            let after = tracker.updated(detections, matches).0;
            &&& after.frame_id == tracker.frame_id + 1
            &&& forall|k: int|
                0 <= k < after.followed.len() ==> (#[trigger] after.followed[k]).frame_id
                    == after.frame_id && after.followed[k].state == TrackState::Followed
            &&& !tracker.begins(detections) ==> {
                &&& forall|k: int|
                    0 <= k < after.unconfirmed.len() ==> {
                        let track = #[trigger] after.unconfirmed[k];
                        &&& track.frame_id == after.frame_id
                        &&& track.start_frame_id == after.frame_id
                        &&& track.state == TrackState::Followed
                    }
                &&& forall|k: int|
                    0 <= k < after.lost.len() ==> {
                        let track = #[trigger] after.lost[k];
                        &&& track.state == TrackState::Lost
                        &&& track.frame_id < after.frame_id
                        &&& after.frame_id - track.frame_id <= tracker.max_time_lost
                    }
            }
        }),
{
    if !tracker.begins(detections) {
        let now = tracker.next_frame();
        let frame = now.frame(detections, matches);
        let after = tracker.updated(detections, matches).0;
        let rows = matches.near_rows@;
        assert forall|k: int| 0 <= k < after.followed.len() implies (
        #[trigger] after.followed[k]).frame_id == after.frame_id && after.followed[k].state
            == TrackState::Followed by {
            lemma_kept_of_a(frame.activated, frame.lost, rows, frame.activated.len(), k);
        }
        let left = now.left_tracks(matches);
        let missed = picked(left, matches.low.rest_rows());
        lemma_still_lost(missed, now.frame_id, now.max_time_lost);
        assert(matches.high.within@.len() == matches.high.within.len());
        assert(matches.low.within@.len() == matches.low.within.len());
        lemma_pairs_in_range(&matches.high, matches.high.within@.len());
        lemma_pairs_in_range(&matches.low, matches.low.within@.len());
        assert forall|k: int| 0 <= k < after.lost.len() implies {
            let track = #[trigger] after.lost[k];
            &&& track.state == TrackState::Lost
            &&& track.frame_id < after.frame_id
            &&& after.frame_id - track.frame_id <= tracker.max_time_lost
        } by {
            lemma_kept_of_b(frame.activated, frame.lost, rows, frame.lost.len(), k);
            let track = after.lost[k];
            let j = choose|j: int| 0 <= j < frame.lost.len() && frame.lost[j] == track;
            assert(frame.lost[j] == track);
            let i = choose|i: int|
                0 <= i < missed.len() && (STrack { state: TrackState::Lost, ..#[trigger] missed[i] })
                    == track;
            let p = matches.low.rest_rows()[i];
            assert(missed[i] == left[p as int]);
            let q = matches.high.rest_rows()[p as int];
            assert(left[p as int] == now.candidates()[q as int]);
            if q < tracker.followed.len() {
                assert(tracker.followed[q as int].wf(tracker.frame_id));
            } else {
                assert(tracker.lost[q - tracker.followed.len()].wf(tracker.frame_id));
            }
        }
    }
}

/// A track that no detection is matched with is lost, and kept as such, exactly where it was seen
/// not too long ago.
pub proof fn law_missed_track_is_lost_in_time(
    tracker: TrackerView,
    detections: Seq<STrack>,
    matches: FrameMatches,
    index: usize,
)
    requires
        fits(&matches.low, tracker.left_tracks(matches).len(), tracker.low(detections).len()),
        index < tracker.left_tracks(matches).len(),
        matches.low.rest_rows().contains(index),
        tracker.frame_id - tracker.left_tracks(matches)[index as int].frame_id
            <= tracker.max_time_lost,
    ensures
        tracker.frame(detections, matches).lost.contains(
            (STrack { state: TrackState::Lost, ..tracker.left_tracks(matches)[index as int] }),
        ),
{
    let left = tracker.left_tracks(matches);
    let rest = matches.low.rest_rows();
    let missed = picked(left, rest);
    let k = choose|k: int| 0 <= k < rest.len() && rest[k] == index;
    assert(missed[k] == left[index as int]);
    lemma_still_lost(missed, tracker.frame_id, tracker.max_time_lost);
}

/// The tracker after `count` frames in which nothing is detected.
#[verifier::opaque]
pub open spec fn unseen_after(tracker: TrackerView, frames: Seq<FrameMatches>, count: nat) -> TrackerView
    decreases count,
{
    if count == 0 {
        tracker
    } else {
        unseen_after(tracker, frames, (count - 1) as nat).updated(
            seq![],
            frames[count - 1],
        ).0
    }
}

proof fn lemma_nothing_matched(assignment: &Assignment, count: nat)
    requires
        width(assignment.within@) == 0 || assignment.within@.len() == 0,
        count <= assignment.within@.len(),
    ensures
        assignment.matches(count).len() == 0,
        assignment.unmatched_rows(count).len() == count,
        forall|i: int|
            0 <= i < count && count <= usize::MAX ==> #[trigger] assignment.unmatched_rows(count)[i]
                == i,
    decreases count,
{
    if count > 0 {
        lemma_nothing_matched(assignment, (count - 1) as nat);
    }
}

proof fn lemma_nothing_kept_out(a: Seq<STrack>, b: Seq<STrack>, rows: Seq<Vec<bool>>, count: nat)
    requires
        a.len() == 0,
        count <= b.len(),
    ensures
        kept_of_b(a, b, rows, count) =~= b.take(count as int),
    decreases count,
{
    if count > 0 {
        lemma_nothing_kept_out(a, b, rows, (count - 1) as nat);
        assert(!duplicate_of_a(a, b, rows, count - 1));
    }
}

/// A track that has been seen is not forgotten too early: however many frames in a row it is not
/// seen, it is still among the lost ones, and can be found again, as long as the time allowed since
/// it was seen last has not passed.
pub proof fn law_unseen_track_can_be_found_again(
    tracker: TrackerView,
    frames: Seq<FrameMatches>,
    count: nat,
    track: STrack,
)
    requires
        tracker.followed.contains(track) || tracker.lost.contains(track),
        1 <= count <= frames.len(),
        tracker.frame_id + count <= u64::MAX,
        tracker.frame_id + count - track.frame_id <= tracker.max_time_lost,
        forall|i: int|
            0 <= i < count ==> unseen_after(tracker, frames, i as nat).next_frame().frame_fits(
                seq![],
                #[trigger] frames[i],
            ),
    ensures
        ({
            let after = unseen_after(tracker, frames, count);
            &&& after.frame_id == tracker.frame_id + count
            &&& after.max_time_lost == tracker.max_time_lost
            &&& after.lost.contains((STrack { state: TrackState::Lost, ..track }))
        }),
    decreases count,
{
    let before = unseen_after(tracker, frames, (count - 1) as nat);
    let matches = frames[count - 1];
    assert(unseen_after(tracker, frames, count) == before.updated(seq![], matches).0) by {
        reveal(unseen_after);
    }
    assert(count == 1 ==> before == tracker) by {
        reveal(unseen_after);
    }
    if count > 1 {
        law_unseen_track_can_be_found_again(tracker, frames, (count - 1) as nat, track);
    }
    let lost = STrack { state: TrackState::Lost, ..track };
    let all = before.candidates();
    let i = if count > 1 {
        let k = choose|k: int| 0 <= k < before.lost.len() && before.lost[k] == lost;
        before.followed.len() + k
    } else if tracker.followed.contains(track) {
        choose|k: int| 0 <= k < before.followed.len() && before.followed[k] == track
    } else {
        let k = choose|k: int| 0 <= k < before.lost.len() && before.lost[k] == track;
        before.followed.len() + k
    };
    assert((STrack { state: TrackState::Lost, ..all[i] }) == lost);
    lemma_unseen_frame(before, matches, i);
}

proof fn lemma_unseen_frame(before: TrackerView, matches: FrameMatches, i: int)
    requires
        before.frame_id < u64::MAX,
        before.next_frame().frame_fits(seq![], matches),
        0 <= i < before.candidates().len(),
        before.frame_id + 1 - before.candidates()[i].frame_id <= before.max_time_lost,
    ensures
        ({
            let after = before.updated(seq![], matches).0;
            &&& after.frame_id == before.frame_id + 1
            &&& after.max_time_lost == before.max_time_lost
            &&& after.lost.contains(
                (STrack { state: TrackState::Lost, ..before.candidates()[i] }),
            )
        }),
{
    let now = before.next_frame();
    let frame = now.frame(seq![], matches);
    lemma_unseen_view(now, matches);
    lemma_still_lost(now.candidates(), now.frame_id, now.max_time_lost);
    lemma_nothing_kept_out(frame.activated, frame.lost, matches.near_rows@, frame.lost.len());
    assert(frame.lost.take(frame.lost.len() as int) =~= frame.lost);
}

proof fn lemma_unseen_view(now: TrackerView, matches: FrameMatches)
    requires
        now.frame_fits(seq![], matches),
    ensures
        now.frame(seq![], matches).activated.len() == 0,
        now.frame(seq![], matches).lost == still_lost(
            now.candidates(),
            now.frame_id,
            now.max_time_lost,
        ),
{
    let all = now.candidates();
    assert(matches.high.within@.len() == matches.high.within.len());
    assert(matches.low.within@.len() == matches.low.within.len());
    lemma_nothing_matched(&matches.high, matches.high.within@.len());
    lemma_nothing_matched(&matches.low, matches.low.within@.len());
    assert(matches.high.rest_columns().len() == 0);
    lemma_nothing_matched(&matches.unconfirmed, matches.unconfirmed.within@.len());
    let left = now.left_tracks(matches);
    assert(left =~= all);
    assert(picked(left, matches.low.rest_rows()) =~= all);
}

/// Of tracks that lie on top of each other the older one stays: one that goes on gives way only to a
/// lost one that is at least as old, and a lost one only to one that is older.
pub proof fn law_older_tracks_stay(
    a: Seq<STrack>,
    b: Seq<STrack>,
    rows: Seq<Vec<bool>>,
    i: int,
)
    ensures
        0 <= i < a.len() && (forall|j: int|
            0 <= j < b.len() && rows[i]@[j] ==> (#[trigger] b[j]).frame_id - b[j].start_frame_id
                < a[i].frame_id - a[i].start_frame_id) ==> kept_of_a(
            a,
            b,
            rows,
            a.len(),
        ).contains(a[i]),
        0 <= i < b.len() && (forall|j: int|
            0 <= j < a.len() && rows[j]@[i] ==> (#[trigger] a[j]).frame_id - a[j].start_frame_id
                <= b[i].frame_id - b[i].start_frame_id) ==> kept_of_b(
            a,
            b,
            rows,
            b.len(),
        ).contains(b[i]),
{
    if 0 <= i < a.len() && (forall|j: int|
        0 <= j < b.len() && rows[i]@[j] ==> (#[trigger] b[j]).frame_id - b[j].start_frame_id
            < a[i].frame_id - a[i].start_frame_id) {
        if duplicate_of_b(a, b, rows, i) {
            let j = choose|j: int|
                0 <= j < b.len() && #[trigger] near(rows, i, j) && a[i].age() <= b[j].age();
            assert(b[j].age() < a[i].age());
        }
        lemma_kept_a(a, b, rows, a.len(), i);
    }
    if 0 <= i < b.len() && (forall|j: int|
        0 <= j < a.len() && rows[j]@[i] ==> (#[trigger] a[j]).frame_id - a[j].start_frame_id
            <= b[i].frame_id - b[i].start_frame_id) {
        if duplicate_of_a(a, b, rows, i) {
            let j = choose|j: int|
                0 <= j < a.len() && #[trigger] near(rows, j, i) && a[j].age() > b[i].age();
            assert(a[j].age() <= b[i].age());
        }
        lemma_kept_b(a, b, rows, b.len(), i);
    }
}

proof fn lemma_kept_a(a: Seq<STrack>, b: Seq<STrack>, rows: Seq<Vec<bool>>, count: nat, i: int)
    requires
        0 <= i < count <= a.len(),
        !duplicate_of_b(a, b, rows, i),
    ensures
        kept_of_a(a, b, rows, count).contains(a[i]),
    decreases count,
{
    let before = kept_of_a(a, b, rows, (count - 1) as nat);
    let all = kept_of_a(a, b, rows, count);
    if i < count - 1 {
        lemma_kept_a(a, b, rows, (count - 1) as nat, i);
        let k = choose|k: int| 0 <= k < before.len() && before[k] == a[i];
        assert(all[k] == a[i]);
    } else {
        assert(all[before.len() as int] == a[i]);
    }
}

proof fn lemma_kept_b(a: Seq<STrack>, b: Seq<STrack>, rows: Seq<Vec<bool>>, count: nat, i: int)
    requires
        0 <= i < count <= b.len(),
        !duplicate_of_a(a, b, rows, i),
    ensures
        kept_of_b(a, b, rows, count).contains(b[i]),
    decreases count,
{
    let before = kept_of_b(a, b, rows, (count - 1) as nat);
    let all = kept_of_b(a, b, rows, count);
    if i < count - 1 {
        lemma_kept_b(a, b, rows, (count - 1) as nat, i);
        let k = choose|k: int| 0 <= k < before.len() && before[k] == b[i];
        assert(all[k] == b[i]);
    } else {
        assert(all[before.len() as int] == b[i]);
    }
}

/// Whatever is kept of two lists was in the list, and lies on top of no track of the other list that
/// it has to give way to.
pub proof fn law_kept_tracks_give_way_to_none(
    a: Seq<STrack>,
    b: Seq<STrack>,
    rows: Seq<Vec<bool>>,
    k: int,
)
    ensures
        0 <= k < kept_of_a(a, b, rows, a.len()).len() ==> exists|i: int|
            #![trigger a[i]]
            0 <= i < a.len() && a[i] == kept_of_a(a, b, rows, a.len())[k] && forall|j: int|
                0 <= j < b.len() && rows[i]@[j] ==> (#[trigger] b[j]).frame_id
                    - b[j].start_frame_id < a[i].frame_id - a[i].start_frame_id,
        0 <= k < kept_of_b(a, b, rows, b.len()).len() ==> exists|i: int|
            #![trigger b[i]]
            0 <= i < b.len() && b[i] == kept_of_b(a, b, rows, b.len())[k] && forall|j: int|
                0 <= j < a.len() && rows[j]@[i] ==> (#[trigger] a[j]).frame_id
                    - a[j].start_frame_id <= b[i].frame_id - b[i].start_frame_id,
{
    if 0 <= k < kept_of_a(a, b, rows, a.len()).len() {
        lemma_kept_of_a(a, b, rows, a.len(), k);
        let track = kept_of_a(a, b, rows, a.len())[k];
        let i = choose|i: int|
            0 <= i < a.len() && (#[trigger] a[i]) == track && !duplicate_of_b(a, b, rows, i);
        assert forall|j: int| 0 <= j < b.len() && rows[i]@[j] implies (#[trigger] b[j]).frame_id
            - b[j].start_frame_id < a[i].frame_id - a[i].start_frame_id by {
            assert(near(rows, i, j));
            assert(a[i].age() > b[j].age());
        }
        assert(a[i] == track);
    }
    if 0 <= k < kept_of_b(a, b, rows, b.len()).len() {
        lemma_kept_of_b(a, b, rows, b.len(), k);
        let track = kept_of_b(a, b, rows, b.len())[k];
        let i = choose|i: int|
            0 <= i < b.len() && (#[trigger] b[i]) == track && !duplicate_of_a(a, b, rows, i);
        assert forall|j: int| 0 <= j < a.len() && rows[j]@[i] implies (#[trigger] a[j]).frame_id
            - a[j].start_frame_id <= b[i].frame_id - b[i].start_frame_id by {
            assert(near(rows, j, i));
            assert(a[j].age() <= b[i].age());
        }
        assert(b[i] == track);
    }
}

/// The tracker begins with the first frame in which anything counts, and then follows all of that. It
/// has begun from then on, and not before.
pub proof fn law_tracker_begins_with_what_counts(
    tracker: TrackerView,
    detections: Seq<STrack>,
    matches: FrameMatches,
)
    requires
        tracker.frame_id < u64::MAX,
    ensures
        ({
            let (after, steps) = tracker.updated(detections, matches);
            let low = detections.filter(
                |track: STrack|
                    tracker.low_match_score_threshold < track.score && track.score
                        < tracker.high_match_score_threshold,
            );
            let high = detections.filter(
                |track: STrack|
                    tracker.low_match_score_threshold < track.score
                        && tracker.high_match_score_threshold <= track.score,
            );
            let counted = low + high;
            &&& after.initialized == (tracker.initialized || counted.len() > 0)
            &&& !tracker.initialized && counted.len() > 0 ==> {
                &&& after.followed.len() == counted.len()
                &&& steps.len() == counted.len()
                &&& forall|k: int|
                    0 <= k < counted.len() ==> {
                        let track = #[trigger] after.followed[k];
                        &&& track.motion == counted[k].motion
                        &&& track.score == counted[k].score
                        &&& track.start_frame_id == tracker.frame_id + 1
                        &&& steps[k] == MotionStep::Activate(counted[k].motion)
                    }
            }
        }),
{
    law_scores_decide_what_counts(
        detections,
        tracker.low_match_score_threshold,
        tracker.high_match_score_threshold,
    );
}

/// Each pair of a track and a sure detection makes one track that goes on: the first of them are
/// those of the sure detections, in order, each with its own name and beginning.
pub proof fn law_sure_pairs_go_on_first(
    tracker: TrackerView,
    detections: Seq<STrack>,
    matches: FrameMatches,
    k: int,
)
    requires
        0 <= k < matches.high.all_matches().len(),
    ensures
        ({
            let frame = tracker.frame(detections, matches);
            let (i, j) = matches.high.all_matches()[k];
            let track = (tracker.followed + tracker.lost)[i as int];
            let detection = tracker.high(detections)[j as int];
            let after = frame.activated[k];
            &&& after.motion == track.motion
            &&& after.start_frame_id == track.start_frame_id
            &&& after.score == detection.score
            &&& after.frame_id == tracker.frame_id
            &&& frame.steps[k] == if track.state == TrackState::Lost {
                MotionStep::Reactivate(track.motion, detection.motion)
            } else {
                MotionStep::Update(track.motion, detection.motion)
            }
        }),
{
}

/// Of the tracks that are left, each one that an unsure detection is matched with goes on after
/// those; then come the tracks that were seen only once and are matched with what is left of the
/// sure detections.
pub proof fn law_other_pairs_go_on_next(
    tracker: TrackerView,
    detections: Seq<STrack>,
    matches: FrameMatches,
    k: int,
)
    ensures
        ({
            let frame = tracker.frame(detections, matches);
            let first = matches.high.all_matches().len();
            let second = matches.low.all_matches().len();
            let third = matches.unconfirmed.all_matches().len();
            &&& frame.activated.len() == first + second + third
            &&& 0 <= k < second ==> {
                let (i, j) = matches.low.all_matches()[k];
                let track = (tracker.followed + tracker.lost)[matches.high.rest_rows()[i as int]
                    as int];
                let after = frame.activated[first + k];
                i < matches.high.rest_rows().len() ==> after.motion == track.motion
                    && after.start_frame_id == track.start_frame_id && after.score
                    == tracker.low(detections)[j as int].score && after.frame_id == tracker.frame_id
            }
            &&& 0 <= k < third ==> {
                let (i, j) = matches.unconfirmed.all_matches()[k];
                let after = frame.activated[first + second + k];
                j < matches.high.rest_columns().len() ==> after.motion
                    == tracker.unconfirmed[i as int].motion && after.start_frame_id
                    == tracker.unconfirmed[i as int].start_frame_id && after.score == tracker.high(
                    detections,
                )[matches.high.rest_columns()[j as int] as int].score && after.frame_id
                    == tracker.frame_id
            }
        }),
{
}

proof fn lemma_filtered(detections: Seq<STrack>, threshold: u32, k: int)
    requires
        0 <= k < detections.len(),
        detections[k].score >= threshold,
    ensures
        sure_enough(detections, threshold).contains(detections[k]),
    decreases detections.len(),
{
    let all = sure_enough(detections, threshold);
    let before = sure_enough(detections.drop_last(), threshold);
    if k == detections.len() - 1 {
        assert(all.last() == detections[k]);
    } else {
        lemma_filtered(detections.drop_last(), threshold, k);
        assert(detections.drop_last()[k] == detections[k]);
        let m = choose|m: int| 0 <= m < before.len() && before[m] == detections[k];
        assert(all[m] == detections[k]);
    }
}

/// A sure detection that no track is matched with begins a track, if it is sure enough for that. Where
/// there are tracks that were seen only once, it must not be matched with one of these either.
pub proof fn law_left_detections_begin_tracks(
    tracker: TrackerView,
    detections: Seq<STrack>,
    matches: FrameMatches,
    k: int,
)
    ensures
        ({
            let begun = tracker.frame(detections, matches).begun;
            let left = matches.high.rest_columns();
            let still_left = matches.unconfirmed.rest_columns();
            let high = tracker.high(detections);
            &&& tracker.unconfirmed.len() == 0 && 0 <= k < left.len() && high[left[k] as int].score
                >= tracker.new_track_score_threshold ==> begun.contains(high[left[k] as int])
            &&& tracker.unconfirmed.len() > 0 && 0 <= k < still_left.len() && still_left[k]
                < left.len() && high[left[still_left[k] as int] as int].score
                >= tracker.new_track_score_threshold ==> begun.contains(
                high[left[still_left[k] as int] as int],
            )
        }),
{
    let left = matches.high.rest_columns();
    let still_left = matches.unconfirmed.rest_columns();
    let high = tracker.high(detections);
    let threshold = tracker.new_track_score_threshold;
    let left_high = picked(high, left);
    if tracker.unconfirmed.len() == 0 && 0 <= k < left.len() && high[left[k] as int].score
        >= threshold {
        assert(left_high[k] == high[left[k] as int]);
        lemma_filtered(left_high, threshold, k);
    }
    if tracker.unconfirmed.len() > 0 && 0 <= k < still_left.len() && still_left[k] < left.len()
        && high[left[still_left[k] as int] as int].score >= threshold {
        let rest = picked(left_high, still_left);
        assert(left_high[still_left[k] as int] == high[left[still_left[k] as int] as int]);
        assert(rest[k] == left_high[still_left[k] as int]);
        lemma_filtered(rest, threshold, k);
    }
}

/// In a frame that is not the first one, what begins a track is what has been seen once from then on:
/// it begins with that frame, with the state of being followed and its own score. Every frame has the
/// number after that of the frame before.
pub proof fn law_begun_tracks_were_seen_once(
    tracker: TrackerView,
    detections: Seq<STrack>,
    matches: FrameMatches,
    k: int,
)
    requires
        !tracker.begins(detections),
        tracker.frame_id < u64::MAX,
    ensures
        ({
            let (after, _) = tracker.updated(detections, matches);
            let now = TrackerView { frame_id: (tracker.frame_id + 1) as u64, ..tracker };
            let begun = now.frame(detections, matches).begun;
            &&& after.frame_id == tracker.frame_id + 1
            &&& after.unconfirmed.len() == begun.len()
            &&& 0 <= k < begun.len() ==> {
                let track = after.unconfirmed[k];
                &&& track.motion == begun[k].motion
                &&& track.score == begun[k].score
                &&& track.state == TrackState::Followed
                &&& track.start_frame_id == tracker.frame_id + 1
                &&& track.frame_id == tracker.frame_id + 1
                &&& track.tracklet_len == 0
            }
        }),
{
}

} // verus!
