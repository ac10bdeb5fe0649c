//! A tracker that also makes use of detections that are not sure.
//!
//! One frame takes four steps, each of which needs to know how far tracks and detections are
//! apart: sure detections are matched with all tracks, the others with the tracks that are left,
//! what is then left of the sure ones with tracks that were seen only once, and at last tracks
//! that lie on top of each other are told apart.

use vstd::prelude::*;

use crate::models::stored::copy;
use crate::tracker::assignment::{linear_assignment, width, Assignment};
use crate::tracker::strack::{MotionStep, STrack};

verus! {

/// Which detections are out of the question for a track, whatever they overlap.
#[derive(Clone, Copy, PartialEq, Eq, Debug, Structural)]
pub enum IouGating {
    Ungated,
    Position,
    Full,
}

/// An extended BYTETracker.
///
/// Scores are compared only, so that they can be given by any integers that are in the same
/// order.
#[derive(Debug)]
pub struct ByteTracker {
    pub initialized: bool,
    pub followed: Vec<STrack>,
    pub unconfirmed: Vec<STrack>,
    pub lost: Vec<STrack>,
    pub frame_id: u64,
    pub max_time_lost: u64,
    pub high_match_score_threshold: u32,
    pub low_match_score_threshold: u32,
    pub new_track_score_threshold: u32,
    pub gating: IouGating,
}

/// What a tracker holds.
#[verifier::ext_equal]
pub struct TrackerView {
    pub initialized: bool,
    pub followed: Seq<STrack>,
    pub unconfirmed: Seq<STrack>,
    pub lost: Seq<STrack>,
    pub frame_id: u64,
    pub max_time_lost: u64,
    pub high_match_score_threshold: u32,
    pub low_match_score_threshold: u32,
    pub new_track_score_threshold: u32,
    pub gating: IouGating,
}

impl View for ByteTracker {
    type V = TrackerView;

    open spec fn view(&self) -> TrackerView {
        TrackerView {
            initialized: self.initialized,
            followed: self.followed@,
            unconfirmed: self.unconfirmed@,
            lost: self.lost@,
            frame_id: self.frame_id,
            max_time_lost: self.max_time_lost,
            high_match_score_threshold: self.high_match_score_threshold,
            low_match_score_threshold: self.low_match_score_threshold,
            new_track_score_threshold: self.new_track_score_threshold,
            gating: self.gating,
        }
    }
}

/// All of them were seen no later than in `frame_id`.
pub open spec fn tracks_wf(tracks: Seq<STrack>, frame_id: u64) -> bool {
    forall|i: int| 0 <= i < tracks.len() ==> (#[trigger] tracks[i]).wf(frame_id)
}

pub open spec fn all_followed(tracks: Seq<STrack>) -> bool {
    forall|i: int| 0 <= i < tracks.len() ==> (#[trigger] tracks[i]).state is Followed
}

/// The detections that are sure enough to be used at all, but not sure, in order.
pub open spec fn low_scores(detections: Seq<STrack>, low: u32, high: u32) -> Seq<STrack>
    decreases detections.len(),
{
    if detections.len() == 0 {
        seq![]
    } else {
        let before = low_scores(detections.drop_last(), low, high);
        if low < detections.last().score < high {
            before.push(detections.last())
        } else {
            before
        }
    }
}

/// The sure detections, in order.
pub open spec fn high_scores(detections: Seq<STrack>, low: u32, high: u32) -> Seq<STrack>
    decreases detections.len(),
{
    if detections.len() == 0 {
        seq![]
    } else {
        let before = high_scores(detections.drop_last(), low, high);
        if low < detections.last().score && high <= detections.last().score {
            before.push(detections.last())
        } else {
            before
        }
    }
}

/// The same tracks, all of them beginning with `frame_id`.
pub open spec fn all_activated(tracks: Seq<STrack>, frame_id: u64) -> Seq<STrack> {
    Seq::new(tracks.len(), |i: int| tracks[i].activated(frame_id))
}

pub open spec fn activate_steps(tracks: Seq<STrack>) -> Seq<MotionStep> {
    Seq::new(tracks.len(), |i: int| MotionStep::Activate(tracks[i].motion))
}

/// The tracks that are matched with detections, in the order of the pairs.
pub open spec fn all_seen_again(
    tracks: Seq<STrack>,
    detections: Seq<STrack>,
    pairs: Seq<(usize, usize)>,
    frame_id: u64,
) -> Seq<STrack> {
    Seq::new(
        pairs.len(),
        |k: int|
            tracks[pairs[k].0 as int].seen_again(detections[pairs[k].1 as int], frame_id),
    )
}

pub open spec fn seen_again_steps(
    tracks: Seq<STrack>,
    detections: Seq<STrack>,
    pairs: Seq<(usize, usize)>,
) -> Seq<MotionStep> {
    Seq::new(
        pairs.len(),
        |k: int| tracks[pairs[k].0 as int].seen_again_step(detections[pairs[k].1 as int]),
    )
}

/// The tracks with those indices.
pub open spec fn picked(tracks: Seq<STrack>, indices: Seq<usize>) -> Seq<STrack> {
    Seq::new(indices.len(), |k: int| tracks[indices[k] as int])
}

/// The tracks that were seen not too long ago, marked as lost, in order.
pub open spec fn still_lost(tracks: Seq<STrack>, frame_id: u64, max_time_lost: u64) -> Seq<STrack>
    decreases tracks.len(),
{
    if tracks.len() == 0 {
        seq![]
    } else {
        let before = still_lost(tracks.drop_last(), frame_id, max_time_lost);
        if frame_id - tracks.last().frame_id <= max_time_lost {
            before.push(tracks.last().lost())
        } else {
            before
        }
    }
}

/// The detections that are sure enough to begin a track, in order.
pub open spec fn sure_enough(detections: Seq<STrack>, threshold: u32) -> Seq<STrack>
    decreases detections.len(),
{
    if detections.len() == 0 {
        seq![]
    } else {
        let before = sure_enough(detections.drop_last(), threshold);
        if detections.last().score >= threshold {
            before.push(detections.last())
        } else {
            before
        }
    }
}

/// An assignment of that many detections to that many tracks.
pub open spec fn fits(assignment: &Assignment, tracks: nat, detections: nat) -> bool {
    &&& assignment.wf()
    &&& assignment.within@.len() == tracks
    &&& tracks > 0 ==> width(assignment.within@) == detections
}

/// Whether the `i`-th of `a` and the `j`-th of `b` lie on top of each other.
pub open spec fn near(rows: Seq<Vec<bool>>, i: int, j: int) -> bool {
    rows[i]@[j]
}

/// Whether `a[i]` gives way to an older or equally old track of `b`.
pub open spec fn duplicate_of_b(a: Seq<STrack>, b: Seq<STrack>, rows: Seq<Vec<bool>>, i: int) -> bool {
    exists|j: int| 0 <= j < b.len() && #[trigger] near(rows, i, j) && a[i].age() <= b[j].age()
}

/// Whether `b[j]` gives way to an older track of `a`.
pub open spec fn duplicate_of_a(a: Seq<STrack>, b: Seq<STrack>, rows: Seq<Vec<bool>>, j: int) -> bool {
    exists|i: int| 0 <= i < a.len() && #[trigger] near(rows, i, j) && a[i].age() > b[j].age()
}

/// Those of the first `count` tracks of `a` that do not give way, in order.
pub open spec fn kept_of_a(a: Seq<STrack>, b: Seq<STrack>, rows: Seq<Vec<bool>>, count: nat) -> Seq<
    STrack,
>
    decreases count,
{
    if count == 0 {
        seq![]
    } else {
        let before = kept_of_a(a, b, rows, (count - 1) as nat);
        if duplicate_of_b(a, b, rows, count - 1) {
            before
        } else {
            before.push(a[count - 1])
        }
    }
}

/// Those of the first `count` tracks of `b` that do not give way, in order.
pub open spec fn kept_of_b(a: Seq<STrack>, b: Seq<STrack>, rows: Seq<Vec<bool>>, count: nat) -> Seq<
    STrack,
>
    decreases count,
{
    if count == 0 {
        seq![]
    } else {
        let before = kept_of_b(a, b, rows, (count - 1) as nat);
        if duplicate_of_a(a, b, rows, count - 1) {
            before
        } else {
            before.push(b[count - 1])
        }
    }
}

/// One row for each of `a`, with one entry for each of `b`.
pub open spec fn rows_fit(rows: Seq<Vec<bool>>, a: nat, b: nat) -> bool {
    &&& rows.len() == a
    &&& forall|i: int| 0 <= i < a ==> (#[trigger] rows[i])@.len() == b
}

impl TrackerView {
    /// No track was seen in a frame to come, and what was seen only once is not lost.
    pub open spec fn wf(self) -> bool {
        &&& tracks_wf(self.followed, self.frame_id)
        &&& tracks_wf(self.unconfirmed, self.frame_id)
        &&& tracks_wf(self.lost, self.frame_id)
        &&& all_followed(self.unconfirmed)
    }

    pub open spec fn low(self, detections: Seq<STrack>) -> Seq<STrack> {
        low_scores(detections, self.low_match_score_threshold, self.high_match_score_threshold)
    }

    pub open spec fn high(self, detections: Seq<STrack>) -> Seq<STrack> {
        high_scores(detections, self.low_match_score_threshold, self.high_match_score_threshold)
    }

    /// The tracker at the beginning of the next frame.
    pub open spec fn next_frame(self) -> Self {
        TrackerView { frame_id: (self.frame_id + 1) as u64, ..self }
    }

    /// Whether the tracker begins with these detections.
    pub open spec fn begins(self, detections: Seq<STrack>) -> bool {
        !self.initialized && (self.low(detections) + self.high(detections)).len() > 0
    }

    /// The tracker after it has begun with what was detected.
    pub open spec fn begun(self, detections: Seq<STrack>) -> Self {
        TrackerView {
            initialized: true,
            followed: all_activated(self.low(detections) + self.high(detections), self.frame_id),
            ..self
        }
    }

    /// All tracks that a sure detection may belong to.
    pub open spec fn candidates(self) -> Seq<STrack> {
        self.followed + self.lost
    }
}

/// How the tracks and the detections of one frame belong together.
#[derive(Debug)]
pub struct FrameMatches {
    /// The sure detections and all tracks.
    pub high: Assignment,
    /// The other detections and the tracks that are left then.
    pub low: Assignment,
    /// What is left of the sure detections and the tracks that were seen only once.
    pub unconfirmed: Assignment,
    /// Which tracks that go on and which ones that are lost lie on top of each other.
    pub near_rows: Vec<Vec<bool>>,
}

/// What a frame makes of tracks and detections, before tracks are told apart.
pub struct FrameView {
    /// The tracks that go on.
    pub activated: Seq<STrack>,
    /// The tracks that are lost.
    pub lost: Seq<STrack>,
    /// The detections that begin a track.
    pub begun: Seq<STrack>,
    pub steps: Seq<MotionStep>,
}

impl TrackerView {
    /// The tracks that are left once the sure detections are matched.
    pub open spec fn left_tracks(self, matches: FrameMatches) -> Seq<STrack> {
        picked(self.candidates(), matches.high.rest_rows())
    }

    /// The sure detections that are left once they are matched with all tracks.
    pub open spec fn left_high(self, detections: Seq<STrack>, matches: FrameMatches) -> Seq<STrack> {
        picked(self.high(detections), matches.high.rest_columns())
    }

    /// What the frame that has begun makes of the detections.
    pub open spec fn frame(self, detections: Seq<STrack>, matches: FrameMatches) -> FrameView {
        let (low, high) = (self.low(detections), self.high(detections));
        let left_tracks = self.left_tracks(matches);
        let left_high = self.left_high(detections, matches);
        let rest = if self.unconfirmed.len() == 0 {
            left_high
        } else {
            picked(left_high, matches.unconfirmed.rest_columns())
        };
        let begun = sure_enough(rest, self.new_track_score_threshold);
        let by_high = matches.high.all_matches();
        let by_low = matches.low.all_matches();
        let by_rest = matches.unconfirmed.all_matches();
        FrameView {
            activated: all_seen_again(self.candidates(), high, by_high, self.frame_id)
                + all_seen_again(left_tracks, low, by_low, self.frame_id) + all_seen_again(
                self.unconfirmed,
                left_high,
                by_rest,
                self.frame_id,
            ),
            lost: still_lost(
                picked(left_tracks, matches.low.rest_rows()),
                self.frame_id,
                self.max_time_lost,
            ),
            begun,
            steps: seen_again_steps(self.candidates(), high, by_high) + seen_again_steps(
                left_tracks,
                low,
                by_low,
            ) + seen_again_steps(self.unconfirmed, left_high, by_rest) + activate_steps(begun),
        }
    }

    /// Whether the matches are those of the frame that has begun.
    pub open spec fn frame_fits(self, detections: Seq<STrack>, matches: FrameMatches) -> bool {
        let frame = self.frame(detections, matches);
        &&& fits(&matches.high, self.candidates().len(), self.high(detections).len())
        &&& fits(&matches.low, self.left_tracks(matches).len(), self.low(detections).len())
        &&& fits(
            &matches.unconfirmed,
            self.unconfirmed.len(),
            self.left_high(detections, matches).len(),
        )
        &&& rows_fit(matches.near_rows@, frame.activated.len(), frame.lost.len())
    }

    /// The tracker after one more frame, and what is to be done with the motions meanwhile.
    pub open spec fn updated(self, detections: Seq<STrack>, matches: FrameMatches) -> (
        TrackerView,
        Seq<MotionStep>,
    ) {
        let now = self.next_frame();
        if self.begins(detections) {
            (now.begun(detections), activate_steps(self.low(detections) + self.high(detections)))
        } else {
            let frame = now.frame(detections, matches);
            let rows = matches.near_rows@;
            (
                TrackerView {
                    followed: kept_of_a(frame.activated, frame.lost, rows, frame.activated.len()),
                    lost: kept_of_b(frame.activated, frame.lost, rows, frame.lost.len()),
                    unconfirmed: all_activated(frame.begun, now.frame_id),
                    ..now
                },
                frame.steps,
            )
        }
    }
}

/// How a frame begins.
#[derive(Debug)]
pub struct FrameStart {
    pub low: Vec<STrack>,
    pub high: Vec<STrack>,
    /// Whether the tracker has begun with this frame, so that nothing is left to be done.
    pub begun: bool,
    pub steps: Vec<MotionStep>,
}

/// What is left once the sure detections are matched.
#[derive(Debug)]
pub struct HighMatches {
    pub activated: Vec<STrack>,
    pub unmatched_tracks: Vec<STrack>,
    pub unmatched_detections: Vec<STrack>,
    pub steps: Vec<MotionStep>,
}

pub proof fn lemma_width_fits(rows: Seq<Vec<bool>>)
    ensures
        width(rows) <= usize::MAX,
{
    if rows.len() > 0 {
        assert(rows[0]@.len() == rows[0].len());
    }
}

pub proof fn lemma_pairs_in_range(assignment: &Assignment, count: nat)
    requires
        assignment.wf(),
        count <= assignment.within@.len(),
        assignment.within@.len() <= usize::MAX,
    ensures
        forall|k: int|
            0 <= k < assignment.matches(count).len() ==> {
                let (i, j) = #[trigger] assignment.matches(count)[k];
                i < count && j < width(assignment.within@)
            },
        forall|k: int|
            0 <= k < assignment.unmatched_rows(count).len()
                ==> #[trigger] assignment.unmatched_rows(count)[k] < count,
    decreases count,
{
    if count > 0 {
        let before = (count - 1) as nat;
        lemma_pairs_in_range(assignment, before);
        assert forall|k: int| 0 <= k < assignment.matches(count).len() implies ({
            let (i, j) = #[trigger] assignment.matches(count)[k];
            i < count && j < width(assignment.within@)
        }) by {
            if k < assignment.matches(before).len() {
                assert(assignment.matches(count)[k] == assignment.matches(before)[k]);
            }
        }
        assert forall|k: int|
            0 <= k < assignment.unmatched_rows(count).len() implies #[trigger] assignment.unmatched_rows(
            count,
        )[k] < count by {
            if k < assignment.unmatched_rows(before).len() {
                assert(assignment.unmatched_rows(count)[k] == assignment.unmatched_rows(
                    before,
                )[k]);
            }
        }
    }
}

pub proof fn lemma_columns_in_range(assignment: &Assignment, count: nat)
    requires
        count <= usize::MAX,
    ensures
        forall|k: int|
            0 <= k < assignment.unmatched_columns(count).len()
                ==> #[trigger] assignment.unmatched_columns(count)[k] < count,
    decreases count,
{
    if count > 0 {
        let before = (count - 1) as nat;
        lemma_columns_in_range(assignment, before);
        assert forall|k: int|
            0 <= k < assignment.unmatched_columns(count).len() implies #[trigger] assignment.unmatched_columns(
            count,
        )[k] < count by {
            if k < assignment.unmatched_columns(before).len() {
                assert(assignment.unmatched_columns(count)[k] == assignment.unmatched_columns(
                    before,
                )[k]);
            }
        }
    }
}

/// Lets the matched tracks go on with their detections.
fn match_pairs(
    tracks: &Vec<STrack>,
    detections: &Vec<STrack>,
    pairs: &Vec<(usize, usize)>,
    frame_id: u64,
    activated: &mut Vec<STrack>,
    steps: &mut Vec<MotionStep>,
)
    requires
        forall|k: int|
            0 <= k < pairs@.len() ==> (#[trigger] pairs@[k]).0 < tracks@.len() && pairs@[k].1
                < detections@.len(),
        tracks_wf(tracks@, frame_id),
        tracks_wf(old(activated)@, frame_id),
    ensures
        final(activated)@ == old(activated)@ + all_seen_again(
            tracks@,
            detections@,
            pairs@,
            frame_id,
        ),
        final(steps)@ == old(steps)@ + seen_again_steps(tracks@, detections@, pairs@),
        tracks_wf(final(activated)@, frame_id),
{
    let ghost all = all_seen_again(tracks@, detections@, pairs@, frame_id);
    let ghost all_steps = seen_again_steps(tracks@, detections@, pairs@);
    let mut k: usize = 0;
    while k < pairs.len()
        invariant
            k <= pairs@.len(),
            all == all_seen_again(tracks@, detections@, pairs@, frame_id),
            all_steps == seen_again_steps(tracks@, detections@, pairs@),
            forall|k: int|
                0 <= k < pairs@.len() ==> (#[trigger] pairs@[k]).0 < tracks@.len() && pairs@[k].1
                    < detections@.len(),
            tracks_wf(tracks@, frame_id),
            tracks_wf(activated@, frame_id),
            activated@ =~= old(activated)@ + all.take(k as int),
            steps@ =~= old(steps)@ + all_steps.take(k as int),
        decreases pairs@.len() - k,
    {
        let (i, j): (usize, usize) = pairs[k];
        let mut track: STrack = tracks[i];
        assert(track.wf(frame_id));
        let step: MotionStep = track.see_again(&detections[j], frame_id);
        activated.push(track);
        steps.push(step);
        k = k + 1;
    }
    assert(all.take(k as int) =~= all);
    assert(all_steps.take(k as int) =~= all_steps);
}

fn pick(tracks: &Vec<STrack>, indices: &Vec<usize>) -> (res: Vec<STrack>)
    requires
        forall|k: int| 0 <= k < indices@.len() ==> #[trigger] indices@[k] < tracks@.len(),
    ensures
        res@ == picked(tracks@, indices@),
{
    let mut res: Vec<STrack> = Vec::new();
    let mut k: usize = 0;
    while k < indices.len()
        invariant
            k <= indices@.len(),
            forall|k: int| 0 <= k < indices@.len() ==> #[trigger] indices@[k] < tracks@.len(),
            res@ =~= picked(tracks@, indices@).take(k as int),
        decreases indices@.len() - k,
    {
        res.push(tracks[indices[k]]);
        k = k + 1;
    }
    assert(picked(tracks@, indices@).take(k as int) =~= picked(tracks@, indices@));
    res
}

fn activate_all(tracks: &Vec<STrack>, frame_id: u64, steps: &mut Vec<MotionStep>) -> (res: Vec<STrack>)
    ensures
        res@ == all_activated(tracks@, frame_id),
        final(steps)@ == old(steps)@ + activate_steps(tracks@),
        tracks_wf(res@, frame_id),
        all_followed(res@),
{
    let ghost all_steps = activate_steps(tracks@);
    let mut res: Vec<STrack> = Vec::new();
    let mut k: usize = 0;
    while k < tracks.len()
        invariant
            k <= tracks@.len(),
            all_steps == activate_steps(tracks@),
            res@ =~= all_activated(tracks@, frame_id).take(k as int),
            steps@ =~= old(steps)@ + all_steps.take(k as int),
        decreases tracks@.len() - k,
    {
        let mut track: STrack = tracks[k];
        track.activate(frame_id);
        res.push(track);
        steps.push(MotionStep::Activate(track.motion));
        k = k + 1;
    }
    assert(all_activated(tracks@, frame_id).take(k as int) =~= all_activated(tracks@, frame_id));
    assert(all_steps.take(k as int) =~= all_steps);
    res
}

fn filter_sure(detections: &Vec<STrack>, threshold: u32) -> (res: Vec<STrack>)
    ensures
        res@ == sure_enough(detections@, threshold),
{
    let mut res: Vec<STrack> = Vec::new();
    let mut k: usize = 0;
    assert(detections@.take(0) =~= seq![]);
    while k < detections.len()
        invariant
            k <= detections@.len(),
            res@ == sure_enough(detections@.take(k as int), threshold),
        decreases detections@.len() - k,
    {
        assert(detections@.take(k + 1).drop_last() =~= detections@.take(k as int));
        if detections[k].score >= threshold {
            res.push(detections[k]);
        }
        k = k + 1;
    }
    assert(detections@.take(k as int) =~= detections@);
    res
}

fn join(a: &Vec<STrack>, b: &Vec<STrack>) -> (res: Vec<STrack>)
    ensures
        res@ == a@ + b@,
{
    let mut res: Vec<STrack> = Vec::new();
    let mut k: usize = 0;
    while k < a.len()
        invariant
            k <= a@.len(),
            res@ =~= a@.take(k as int),
        decreases a@.len() - k,
    {
        res.push(a[k]);
        k = k + 1;
    }
    let mut l: usize = 0;
    while l < b.len()
        invariant
            l <= b@.len(),
            res@ =~= a@ + b@.take(l as int),
        decreases b@.len() - l,
    {
        res.push(b[l]);
        l = l + 1;
    }
    res
}

impl ByteTracker {
    pub fn new(
        max_time_lost: u64,
        high_match_score_threshold: u32,
        low_match_score_threshold: u32,
        new_track_score_threshold: u32,
        gating: IouGating,
    ) -> (res: Self)
        ensures
            res@ == (TrackerView {
                initialized: false,
                followed: seq![],
                unconfirmed: seq![],
                lost: seq![],
                frame_id: 0,
                max_time_lost,
                high_match_score_threshold,
                low_match_score_threshold,
                new_track_score_threshold,
                gating,
            }),
            res@.wf(),
    {
        ByteTracker {
            initialized: false,
            followed: Vec::new(),
            unconfirmed: Vec::new(),
            lost: Vec::new(),
            frame_id: 0,
            max_time_lost,
            high_match_score_threshold,
            low_match_score_threshold,
            new_track_score_threshold,
            gating,
        }
    }

    /// Begins the next frame: the detections are told apart by how sure they are, and where the
    /// tracker has not begun yet, it begins with all of them.
    ///
    /// A frame without detections to begin with is waited out.
    pub fn start_frame(&mut self, detections: &Vec<STrack>) -> (res: FrameStart)
        requires
            old(self)@.wf(),
            old(self).frame_id < u64::MAX,
        ensures
            res.low@ == old(self)@.low(detections@),
            res.high@ == old(self)@.high(detections@),
            res.begun == old(self)@.begins(detections@),
            final(self)@ == if old(self)@.begins(detections@) {
                old(self)@.next_frame().begun(detections@)
            } else {
                old(self)@.next_frame()
            },
            res.steps@ == if old(self)@.begins(detections@) {
                activate_steps(old(self)@.low(detections@) + old(self)@.high(detections@))
            } else {
                seq![]
            },
            final(self)@.wf(),
    {
        self.frame_id = self.frame_id + 1;
        let ghost view = self@;
        let mut low: Vec<STrack> = Vec::new();
        let mut high: Vec<STrack> = Vec::new();
        let mut k: usize = 0;
        assert(detections@.take(0) =~= seq![]);
        while k < detections.len()
            invariant
                k <= detections@.len(),
                self@ == view,
                low@ == view.low(detections@.take(k as int)),
                high@ == view.high(detections@.take(k as int)),
            decreases detections@.len() - k,
        {
            assert(detections@.take(k + 1).drop_last() =~= detections@.take(k as int));
            let score: u32 = detections[k].score;
            if score > self.low_match_score_threshold {
                if score < self.high_match_score_threshold {
                    low.push(detections[k]);
                } else {
                    high.push(detections[k]);
                }
            }
            k = k + 1;
        }
        assert(detections@.take(k as int) =~= detections@);
        let mut steps: Vec<MotionStep> = Vec::new();
        let begun: bool = self.init(&low, &high, &mut steps);
        assert(seq![] + steps@ =~= steps@);
        FrameStart { low, high, begun, steps }
    }

    fn init(&mut self, low: &Vec<STrack>, high: &Vec<STrack>, steps: &mut Vec<MotionStep>) -> (res:
        bool)
        requires
            old(self)@.wf(),
            old(steps)@.len() == 0,
        ensures
            res == (!old(self)@.initialized && (low@ + high@).len() > 0),
            final(self)@ == if res {
                TrackerView {
                    initialized: true,
                    followed: all_activated(low@ + high@, old(self)@.frame_id),
                    ..old(self)@
                }
            } else {
                old(self)@
            },
            final(steps)@ == if res {
                activate_steps(low@ + high@)
            } else {
                seq![]
            },
            final(self)@.wf(),
    {
        if self.initialized {
            return false;
        }
        let all: Vec<STrack> = join(low, high);
        // Don't initialize with zero tracks, wait for a frame with actual detections. This
        // prevents the tracker from getting stuck when the first few frames have all-zero
        // confidence scores.
        if all.len() == 0 {
            return false;
        }
        self.initialized = true;
        self.followed = activate_all(&all, self.frame_id, steps);
        assert(steps@ =~= activate_steps(low@ + high@));
        true
    }

    /// The tracks that sure detections may belong to, in the order of the rows of an assignment.
    pub fn candidates(&self) -> (res: Vec<STrack>)
        ensures
            res@ == self@.candidates(),
    {
        join(&self.followed, &self.lost)
    }

    /// Matches the sure detections with all tracks.
    pub fn associate_high_detections(
        &mut self,
        detection_tracks: &Vec<STrack>,
        assignment: &Assignment,
    ) -> (res: HighMatches)
        requires
            old(self)@.wf(),
            fits(assignment, old(self)@.candidates().len(), detection_tracks@.len()),
        ensures
            final(self)@ == (TrackerView { followed: seq![], lost: seq![], ..old(self)@ }),
            res.activated@ == all_seen_again(
                old(self)@.candidates(),
                detection_tracks@,
                assignment.all_matches(),
                old(self)@.frame_id,
            ),
            res.unmatched_tracks@ == picked(old(self)@.candidates(), assignment.rest_rows()),
            res.unmatched_detections@ == picked(detection_tracks@, assignment.rest_columns()),
            res.steps@ == seen_again_steps(
                old(self)@.candidates(),
                detection_tracks@,
                assignment.all_matches(),
            ),
            tracks_wf(res.activated@, old(self)@.frame_id),
            tracks_wf(res.unmatched_tracks@, old(self)@.frame_id),
            final(self)@.wf(),
    {
        let current_tracks: Vec<STrack> = self.candidates();
        proof {
            assert(assignment.within@.len() == assignment.within.len());
            lemma_width_fits(assignment.within@);
            lemma_pairs_in_range(assignment, assignment.within@.len());
            lemma_columns_in_range(assignment, width(assignment.within@));
        }
        self.followed = Vec::new();
        self.lost = Vec::new();
        let (matches, rows, columns): (Vec<(usize, usize)>, Vec<usize>, Vec<usize>) =
            linear_assignment(assignment);
        let mut activated: Vec<STrack> = Vec::new();
        let mut steps: Vec<MotionStep> = Vec::new();
        match_pairs(
            &current_tracks,
            detection_tracks,
            &matches,
            self.frame_id,
            &mut activated,
            &mut steps,
        );
        assert(activated@ =~= all_seen_again(
            old(self)@.candidates(),
            detection_tracks@,
            assignment.all_matches(),
            old(self)@.frame_id,
        ));
        assert(steps@ =~= seen_again_steps(
            old(self)@.candidates(),
            detection_tracks@,
            assignment.all_matches(),
        ));
        let unmatched_tracks: Vec<STrack> = pick(&current_tracks, &rows);
        let unmatched_detections: Vec<STrack> = pick(detection_tracks, &columns);
        HighMatches { activated, unmatched_tracks, unmatched_detections, steps }
    }

    /// Matches the other detections with the tracks that are left. What is then left is lost,
    /// unless it was last seen too long ago.
    pub fn associate_low_detections(
        &self,
        remain_tracks: &Vec<STrack>,
        detection_tracks: &Vec<STrack>,
        assignment: &Assignment,
        activated: &mut Vec<STrack>,
        steps: &mut Vec<MotionStep>,
    ) -> (res: Vec<STrack>)
        requires
            tracks_wf(remain_tracks@, self@.frame_id),
            tracks_wf(old(activated)@, self@.frame_id),
            fits(assignment, remain_tracks@.len(), detection_tracks@.len()),
        ensures
            final(activated)@ == old(activated)@ + all_seen_again(
                remain_tracks@,
                detection_tracks@,
                assignment.all_matches(),
                self@.frame_id,
            ),
            final(steps)@ == old(steps)@ + seen_again_steps(
                remain_tracks@,
                detection_tracks@,
                assignment.all_matches(),
            ),
            res@ == still_lost(
                picked(remain_tracks@, assignment.rest_rows()),
                self@.frame_id,
                self@.max_time_lost,
            ),
            tracks_wf(final(activated)@, self@.frame_id),
            tracks_wf(res@, self@.frame_id),
    {
        proof {
            assert(assignment.within@.len() == assignment.within.len());
            lemma_pairs_in_range(assignment, assignment.within@.len());
        }
        let (matches, rows, _): (Vec<(usize, usize)>, Vec<usize>, Vec<usize>) = linear_assignment(
            assignment,
        );
        match_pairs(
            remain_tracks,
            detection_tracks,
            &matches,
            self.frame_id,
            activated,
            steps,
        );
        let remain: Vec<STrack> = pick(remain_tracks, &rows);
        let mut lost: Vec<STrack> = Vec::new();
        let mut k: usize = 0;
        assert(remain@.take(0) =~= seq![]);
        while k < remain.len()
            invariant
                k <= remain@.len(),
                tracks_wf(remain@, self@.frame_id),
                tracks_wf(lost@, self@.frame_id),
                lost@ == still_lost(
                    remain@.take(k as int),
                    self@.frame_id,
                    self@.max_time_lost,
                ),
            decreases remain@.len() - k,
        {
            assert(remain@.take(k + 1).drop_last() =~= remain@.take(k as int));
            let mut track: STrack = remain[k];
            assert(track.wf(self@.frame_id));
            if self.frame_id - track.frame_id <= self.max_time_lost {
                track.mark_lost();
                lost.push(track);
            }
            k = k + 1;
        }
        assert(remain@.take(k as int) =~= remain@);
        lost
    }

    /// Matches what is left of the sure detections with the tracks that were seen only once.
    /// What is then left begins new tracks, if it is sure enough.
    pub fn associate_unconfirmed(
        &mut self,
        detection_tracks: &Vec<STrack>,
        assignment: &Assignment,
        activated: &mut Vec<STrack>,
        steps: &mut Vec<MotionStep>,
    ) -> (res: Vec<STrack>)
        requires
            old(self)@.wf(),
            tracks_wf(old(activated)@, old(self)@.frame_id),
            fits(assignment, old(self)@.unconfirmed.len(), detection_tracks@.len()),
        ensures
            final(self)@ == (TrackerView { unconfirmed: seq![], ..old(self)@ }),
            ({
                let view = old(self)@;
                let rest = if view.unconfirmed.len() == 0 {
                    detection_tracks@
                } else {
                    picked(detection_tracks@, assignment.rest_columns())
                };
                let begun = sure_enough(rest, view.new_track_score_threshold);
                &&& res@ == all_activated(begun, view.frame_id)
                &&& final(activated)@ == old(activated)@ + all_seen_again(
                    view.unconfirmed,
                    detection_tracks@,
                    assignment.all_matches(),
                    view.frame_id,
                )
                &&& final(steps)@ == old(steps)@ + seen_again_steps(
                    view.unconfirmed,
                    detection_tracks@,
                    assignment.all_matches(),
                ) + activate_steps(begun)
            }),
            tracks_wf(final(activated)@, old(self)@.frame_id),
            tracks_wf(res@, old(self)@.frame_id),
            all_followed(res@),
    {
        proof {
            assert(assignment.within@.len() == assignment.within.len());
            lemma_width_fits(assignment.within@);
            lemma_pairs_in_range(assignment, assignment.within@.len());
            lemma_columns_in_range(assignment, width(assignment.within@));
        }
        let (matches, _, columns): (Vec<(usize, usize)>, Vec<usize>, Vec<usize>) =
            linear_assignment(assignment);
        match_pairs(
            &self.unconfirmed,
            detection_tracks,
            &matches,
            self.frame_id,
            activated,
            steps,
        );
        let begun: Vec<STrack> = if self.unconfirmed.len() == 0 {
            filter_sure(detection_tracks, self.new_track_score_threshold)
        } else {
            let rest: Vec<STrack> = pick(detection_tracks, &columns);
            filter_sure(&rest, self.new_track_score_threshold)
        };
        self.unconfirmed = Vec::new();
        activate_all(&begun, self.frame_id, steps)
    }

    /// Ends the frame: of tracks that lie on top of each other, the older ones are kept.
    pub fn finish_frame(
        &mut self,
        activated: &Vec<STrack>,
        lost: &Vec<STrack>,
        unconfirmed: Vec<STrack>,
        near_rows: &Vec<Vec<bool>>,
    )
        requires
            rows_fit(near_rows@, activated@.len(), lost@.len()),
            tracks_wf(activated@, old(self)@.frame_id),
            tracks_wf(lost@, old(self)@.frame_id),
            tracks_wf(unconfirmed@, old(self)@.frame_id),
            all_followed(unconfirmed@),
        ensures
            final(self)@ == (TrackerView {
                followed: kept_of_a(activated@, lost@, near_rows@, activated@.len()),
                lost: kept_of_b(activated@, lost@, near_rows@, lost@.len()),
                unconfirmed: unconfirmed@,
                ..old(self)@
            }),
            final(self)@.wf(),
    {
        let ghost old_lost = lost;
        let (followed, lost): (Vec<STrack>, Vec<STrack>) = remove_duplicate_stracks(
            activated,
            lost,
            near_rows,
        );
        proof {
            lemma_kept_wf(activated@, old_lost@, near_rows@, self.frame_id);
        }
        self.followed = followed;
        self.lost = lost;
        self.unconfirmed = unconfirmed;
    }

    /// Goes through one whole frame, step by step, and returns the tracks that are followed now
    /// with what is to be done with the motions.
    pub fn update(&mut self, detections: &Vec<STrack>, matches: &FrameMatches) -> (res: (
        Vec<STrack>,
        Vec<MotionStep>,
    ))
        requires
            old(self)@.wf(),
            old(self).frame_id < u64::MAX,
            !old(self)@.begins(detections@) ==> old(self)@.next_frame().frame_fits(
                detections@,
                *matches,
            ),
        ensures
            (final(self)@, res.1@) == old(self)@.updated(detections@, *matches),
            res.0@ == final(self)@.followed,
            final(self)@.wf(),
    {
        let frame: FrameStart = self.start_frame(detections);
        if frame.begun {
            return (copy(&self.followed), frame.steps);
        }
        let ghost now = self@;
        let ghost whole = now.frame(detections@, *matches);
        let after: HighMatches = self.associate_high_detections(&frame.high, &matches.high);
        let mut activated: Vec<STrack> = after.activated;
        let mut steps: Vec<MotionStep> = after.steps;
        let lost: Vec<STrack> = self.associate_low_detections(
            &after.unmatched_tracks,
            &frame.low,
            &matches.low,
            &mut activated,
            &mut steps,
        );
        let unconfirmed: Vec<STrack> = self.associate_unconfirmed(
            &after.unmatched_detections,
            &matches.unconfirmed,
            &mut activated,
            &mut steps,
        );
        assert(activated@ =~= whole.activated);
        assert(steps@ =~= whole.steps);
        self.finish_frame(&activated, &lost, unconfirmed, &matches.near_rows);
        (copy(&self.followed), steps)
    }
}

/// Tells tracks apart that lie on top of each other: the older one is kept, and of two equally
/// old ones that of `b`.
pub fn remove_duplicate_stracks(a: &Vec<STrack>, b: &Vec<STrack>, near_rows: &Vec<Vec<bool>>) -> (res:
    (Vec<STrack>, Vec<STrack>))
    requires
        rows_fit(near_rows@, a@.len(), b@.len()),
        forall|i: int| 0 <= i < a@.len() ==> (#[trigger] a@[i]).start_frame_id <= a@[i].frame_id,
        forall|j: int| 0 <= j < b@.len() ==> (#[trigger] b@[j]).start_frame_id <= b@[j].frame_id,
    ensures
        res.0@ == kept_of_a(a@, b@, near_rows@, a@.len()),
        res.1@ == kept_of_b(a@, b@, near_rows@, b@.len()),
{
    let mut kept_a: Vec<STrack> = Vec::new();
    let mut i: usize = 0;
    while i < a.len()
        invariant
            i <= a@.len(),
            rows_fit(near_rows@, a@.len(), b@.len()),
            forall|i: int|
                0 <= i < a@.len() ==> (#[trigger] a@[i]).start_frame_id <= a@[i].frame_id,
            forall|j: int|
                0 <= j < b@.len() ==> (#[trigger] b@[j]).start_frame_id <= b@[j].frame_id,
            kept_a@ == kept_of_a(a@, b@, near_rows@, i as nat),
        decreases a@.len() - i,
    {
        let time_a: u64 = a[i].frame_id - a[i].start_frame_id;
        let mut duplicate: bool = false;
        let mut j: usize = 0;
        while j < b.len()
            invariant
                i < a@.len(),
                j <= b@.len(),
                rows_fit(near_rows@, a@.len(), b@.len()),
                forall|j: int|
                    0 <= j < b@.len() ==> (#[trigger] b@[j]).start_frame_id <= b@[j].frame_id,
                time_a == a@[i as int].age(),
                duplicate == exists|l: int|
                    0 <= l < j && #[trigger] near(near_rows@, i as int, l) && a@[i as int].age()
                        <= b@[l].age(),
            decreases b@.len() - j,
        {
            let time_b: u64 = b[j].frame_id - b[j].start_frame_id;
            let close: bool = near_rows[i][j];
            assert(close == near(near_rows@, i as int, j as int));
            if close && time_a <= time_b {
                duplicate = true;
            }
            j = j + 1;
        }
        assert(duplicate == duplicate_of_b(a@, b@, near_rows@, i as int));
        if !duplicate {
            kept_a.push(a[i]);
        }
        i = i + 1;
    }
    let mut kept_b: Vec<STrack> = Vec::new();
    let mut j: usize = 0;
    while j < b.len()
        invariant
            j <= b@.len(),
            rows_fit(near_rows@, a@.len(), b@.len()),
            forall|i: int|
                0 <= i < a@.len() ==> (#[trigger] a@[i]).start_frame_id <= a@[i].frame_id,
            forall|j: int|
                0 <= j < b@.len() ==> (#[trigger] b@[j]).start_frame_id <= b@[j].frame_id,
            kept_b@ == kept_of_b(a@, b@, near_rows@, j as nat),
        decreases b@.len() - j,
    {
        let time_b: u64 = b[j].frame_id - b[j].start_frame_id;
        let mut duplicate: bool = false;
        let mut i: usize = 0;
        while i < a.len()
            invariant
                j < b@.len(),
                i <= a@.len(),
                rows_fit(near_rows@, a@.len(), b@.len()),
                forall|i: int|
                    0 <= i < a@.len() ==> (#[trigger] a@[i]).start_frame_id <= a@[i].frame_id,
                time_b == b@[j as int].age(),
                duplicate == exists|l: int|
                    0 <= l < i && #[trigger] near(near_rows@, l, j as int) && a@[l].age()
                        > b@[j as int].age(),
            decreases a@.len() - i,
        {
            let time_a: u64 = a[i].frame_id - a[i].start_frame_id;
            let close: bool = near_rows[i][j];
            assert(close == near(near_rows@, i as int, j as int));
            if close && time_a > time_b {
                duplicate = true;
            }
            i = i + 1;
        }
        assert(duplicate == duplicate_of_a(a@, b@, near_rows@, j as int));
        if !duplicate {
            kept_b.push(b[j]);
        }
        j = j + 1;
    }
    (kept_a, kept_b)
}

/// Whether `track` is one of the first `count` of `a` and does not give way.
pub open spec fn survives_in_a(
    a: Seq<STrack>,
    b: Seq<STrack>,
    rows: Seq<Vec<bool>>,
    count: nat,
    track: STrack,
) -> bool {
    exists|i: int|
        0 <= i < count && (#[trigger] a[i]) == track && !duplicate_of_b(a, b, rows, i)
}

/// Whether `track` is one of the first `count` of `b` and does not give way.
pub open spec fn survives_in_b(
    a: Seq<STrack>,
    b: Seq<STrack>,
    rows: Seq<Vec<bool>>,
    count: nat,
    track: STrack,
) -> bool {
    exists|j: int|
        0 <= j < count && (#[trigger] b[j]) == track && !duplicate_of_a(a, b, rows, j)
}

pub proof fn lemma_kept_of_a(a: Seq<STrack>, b: Seq<STrack>, rows: Seq<Vec<bool>>, count: nat, k: int)
    requires
        0 <= k < kept_of_a(a, b, rows, count).len(),
    ensures
        survives_in_a(a, b, rows, count, kept_of_a(a, b, rows, count)[k]),
    decreases count,
{
    let before = (count - 1) as nat;
    let track = kept_of_a(a, b, rows, count)[k];
    if k < kept_of_a(a, b, rows, before).len() {
        lemma_kept_of_a(a, b, rows, before, k);
        let i = choose|i: int|
            0 <= i < before && (#[trigger] a[i]) == track && !duplicate_of_b(a, b, rows, i);
        assert(a[i] == track);
    } else {
        assert(a[count - 1] == track);
    }
}

pub proof fn lemma_kept_of_b(a: Seq<STrack>, b: Seq<STrack>, rows: Seq<Vec<bool>>, count: nat, k: int)
    requires
        0 <= k < kept_of_b(a, b, rows, count).len(),
    ensures
        survives_in_b(a, b, rows, count, kept_of_b(a, b, rows, count)[k]),
    decreases count,
{
    let before = (count - 1) as nat;
    let track = kept_of_b(a, b, rows, count)[k];
    if k < kept_of_b(a, b, rows, before).len() {
        lemma_kept_of_b(a, b, rows, before, k);
        let j = choose|j: int|
            0 <= j < before && (#[trigger] b[j]) == track && !duplicate_of_a(a, b, rows, j);
        assert(b[j] == track);
    } else {
        assert(b[count - 1] == track);
    }
}

proof fn lemma_kept_wf(a: Seq<STrack>, b: Seq<STrack>, rows: Seq<Vec<bool>>, frame_id: u64)
    requires
        tracks_wf(a, frame_id),
        tracks_wf(b, frame_id),
    ensures
        tracks_wf(kept_of_a(a, b, rows, a.len()), frame_id),
        tracks_wf(kept_of_b(a, b, rows, b.len()), frame_id),
{
    assert forall|k: int| 0 <= k < kept_of_a(a, b, rows, a.len()).len() implies (
    #[trigger] kept_of_a(a, b, rows, a.len())[k]).wf(frame_id) by {
        lemma_kept_of_a(a, b, rows, a.len(), k);
    }
    assert forall|k: int| 0 <= k < kept_of_b(a, b, rows, b.len()).len() implies (
    #[trigger] kept_of_b(a, b, rows, b.len())[k]).wf(frame_id) by {
        lemma_kept_of_b(a, b, rows, b.len(), k);
    }
}

/// Of two tracks that lie on top of each other at least one gives way, so that no two of those
/// that are kept do.
pub proof fn law_near_tracks_do_not_both_survive(
    a: Seq<STrack>,
    b: Seq<STrack>,
    rows: Seq<Vec<bool>>,
    i: int,
    j: int,
)
    requires
        0 <= i < a.len(),
        0 <= j < b.len(),
        near(rows, i, j),
    ensures
        duplicate_of_b(a, b, rows, i) || duplicate_of_a(a, b, rows, j),
{
}

/// A track survives unless it lies on top of another one: tracks that are apart from all others
/// are kept.
pub proof fn law_tracks_apart_survive(a: Seq<STrack>, b: Seq<STrack>, rows: Seq<Vec<bool>>, i: int)
    requires
        0 <= i < a.len(),
        forall|j: int| 0 <= j < b.len() ==> !#[trigger] near(rows, i, j),
    ensures
        !duplicate_of_b(a, b, rows, i),
{
}

/// Every detection that counts at all is either sure or not, and none is both: together there are
/// as many as have a score above the lower threshold.
pub proof fn law_detections_are_sure_or_not(detections: Seq<STrack>, low: u32, high: u32)
    ensures
        low_scores(detections, low, high).len() + high_scores(detections, low, high).len()
            == detections.filter(|track: STrack| low < track.score).len(),
    decreases detections.len(),
{
    reveal(Seq::filter);
    if detections.len() > 0 {
        law_detections_are_sure_or_not(detections.drop_last(), low, high);
    }
}

} // verus!
