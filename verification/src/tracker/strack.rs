//! A single track.

use vstd::prelude::*;

verus! {

#[derive(Clone, Copy, PartialEq, Eq, Debug, Structural)]
pub enum TrackState {
    Followed,
    Lost,
}

/// A shape followed from frame to frame.
///
/// Where it is and how it moves is estimated elsewhere, under [`Self::motion`].
#[derive(Clone, Copy, PartialEq, Eq, Debug, Structural)]
pub struct STrack {
    /// Names the estimate of its motion.
    pub motion: u64,
    pub state: TrackState,
    /// How sure its last detection was: the surer, the larger.
    pub score: u32,
    /// The frame it was last seen in.
    pub frame_id: u64,
    /// The frame it was first seen in.
    pub start_frame_id: u64,
    /// For how many frames it has been followed without a break.
    pub tracklet_len: u64,
}

/// What is to be done with the estimate of a motion.
#[derive(Clone, Copy, PartialEq, Eq, Debug, Structural)]
pub enum MotionStep {
    /// A new estimate starts.
    Activate(u64),
    /// The first estimate goes on with what the second one measured.
    Update(u64, u64),
    /// The first estimate starts again with what the second one measured.
    Reactivate(u64, u64),
}

impl STrack {
    /// What was detected, before it is followed.
    pub fn new(motion: u64, score: u32) -> (res: Self)
        ensures
            res == (STrack {
                motion,
                state: TrackState::Followed,
                score,
                frame_id: 0,
                start_frame_id: 0,
                tracklet_len: 0,
            }),
    {
        STrack {
            motion,
            state: TrackState::Followed,
            score,
            frame_id: 0,
            start_frame_id: 0,
            tracklet_len: 0,
        }
    }

    /// It was seen no later than in `frame_id`.
    pub open spec fn wf(self, frame_id: u64) -> bool {
        self.start_frame_id <= self.frame_id <= frame_id
    }

    /// For how many frames it has been known.
    pub open spec fn age(self) -> int {
        self.frame_id - self.start_frame_id
    }

    pub open spec fn activated(self, frame_id: u64) -> Self {
        STrack {
            state: TrackState::Followed,
            frame_id,
            start_frame_id: frame_id,
            tracklet_len: 0,
            ..self
        }
    }

    /// It was detected again, as `detection`.
    pub open spec fn seen_again(self, detection: STrack, frame_id: u64) -> Self {
        STrack {
            state: TrackState::Followed,
            score: detection.score,
            frame_id,
            tracklet_len: if self.state is Lost {
                0
            } else if self.tracklet_len == u64::MAX {
                u64::MAX
            } else {
                (self.tracklet_len + 1) as u64
            },
            ..self
        }
    }

    /// What happens to the estimate of its motion then.
    pub open spec fn seen_again_step(self, detection: STrack) -> MotionStep {
        match self.state {
            TrackState::Followed => MotionStep::Update(self.motion, detection.motion),
            TrackState::Lost => MotionStep::Reactivate(self.motion, detection.motion),
        }
    }

    pub open spec fn lost(self) -> Self {
        STrack { state: TrackState::Lost, ..self }
    }

    pub fn activate(&mut self, frame_id: u64)
        ensures
            *final(self) == old(self).activated(frame_id),
    {
        self.state = TrackState::Followed;
        self.frame_id = frame_id;
        self.start_frame_id = frame_id;
        self.tracklet_len = 0;
    }

    /// Goes on with what was detected: an update where the track was tracked, and a reactivation
    /// where it was lost.
    pub fn see_again(&mut self, detection: &STrack, frame_id: u64) -> (res: MotionStep)
        ensures
            *final(self) == old(self).seen_again(*detection, frame_id),
            res == old(self).seen_again_step(*detection),
    {
        let step: MotionStep = match self.state {
            TrackState::Followed => {
                if self.tracklet_len < u64::MAX {
                    self.tracklet_len = self.tracklet_len + 1;
                }
                MotionStep::Update(self.motion, detection.motion)
            },
            TrackState::Lost => {
                self.tracklet_len = 0;
                MotionStep::Reactivate(self.motion, detection.motion)
            },
        };
        self.state = TrackState::Followed;
        self.score = detection.score;
        self.frame_id = frame_id;
        step
    }

    pub fn mark_lost(&mut self)
        ensures
            *final(self) == old(self).lost(),
    {
        self.state = TrackState::Lost;
    }
}

} // verus!
