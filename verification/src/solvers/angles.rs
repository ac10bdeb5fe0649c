//! How the orientation of each shape has changed lately.

use std::collections::VecDeque;

use vstd::prelude::*;

verus! {

/// Sliding-window size for orientation-angle history used in rotation detection.
pub const ANGLE_WINDOW: usize = 20;

/// The latest angles of one track.
#[derive(Debug)]
pub struct Window<T> {
    pub track_id: u64,
    pub angles: VecDeque<T>,
}

/// Per-track orientation-angle history for rotation detection.
/// The correct shape self-rotates, causing its principal-axis angle to drift. Distractors only
/// translate, so their orientation stays nearly constant.
#[derive(Debug)]
pub struct AngleHistory<T> {
    pub windows: Vec<Window<T>>,
}

/// The angles of a track, none if it is not known.
pub open spec fn window_of<T>(windows: Seq<Window<T>>, track_id: u64) -> Seq<T>
    decreases windows.len(),
{
    if windows.len() == 0 {
        seq![]
    } else if windows.last().track_id == track_id {
        windows.last().angles@
    } else {
        window_of(windows.drop_last(), track_id)
    }
}

/// A window after one more angle: the oldest one leaves a window that is full.
pub open spec fn slid<T>(window: Seq<T>, angle: T) -> Seq<T> {
    if window.len() < ANGLE_WINDOW {
        window.push(angle)
    } else {
        window.push(angle).drop_first()
    }
}

impl<T: Copy> AngleHistory<T> {
    /// Each track has one window, and none of them is longer than it may be.
    pub open spec fn wf(&self) -> bool {
        &&& forall|i: int, j: int|
            0 <= i < j < self.windows@.len() ==> (#[trigger] self.windows@[i]).track_id != (
            #[trigger] self.windows@[j]).track_id
        &&& forall|i: int|
            0 <= i < self.windows@.len() ==> (#[trigger] self.windows@[i]).angles@.len()
                <= ANGLE_WINDOW
    }

    /// The angles of a track, from the oldest to the latest.
    pub open spec fn of(&self, track_id: u64) -> Seq<T> {
        window_of(self.windows@, track_id)
    }

    pub fn new() -> (res: Self)
        ensures
            res.wf(),
            forall|track_id: u64| #[trigger] res.of(track_id) == Seq::<T>::empty(),
    {
        AngleHistory { windows: Vec::new() }
    }

    fn position(&self, track_id: u64) -> (res: Option<usize>)
        requires
            self.wf(),
        ensures
            match res {
                Some(i) => i < self.windows@.len() && self.windows@[i as int].track_id == track_id
                    && self.of(track_id) == self.windows@[i as int].angles@,
                None => self.of(track_id).len() == 0 && forall|i: int|
                    0 <= i < self.windows@.len() ==> (#[trigger] self.windows@[i]).track_id
                        != track_id,
            },
    {
        let mut i: usize = 0;
        assert(self.windows@.take(0) =~= seq![]);
        while i < self.windows.len()
            invariant
                i <= self.windows@.len(),
                forall|j: int|
                    0 <= j < i ==> (#[trigger] self.windows@[j]).track_id != track_id,
                self.wf(),
                window_of(self.windows@.take(i as int), track_id).len() == 0,
            decreases self.windows@.len() - i,
        {
            if self.windows[i].track_id == track_id {
                proof {
                    lemma_window_at(self.windows@, i as int);
                }
                return Some(i);
            }
            assert(self.windows@.take(i + 1).drop_last() =~= self.windows@.take(i as int));
            i = i + 1;
        }
        assert(self.windows@.take(i as int) =~= self.windows@);
        None
    }

    /// The latest angle of a track.
    pub fn last(&self, track_id: u64) -> (res: Option<T>)
        requires
            self.wf(),
        ensures
            res == if self.of(track_id).len() == 0 {
                None
            } else {
                Some(self.of(track_id).last())
            },
    {
        match self.position(track_id) {
            Some(i) => {
                let len: usize = self.windows[i].angles.len();
                if len == 0 {
                    None
                } else {
                    Some(self.windows[i].angles[len - 1])
                }
            },
            None => None,
        }
    }

    /// How many angles of a track are known.
    pub fn len_of(&self, track_id: u64) -> (res: usize)
        requires
            self.wf(),
        ensures
            res == self.of(track_id).len(),
    {
        match self.position(track_id) {
            Some(i) => self.windows[i].angles.len(),
            None => 0,
        }
    }

    /// Remembers one more angle of a track.
    pub fn push(&mut self, track_id: u64, angle: T)
        requires
            old(self).wf(),
        ensures
            final(self).wf(),
            final(self).of(track_id) == slid(old(self).of(track_id), angle),
            forall|other: u64|
                other != track_id ==> #[trigger] final(self).of(other) == old(self).of(other),
    {
        let ghost before = self.windows@;
        match self.position(track_id) {
            Some(i) => {
                let mut window: Window<T> = self.windows.remove(i);
                let ghost rest = self.windows@;
                window.angles.push_back(angle);
                if window.angles.len() > ANGLE_WINDOW {
                    let _ = window.angles.pop_front();
                    assert(window.angles@ =~= slid(before[i as int].angles@, angle));
                }
                self.windows.push(window);
                proof {
                    assert(self.windows@.drop_last() =~= rest);
                    assert forall|other: u64| other != track_id implies #[trigger] window_of(
                        self.windows@,
                        other,
                    ) == window_of(before, other) by {
                        lemma_window_removed(before, i as int, other);
                    }
                    assert forall|a: int, b: int|
                        0 <= a < b < self.windows@.len() implies (
                    #[trigger] self.windows@[a]).track_id != (
                    #[trigger] self.windows@[b]).track_id by {
                        let x = if a < i {
                            a
                        } else {
                            a + 1
                        };
                        assert(self.windows@[a] == before[x]);
                        if b < rest.len() {
                            let y = if b < i {
                                b
                            } else {
                                b + 1
                            };
                            assert(self.windows@[b] == before[y]);
                        }
                    }
                    assert forall|a: int| 0 <= a < self.windows@.len() implies (
                    #[trigger] self.windows@[a]).angles@.len() <= ANGLE_WINDOW by {
                        if a < rest.len() {
                            let x = if a < i {
                                a
                            } else {
                                a + 1
                            };
                            assert(self.windows@[a] == before[x]);
                        }
                    }
                }
            },
            None => {
                let mut angles: VecDeque<T> = VecDeque::new();
                angles.push_back(angle);
                self.windows.push(Window { track_id, angles });
                proof {
                    assert(self.windows@.drop_last() =~= before);
                    assert(window_of(before, track_id) =~= seq![]);
                }
            },
        }
    }

    /// Forgets all tracks but those that are alive.
    pub fn retain(&mut self, live: &Vec<u64>)
        requires
            old(self).wf(),
        ensures
            final(self).wf(),
            forall|track_id: u64| #[trigger]
                final(self).of(track_id) == if live@.contains(track_id) {
                    old(self).of(track_id)
                } else {
                    seq![]
                },
    {
        let ghost before = self.windows@;
        let mut i: usize = self.windows.len();
        while i > 0
            invariant
                i <= self.windows@.len(),
                self.wf(),
                forall|j: int|
                    i <= j < self.windows@.len() ==> live@.contains(
                        (#[trigger] self.windows@[j]).track_id,
                    ),
                forall|track_id: u64| #[trigger]
                    window_of(self.windows@, track_id) == window_of(before, track_id) || (
                    !live@.contains(track_id) && window_of(self.windows@, track_id).len() == 0),
            decreases i,
        {
            i = i - 1;
            if !contains(live, self.windows[i].track_id) {
                let ghost kept = self.windows@;
                let window: Window<T> = self.windows.remove(i);
                proof {
                    assert forall|a: int, b: int|
                        0 <= a < b < self.windows@.len() implies (
                    #[trigger] self.windows@[a]).track_id != (
                    #[trigger] self.windows@[b]).track_id by {
                        let x = if a < i {
                            a
                        } else {
                            a + 1
                        };
                        let y = if b < i {
                            b
                        } else {
                            b + 1
                        };
                        assert(self.windows@[a] == kept[x]);
                        assert(self.windows@[b] == kept[y]);
                    }
                    assert forall|a: int| 0 <= a < self.windows@.len() implies (
                    #[trigger] self.windows@[a]).angles@.len() <= ANGLE_WINDOW by {
                        let x = if a < i {
                            a
                        } else {
                            a + 1
                        };
                        assert(self.windows@[a] == kept[x]);
                    }
                    assert forall|a: int| i <= a < self.windows@.len() implies live@.contains(
                        (#[trigger] self.windows@[a]).track_id,
                    ) by {
                        assert(self.windows@[a] == kept[a + 1]);
                    }
                    assert forall|track_id: u64| #[trigger]
                        window_of(self.windows@, track_id) == window_of(before, track_id) || (
                        !live@.contains(track_id) && window_of(self.windows@, track_id).len()
                            == 0) by {
                        if track_id == window.track_id {
                            lemma_window_absent(self.windows@, kept, i as int, track_id);
                        } else {
                            lemma_window_removed(kept, i as int, track_id);
                        }
                    }
                }
            }
        }
        proof {
            assert forall|track_id: u64| #[trigger] self.of(track_id) == if live@.contains(
                track_id,
            ) {
                old(self).of(track_id)
            } else {
                seq![]
            } by {
                if !live@.contains(track_id) {
                    lemma_window_none(self.windows@, track_id);
                }
            }
        }
    }

    /// Whether so many angles of some track are known.
    pub fn has_window_of(&self, len: usize) -> (res: bool)
        requires
            self.wf(),
        ensures
            res == exists|i: int|
                0 <= i < self.windows@.len() && (#[trigger] self.windows@[i]).angles@.len() >= len,
    {
        let mut i: usize = 0;
        while i < self.windows.len()
            invariant
                i <= self.windows@.len(),
                forall|j: int|
                    0 <= j < i ==> (#[trigger] self.windows@[j]).angles@.len() < len,
            decreases self.windows@.len() - i,
        {
            if self.windows[i].angles.len() >= len {
                assert(self.windows@[i as int].angles@.len() >= len);
                return true;
            }
            i = i + 1;
        }
        false
    }
}

fn contains(ids: &Vec<u64>, id: u64) -> (res: bool)
    ensures
        res == ids@.contains(id),
{
    let mut i: usize = 0;
    while i < ids.len()
        invariant
            i <= ids@.len(),
            forall|j: int| 0 <= j < i ==> #[trigger] ids@[j] != id,
        decreases ids@.len() - i,
    {
        if ids[i] == id {
            assert(ids@[i as int] == id);
            return true;
        }
        i = i + 1;
    }
    false
}

proof fn lemma_window_none<T>(windows: Seq<Window<T>>, track_id: u64)
    requires
        forall|i: int| 0 <= i < windows.len() ==> (#[trigger] windows[i]).track_id != track_id,
    ensures
        window_of(windows, track_id) == Seq::<T>::empty(),
    decreases windows.len(),
{
    if windows.len() > 0 {
        assert(windows[windows.len() - 1].track_id != track_id);
        assert forall|i: int| 0 <= i < windows.drop_last().len() implies (
        #[trigger] windows.drop_last()[i]).track_id != track_id by {
            assert(windows[i].track_id != track_id);
        }
        lemma_window_none(windows.drop_last(), track_id);
    }
}

proof fn lemma_window_absent<T>(
    rest: Seq<Window<T>>,
    windows: Seq<Window<T>>,
    i: int,
    track_id: u64,
)
    requires
        0 <= i < windows.len(),
        windows[i].track_id == track_id,
        rest == windows.remove(i),
        forall|a: int, b: int|
            0 <= a < b < windows.len() ==> (#[trigger] windows[a]).track_id != (
            #[trigger] windows[b]).track_id,
    ensures
        window_of(rest, track_id).len() == 0,
{
    assert forall|a: int| 0 <= a < rest.len() implies (#[trigger] rest[a]).track_id
        != track_id by {
        let x = if a < i {
            a
        } else {
            a + 1
        };
        assert(rest[a] == windows[x]);
    }
    lemma_window_none(rest, track_id);
}

proof fn lemma_window_at<T>(windows: Seq<Window<T>>, i: int)
    requires
        0 <= i < windows.len(),
        forall|a: int, b: int|
            0 <= a < b < windows.len() ==> (#[trigger] windows[a]).track_id != (
            #[trigger] windows[b]).track_id,
    ensures
        window_of(windows, windows[i].track_id) == windows[i].angles@,
    decreases windows.len(),
{
    if i < windows.len() - 1 {
        assert(windows[i].track_id != windows[windows.len() - 1].track_id);
        assert(windows.drop_last()[i] == windows[i]);
        lemma_window_at(windows.drop_last(), i);
    }
}

proof fn lemma_window_removed<T>(windows: Seq<Window<T>>, i: int, other: u64)
    requires
        0 <= i < windows.len(),
        windows[i].track_id != other,
    ensures
        window_of(windows.remove(i), other) == window_of(windows, other),
    decreases windows.len(),
{
    if i == windows.len() - 1 {
        assert(windows.remove(i) =~= windows.drop_last());
    } else {
        assert(windows.remove(i).drop_last() =~= windows.drop_last().remove(i));
        assert(windows.remove(i).last() == windows.last());
        lemma_window_removed(windows.drop_last(), i, other);
    }
}

/// However many angles are remembered, only the latest ones are kept.
pub proof fn law_window_is_bounded<T>(window: Seq<T>, angle: T)
    requires
        window.len() <= ANGLE_WINDOW,
    ensures
        slid(window, angle).len() <= ANGLE_WINDOW,
        slid(window, angle).last() == angle,
{
}

/// The angles of a track are those of the window that has its id, and there are none where no window
/// has it.
pub proof fn law_angles_are_kept_by_track<T>(windows: Seq<Window<T>>, track_id: u64, at: int)
    requires
        -1 <= at < windows.len(),
        forall|i: int| at < i < windows.len() ==> (#[trigger] windows[i]).track_id != track_id,
    ensures
        at >= 0 && windows[at].track_id == track_id ==> window_of(windows, track_id)
            == windows[at].angles@,
        at == -1 ==> window_of(windows, track_id).len() == 0,
    decreases windows.len(),
{
    if windows.len() > 0 && at < windows.len() - 1 {
        assert(windows[windows.len() - 1].track_id != track_id);
        assert forall|i: int|
            at < i < windows.drop_last().len() implies (#[trigger] windows.drop_last()[i]).track_id
            != track_id by {
            assert(windows[i] == windows.drop_last()[i]);
        }
        law_angles_are_kept_by_track(windows.drop_last(), track_id, at);
    }
}

} // verus!
