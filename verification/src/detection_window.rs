//! The sliding window of recent nozzle detections.
//!
//! Each camera frame either found the nozzle (`Some`) or did not (`None`). The
//! window keeps the latest frames, up to its size, and counts the detections
//! among them, so that averages and confidences can be kept up to date as old
//! frames drop out.
use vstd::prelude::*;
use std::collections::VecDeque;

verus! {

/// The number of detections (`Some` frames) in `s`.
pub open spec fn detections<T>(s: Seq<Option<T>>) -> nat
    decreases s.len(),
{
    if s.len() == 0 {
        0
    } else {
        detections(s.drop_last()) + if s.last() is Some {
            1nat
        } else {
            0nat
        }
    }
}

/// The window after a frame arrives: a full window drops its oldest frame first.
pub open spec fn slide<T>(window: Seq<Option<T>>, frame: Option<T>, size: nat) -> Seq<Option<T>> {
    if window.len() == size {
        window.drop_first().push(frame)
    } else {
        window.push(frame)
    }
}

/// The latest `size` frames of a history, or all of it if it is shorter.
pub open spec fn latest<T>(history: Seq<Option<T>>, size: nat) -> Seq<Option<T>> {
    if history.len() <= size {
        history
    } else {
        history.skip(history.len() - size)
    }
}

/// Detections added at the end are counted once.
pub proof fn lemma_detections_push<T>(s: Seq<Option<T>>, x: Option<T>)
    ensures
        detections(s.push(x)) == detections(s) + if x is Some {
            1nat
        } else {
            0nat
        },
{
    assert(s.push(x).drop_last() =~= s);
}

/// Removing the first frame removes its detection from the count.
pub proof fn lemma_detections_drop_first<T>(s: Seq<Option<T>>)
    requires
        s.len() > 0,
    ensures
        detections(s) == detections(s.drop_first()) + if s[0] is Some {
            1nat
        } else {
            0nat
        },
    decreases s.len(),
{
    if s.len() > 1 {
        lemma_detections_drop_first(s.drop_last());
        assert(s.drop_last().drop_first() =~= s.drop_first().drop_last());
        assert(s.drop_first().last() == s.last());
        assert(s.drop_last()[0] == s[0]);
        assert(detections(s) == detections(s.drop_last()) + if s.last() is Some {
            1nat
        } else {
            0nat
        });
        assert(detections(s.drop_first()) == detections(s.drop_first().drop_last()) + if s.last()
            is Some {
            1nat
        } else {
            0nat
        });
    } else {
        assert(s.drop_first().len() == 0);
        assert(s.drop_last().len() == 0);
        assert(detections(s.drop_last()) == 0);
        assert(detections(s.drop_first()) == 0);
        assert(s.last() == s[0]);
    }
}

/// A window never counts more detections than it holds frames.
pub proof fn lemma_detections_bound<T>(s: Seq<Option<T>>)
    ensures
        detections(s) <= s.len(),
    decreases s.len(),
{
    if s.len() > 0 {
        lemma_detections_bound(s.drop_last());
    }
}

/// Law: the window always holds the latest frames. If it holds the latest
/// `size` frames of a history, then after the next frame arrives it holds the
/// latest `size` frames of the history extended by that frame.
pub proof fn lemma_window_holds_latest<T>(history: Seq<Option<T>>, frame: Option<T>, size: nat)
    requires
        size >= 1,
    ensures
        slide(latest(history, size), frame, size) == latest(history.push(frame), size),
{
    let w = latest(history, size);
    if history.len() < size {
        assert(slide(w, frame, size) =~= latest(history.push(frame), size));
    } else if history.len() == size {
        assert(slide(w, frame, size) =~= latest(history.push(frame), size));
    } else {
        assert(slide(w, frame, size) =~= latest(history.push(frame), size));
    }
}

/// The latest frames, with the number of detections among them.
#[derive(Debug)]
pub struct DetectionWindow<T> {
    window_size: usize,
    min_samples: usize,
    buffer: VecDeque<Option<T>>,
    valid: usize,
}

impl<T> DetectionWindow<T> {
    /// The frames held, oldest first.
    pub closed spec fn frames(&self) -> Seq<Option<T>> {
        self.buffer@
    }

    /// The most frames the window holds.
    pub closed spec fn size(&self) -> nat {
        self.window_size as nat
    }

    /// The detections needed before a guess is made.
    pub closed spec fn needed(&self) -> nat {
        self.min_samples as nat
    }

    /// The window holds at most `size` frames, `size` is positive, and the
    /// detection count matches the frames.
    pub closed spec fn wf(&self) -> bool {
        &&& self.window_size >= 1
        &&& self.buffer@.len() <= self.window_size
        &&& self.valid == detections(self.buffer@)
    }

    /// An empty window of the given size.
    pub fn with_size(window_size: usize, min_samples: usize) -> (w: Self)
        requires
            window_size >= 1,
        ensures
            w.wf(),
            w.frames().len() == 0,
            w.size() == window_size,
            w.needed() == min_samples,
    {
        DetectionWindow { window_size, min_samples, buffer: VecDeque::new(), valid: 0 }
    }

    /// Forgets every frame.
    pub fn clear(&mut self)
        requires
            old(self).wf(),
        ensures
            final(self).wf(),
            final(self).frames().len() == 0,
            final(self).size() == old(self).size(),
            final(self).needed() == old(self).needed(),
    {
        self.buffer.clear();
        self.valid = 0;
    }

    /// Adds the latest frame. A full window drops its oldest frame first; the
    /// detection in that frame, if any, is returned.
    pub fn add_frame(&mut self, pos: Option<T>) -> (evicted: Option<T>)
        requires
            old(self).wf(),
        ensures
            final(self).wf(),
            final(self).frames() == slide(old(self).frames(), pos, old(self).size()),
            evicted == if old(self).frames().len() == old(self).size() {
                old(self).frames()[0]
            } else {
                None
            },
            final(self).size() == old(self).size(),
            final(self).needed() == old(self).needed(),
    {
        let ghost start = self.buffer@;
        let mut evicted: Option<T> = None;
        if self.buffer.len() == self.window_size {
            proof {
                lemma_detections_drop_first(start);
            }
            let oldest = self.buffer.pop_front();
            match oldest {
                Some(Some(x)) => {
                    self.valid = self.valid - 1;
                    evicted = Some(x);
                },
                _ => {},
            }
            proof {
                assert(self.buffer@ =~= start.drop_first());
            }
        }
        let ghost middle = self.buffer@;
        let hit = pos.is_some();
        proof {
            lemma_detections_push(middle, pos);
            lemma_detections_bound(middle);
        }
        self.buffer.push_back(pos);
        if hit {
            self.valid = self.valid + 1;
        }
        evicted
    }

    /// The number of frames held.
    pub fn frame_count(&self) -> (n: usize)
        requires
            self.wf(),
        ensures
            n == self.frames().len(),
    {
        self.buffer.len()
    }

    /// The number of detections among the frames held.
    pub fn detection_count(&self) -> (n: usize)
        requires
            self.wf(),
        ensures
            n == detections(self.frames()),
    {
        self.valid
    }

    /// The most frames the window holds.
    pub fn window_size(&self) -> (n: usize)
        ensures
            n == self.size(),
    {
        self.window_size
    }

    /// The detections needed before a guess is made.
    pub fn min_samples(&self) -> (n: usize)
        ensures
            n == self.needed(),
    {
        self.min_samples
    }

    /// Whether there are enough detections for a guess: the window is not
    /// empty and holds at least the needed number of detections.
    pub fn ready(&self) -> (b: bool)
        requires
            self.wf(),
        ensures
            b == (self.frames().len() > 0 && detections(self.frames()) >= self.needed()),
    {
        self.buffer.len() > 0 && self.valid >= self.min_samples
    }

    /// Whether every frame held is a detection.
    pub fn all_detected(&self) -> (b: bool)
        requires
            self.wf(),
        ensures
            b == (detections(self.frames()) == self.frames().len()),
    {
        self.valid == self.buffer.len()
    }
}

impl<T> Default for DetectionWindow<T> {
    /// An empty window of 45 frames that needs 5 detections for a guess.
    fn default() -> (w: Self)
        ensures
            w.wf(),
            w.frames().len() == 0,
            w.size() == 45,
            w.needed() == 5,
    {
        DetectionWindow::with_size(45, 5)
    }
}

} // verus!
