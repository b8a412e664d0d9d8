//! Bounded ring buffer of recent boolean activity samples.
//!
//! The governor pushes one "busy" bit per cycle and reads busy fractions
//! over configurable trailing windows, plus a burst flag when the most
//! recent samples are all busy.

use vstd::prelude::*;

verus! {

/// Number of `true` entries in a sequence of samples.
pub open spec fn count_true(s: Seq<bool>) -> nat
    decreases s.len(),
{
    if s.len() == 0 {
        0
    } else {
        count_true(s.drop_last()) + (if s.last() {
            1nat
        } else {
            0nat
        })
    }
}

/// A busy count never exceeds the number of samples counted.
pub proof fn lemma_count_true_le(s: Seq<bool>)
    ensures
        count_true(s) <= s.len(),
    decreases s.len(),
{
    if s.len() > 0 {
        lemma_count_true_le(s.drop_last());
    }
}

/// Ring buffer of activity samples; the oldest sample is evicted once
/// the configured capacity is exceeded. The view lists samples from
/// oldest to newest.
pub struct SampleHistory {
    samples: Vec<bool>,
    capacity: usize,
}

impl View for SampleHistory {
    type V = Seq<bool>;

    closed spec fn view(&self) -> Seq<bool> {
        self.samples@
    }
}

impl SampleHistory {
    pub closed spec fn cap(&self) -> usize {
        self.capacity
    }

    pub open spec fn wf(&self) -> bool {
        self@.len() <= self.cap()
    }

    pub fn new(capacity: usize) -> (h: SampleHistory)
        ensures
            h.wf(),
            h.cap() == capacity,
            h@ =~= Seq::<bool>::empty(),
    {
        SampleHistory { samples: Vec::new(), capacity }
    }

    pub fn len(&self) -> (n: usize)
        ensures
            n == self@.len(),
    {
        self.samples.len()
    }

    /// Append the newest sample, evicting the oldest one when the
    /// buffer is full.
    pub fn push(&mut self, s: bool)
        requires
            old(self).wf(),
        ensures
            final(self).wf(),
            final(self).cap() == old(self).cap(),
            final(self)@ == if old(self)@.len() < old(self).cap() {
                old(self)@.push(s)
            } else {
                old(self)@.push(s).drop_first()
            },
    {
        self.samples.push(s);
        if self.samples.len() > self.capacity {
            self.samples.remove(0);
            proof {
                assert(self@ =~= old(self)@.push(s).drop_first());
            }
        }
    }

    /// Busy count over the trailing window of length `w`: returns
    /// `(count, n)` where `n = min(w, len)` and `count` is the number
    /// of busy samples among the last `n`. The busy fraction of the
    /// window is the rational `count / n` (taken as 0 when `n == 0`),
    /// so `count <= n` states that the fraction lies in [0, 1].
    pub fn busy_window(&self, w: usize) -> (r: (usize, usize))
        requires
            self.wf(),
        ensures
            r.1 == if w <= self@.len() {
                w as int
            } else {
                self@.len() as int
            },
            r.0 == count_true(self@.subrange(self@.len() - r.1, self@.len() as int)),
            r.0 <= r.1,
    {
        let len = self.samples.len();
        let n: usize = if w <= len {
            w
        } else {
            len
        };
        let start: usize = len - n;
        let mut count: usize = 0;
        let mut i: usize = start;
        proof {
            assert(self@.subrange(start as int, start as int) =~= Seq::<bool>::empty());
        }
        while i < len
            invariant
                start <= i <= len,
                len == self@.len(),
                count == count_true(self@.subrange(start as int, i as int)),
                count <= i - start,
            decreases len - i,
        {
            proof {
                assert(self@.subrange(start as int, i + 1).drop_last() =~= self@.subrange(
                    start as int,
                    i as int,
                ));
            }
            if self.samples[i] {
                count = count + 1;
            }
            i = i + 1;
        }
        (count, n)
    }

    /// Burst detection: true exactly when the window is non-empty, the
    /// history holds at least `w` samples, and the last `w` samples are
    /// all busy.
    pub fn is_burst(&self, w: usize) -> (r: bool)
        requires
            self.wf(),
        ensures
            r == (w > 0 && self@.len() >= w && (forall|i: int|
                self@.len() - w <= i < self@.len() ==> self@[i])),
    {
        let len = self.samples.len();
        if w == 0 || len < w {
            return false;
        }
        let start: usize = len - w;
        let mut i: usize = start;
        while i < len
            invariant
                start <= i <= len,
                len == self@.len(),
                start == len - w,
                forall|j: int| start <= j < i ==> self@[j],
            decreases len - i,
        {
            if !self.samples[i] {
                return false;
            }
            i = i + 1;
        }
        true
    }
}

} // verus!
