//! Fixed-capacity sliding windows of `(position, value)` samples, the time
//! series behind every chart. A push at capacity evicts the oldest sample and
//! shifts every retained position down by one, so the visible x-axis window
//! stays anchored at 0.

use vstd::prelude::*;

verus! {

/// One charted sample: its x-axis position and its value.
#[derive(Clone, Copy, PartialEq, Eq, Structural, Debug)]
pub struct WindowEntry {
    pub pos: usize,
    pub value: u64,
}

/// A bounded, insertion-ordered series of samples. Positions of the retained
/// samples are always the contiguous run `0 .. len-1`, newest last.
pub struct SlidingWindow {
    entries: Vec<WindowEntry>,
    capacity: usize,
}

/// One push on the value sequence of a window of capacity `cap`: append when
/// below capacity, otherwise drop the oldest value first.
pub open spec fn window_push(s: Seq<u64>, cap: int, v: u64) -> Seq<u64> {
    if s.len() < cap {
        s.push(v)
    } else {
        s.skip(1).push(v)
    }
}

/// The value sequence after pushing every element of `vals`, oldest first.
pub open spec fn window_push_all(s: Seq<u64>, cap: int, vals: Seq<u64>) -> Seq<u64>
    decreases vals.len(),
{
    if vals.len() == 0 {
        s
    } else {
        window_push_all(window_push(s, cap, vals[0]), cap, vals.skip(1))
    }
}

pub open spec fn min_int(a: int, b: int) -> int {
    if a < b {
        a
    } else {
        b
    }
}

impl SlidingWindow {
    pub closed spec fn cap(&self) -> int {
        self.capacity as int
    }

    /// The retained samples, oldest first, as (position, value) pairs.
    pub closed spec fn entries_view(&self) -> Seq<(usize, u64)> {
        self.entries@.map(|_i: int, e: WindowEntry| (e.pos, e.value))
    }

    /// The retained values, oldest first.
    pub open spec fn values(&self) -> Seq<u64> {
        self.entries_view().map(|_i: int, p: (usize, u64)| p.1)
    }

    pub open spec fn len(&self) -> int {
        self.values().len() as int
    }

    /// Well-formed: bounded by a positive capacity, positions contiguous from 0.
    pub open spec fn wf(&self) -> bool {
        &&& self.cap() >= 1
        &&& self.len() <= self.cap()
        &&& forall|i: int| 0 <= i < self.len() ==> (#[trigger] self.entries_view()[i]).0 == i
    }

    pub fn new(capacity: usize) -> (w: SlidingWindow)
        requires
            capacity >= 1,
        ensures
            w.wf(),
            w.cap() == capacity,
            w.values() == Seq::<u64>::empty(),
    {
        let w = SlidingWindow { entries: Vec::new(), capacity };
        proof {
            assert(w.values() =~= Seq::<u64>::empty());
        }
        w
    }

    pub fn capacity(&self) -> (c: usize)
        ensures
            c == self.cap(),
    {
        self.capacity
    }

    pub fn sample_count(&self) -> (n: usize)
        ensures
            n == self.len(),
    {
        self.entries.len()
    }

    /// The retained samples as plain pairs, oldest first.
    pub fn samples(&self) -> (s: Vec<(usize, u64)>)
        ensures
            s@ == self.entries_view(),
    {
        let mut out: Vec<(usize, u64)> = Vec::new();
        let mut i: usize = 0;
        while i < self.entries.len()
            invariant
                0 <= i <= self.entries.len(),
                out@ == self.entries_view().take(i as int),
            decreases self.entries.len() - i,
        {
            let e = self.entries[i];
            out.push((e.pos, e.value));
            proof {
                assert(out@ =~= self.entries_view().take(i as int + 1));
            }
            i += 1;
        }
        proof {
            assert(out@ =~= self.entries_view());
        }
        out
    }

    /// Push one value. At capacity this evicts the oldest sample and
    /// re-indexes the survivors before appending the new sample at
    /// `position = length - 1`.
    pub fn push(&mut self, value: u64)
        requires
            old(self).wf(),
        ensures
            final(self).wf(),
            final(self).cap() == old(self).cap(),
            final(self).values() == window_push(old(self).values(), old(self).cap(), value),
            final(self).len() == min_int(old(self).len() + 1, old(self).cap()),
            final(self).values().last() == value,
    {
        if self.entries.len() == self.capacity {
            // Evict the oldest sample and shift every retained position down
            // by one, rebuilding the backing vector in order.
            let mut shifted: Vec<WindowEntry> = Vec::new();
            let mut i: usize = 1;
            while i < self.entries.len()
                invariant
                    1 <= i <= self.entries.len(),
                    self.wf(),
                    self.entries.len() == self.capacity,
                    shifted@.len() == i - 1,
                    forall|j: int|
                        0 <= j < i - 1 ==> #[trigger] shifted@[j] == (WindowEntry {
                            pos: j as usize,
                            value: self.entries@[j + 1].value,
                        }),
                decreases self.entries.len() - i,
            {
                let e = self.entries[i];
                proof {
                    assert(self.entries_view()[i as int].0 == i);
                }
                shifted.push(WindowEntry { pos: e.pos - 1, value: e.value });
                i += 1;
            }
            self.entries = shifted;
            proof {
                assert(self.values() =~= old(self).values().skip(1));
            }
        }
        proof {
            assert forall|j: int| 0 <= j < self.entries@.len() implies (#[trigger] self.entries@[j]).pos
                == j by {
                assert(self.entries_view()[j] == (self.entries@[j].pos, self.entries@[j].value));
            }
        }
        let ghost pre = self.entries@;
        let n = self.entries.len();
        self.entries.push(WindowEntry { pos: n, value });
        proof {
            if old(self).len() < old(self).cap() {
                assert(self.values() =~= old(self).values().push(value));
            } else {
                assert(self.values() =~= old(self).values().skip(1).push(value));
            }
            assert forall|i: int| 0 <= i < self.len() implies (#[trigger] self.entries_view()[i]).0
                == i by {
                assert(self.entries_view()[i] == (self.entries@[i].pos, self.entries@[i].value));
                if i < pre.len() {
                    assert(self.entries@[i] == pre[i]);
                }
            }
        }
    }
}

/// Window bound law: pushing `N` values into an empty window of capacity `C`
/// leaves exactly `min(N, C)` values retained.
pub proof fn lemma_window_bound(cap: int, vals: Seq<u64>)
    requires
        cap >= 1,
    ensures
        window_push_all(Seq::<u64>::empty(), cap, vals).len() == min_int(vals.len() as int, cap),
{
    lemma_window_push_all_len(Seq::<u64>::empty(), cap, vals);
}

/// Length of a fold of pushes: from any start below capacity, the result
/// holds `min(start + N, C)` values.
pub proof fn lemma_window_push_all_len(s: Seq<u64>, cap: int, vals: Seq<u64>)
    requires
        cap >= 1,
        s.len() <= cap,
    ensures
        window_push_all(s, cap, vals).len() == min_int(s.len() + vals.len() as int, cap),
    decreases vals.len(),
{
    if vals.len() > 0 {
        lemma_window_push_all_len(window_push(s, cap, vals[0]), cap, vals.skip(1));
    }
}

/// Re-index law: in any well-formed window that stands at capacity (as after
/// a push at capacity), the retained positions are exactly the contiguous run
/// `0 .. C-1`: the oldest sample sits at position 0 and the newest at `C-1`.
pub proof fn lemma_reindex_invariant(w: &SlidingWindow)
    requires
        w.wf(),
        w.len() == w.cap(),
    ensures
        forall|i: int| 0 <= i < w.cap() ==> (#[trigger] w.entries_view()[i]).0 == i,
        w.entries_view()[0].0 == 0,
        w.entries_view().last().0 == w.cap() - 1,
{
}

} // verus!
