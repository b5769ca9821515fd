//! The sliding window buffer: a bounded trailing queue of samples that
//! evicts its oldest entry when an insert would pass the capacity.

use vstd::prelude::*;
use crate::sample::Sample;

verus! {

/// Adjacent x positions strictly increase along the sequence.
pub open spec fn x_strictly_increasing(s: Seq<Sample>) -> bool {
    forall|i: int| 0 <= i && i + 1 < s.len() ==> #[trigger] s[i].x < s[i + 1].x
}

/// What one push leaves in a window of capacity `cap`: the sample joins
/// the tail, and the head is evicted when the length would pass `cap`.
pub open spec fn push_model(w: Seq<Sample>, s: Sample, cap: nat) -> Seq<Sample> {
    let grown = w.push(s);
    if grown.len() > cap {
        grown.subrange(1, grown.len() as int)
    } else {
        grown
    }
}

/// The window a whole run of pushes leaves behind, oldest push first.
pub open spec fn push_all(w: Seq<Sample>, xs: Seq<Sample>, cap: nat) -> Seq<Sample>
    decreases xs.len(),
{
    if xs.len() == 0 {
        w
    } else {
        push_all(push_model(w, xs[0], cap), xs.subrange(1, xs.len() as int), cap)
    }
}

/// A fixed-capacity ordered queue of samples, oldest first.  Owned and
/// mutated by the main loop alone; every other component only receives
/// a snapshot per call.
pub struct Window {
    samples: Vec<Sample>,
    cap: usize,
}

impl View for Window {
    type V = Seq<Sample>;

    closed spec fn view(&self) -> Seq<Sample> {
        self.samples@
    }
}

impl Window {
    /// The fixed capacity the window was created with.
    pub closed spec fn capacity(&self) -> nat {
        self.cap as nat
    }

    /// The window invariant: never longer than its capacity, and the
    /// x positions of successive samples strictly increase.
    pub open spec fn wf(&self) -> bool {
        &&& 1 <= self.capacity()
        &&& self@.len() <= self.capacity()
        &&& x_strictly_increasing(self@)
    }

    /// Creates an empty window of the given capacity.
    pub fn new(cap: usize) -> (w: Window)
        requires
            1 <= cap,
        ensures
            w.wf(),
            w@ == Seq::<Sample>::empty(),
            w.capacity() == cap,
    {
        Window { samples: Vec::new(), cap }
    }

    /// How many samples the window currently holds.
    pub fn len(&self) -> (n: usize)
        ensures
            n == self@.len(),
    {
        self.samples.len()
    }

    /// Appends a sample to the tail; if the length would pass the
    /// capacity, the oldest sample leaves the head.  Always succeeds.
    pub fn push(&mut self, s: Sample)
        requires
            old(self).wf(),
            old(self)@.len() > 0 ==> old(self)@.last().x < s.x,
        ensures
            final(self).wf(),
            final(self).capacity() == old(self).capacity(),
            final(self)@ == push_model(old(self)@, s, old(self).capacity()),
    {
        self.samples.push(s);
        if self.samples.len() > self.cap {
            self.samples.remove(0);
            proof {
                assert(self@ =~= push_model(old(self)@, s, old(self).capacity()));
            }
        }
        proof {
            let w = old(self)@;
            let r = self@;
            assert forall|i: int| 0 <= i && i + 1 < r.len() implies #[trigger] r[i].x < r[i + 1].x by {
                if w.len() < old(self).capacity() {
                    assert(r =~= w.push(s));
                } else {
                    assert(r[i] == w.push(s)[i + 1]);
                }
            }
        }
    }

    /// An ordered copy of the current samples, oldest first, for the
    /// axis scaler and the render pipeline to read.
    pub fn snapshot(&self) -> (r: Vec<Sample>)
        ensures
            r@ == self@,
    {
        let mut r: Vec<Sample> = Vec::new();
        let mut i: usize = 0;
        while i < self.samples.len()
            invariant
                i <= self@.len(),
                r@ == self@.take(i as int),
            decreases self@.len() - i,
        {
            r.push(self.samples[i]);
            proof {
                assert(self@.take(i + 1) =~= self@.take(i as int).push(self@[i as int]));
            }
            i += 1;
        }
        proof {
            assert(self@.take(self@.len() as int) =~= self@);
        }
        r
    }
}

/// A window built by pushes is a suffix of everything pushed through
/// it: whatever fits the capacity, newest at the tail.
pub proof fn lemma_push_all_is_suffix(w: Seq<Sample>, xs: Seq<Sample>, cap: nat)
    requires
        1 <= cap,
        w.len() <= cap,
    ensures
        ({
            let all = w + xs;
            let kept = if all.len() > cap {
                (all.len() - cap) as int
            } else {
                0
            };
            push_all(w, xs, cap) == all.subrange(kept, all.len() as int)
        }),
    decreases xs.len(),
{
    let all = w + xs;
    let kept = if all.len() > cap {
        (all.len() - cap) as int
    } else {
        0
    };
    if xs.len() == 0 {
        assert(all =~= w);
        assert(all.subrange(kept, all.len() as int) =~= w);
    } else {
        let rest = xs.subrange(1, xs.len() as int);
        let w1 = push_model(w, xs[0], cap);
        lemma_push_all_is_suffix(w1, rest, cap);
        let all1 = w1 + rest;
        let kept1 = if all1.len() > cap {
            (all1.len() - cap) as int
        } else {
            0
        };
        if w.len() < cap {
            assert(all1 =~= all);
            assert(push_all(w, xs, cap) == all.subrange(kept, all.len() as int));
        } else {
            assert(all1 =~= all.subrange(1, all.len() as int));
            assert(all1.subrange(kept1, all1.len() as int) =~= all.subrange(
                kept,
                all.len() as int,
            ));
        }
    }
}

/// Capacity law: more pushes than the capacity, starting empty, leave
/// exactly the last `cap` pushed samples, oldest first.
pub proof fn lemma_capacity_invariant(xs: Seq<Sample>, cap: nat)
    requires
        1 <= cap,
        xs.len() > cap,
    ensures
        push_all(Seq::<Sample>::empty(), xs, cap).len() == cap,
        push_all(Seq::<Sample>::empty(), xs, cap) == xs.subrange(
            (xs.len() - cap) as int,
            xs.len() as int,
        ),
{
    lemma_push_all_is_suffix(Seq::<Sample>::empty(), xs, cap);
    assert(Seq::<Sample>::empty() + xs =~= xs);
}

/// Monotonicity law: when the pushes continue the strict x order, the
/// window they leave keeps adjacent x positions strictly increasing.
pub proof fn lemma_pushes_keep_monotone(w: Seq<Sample>, xs: Seq<Sample>, cap: nat)
    requires
        1 <= cap,
        w.len() <= cap,
        x_strictly_increasing(w + xs),
    ensures
        x_strictly_increasing(push_all(w, xs, cap)),
{
    lemma_push_all_is_suffix(w, xs, cap);
    let all = w + xs;
    let kept = if all.len() > cap {
        (all.len() - cap) as int
    } else {
        0
    };
    let r = all.subrange(kept, all.len() as int);
    assert forall|i: int| 0 <= i && i + 1 < r.len() implies #[trigger] r[i].x < r[i + 1].x by {
        assert(r[i] == all[kept + i]);
        assert(r[i + 1] == all[kept + i + 1]);
    }
}

} // verus!
