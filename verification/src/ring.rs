//! The fixed-capacity circular buffer under the channel.
//!
//! A single monotonically increasing write cursor `wi` counts every value
//! ever published; it wraps into the physical array only through the modulo
//! by the capacity. Each slot holds a reference-counted handle to its value,
//! so readers share the published value instead of copying it. The buffer
//! keeps the last `capacity` published values; a reader whose cursor has
//! fallen further behind is clamped forward and silently loses the
//! overwritten values.

use crate::errors::TryRecvError;
use std::sync::Arc;
use vstd::prelude::*;

verus! {

/// Fixed-size circular array of reference-counted slots with one write cursor.
pub struct RingBuffer<T> {
    /// The physical slots; their number is the fixed capacity.
    pub slots: Vec<Option<Arc<T>>>,
    /// How many values were ever published. Monotonic, never wraps logically.
    pub wi: usize,
    /// The whole history of published values, oldest first.
    pub log: Ghost<Seq<T>>,
}

impl<T> RingBuffer<T> {
    /// The fixed capacity: how many values are retained at most.
    pub open spec fn cap(self) -> int {
        self.slots@.len() as int
    }

    /// Well-formed: at least one slot, the cursor counts the history, and
    /// every retained history position sits in its slot.
    pub open spec fn wf(self) -> bool {
        &&& self.slots@.len() >= 1
        &&& self.wi == self.log@.len()
        &&& forall|p: int|
            self.wi - self.cap() <= p < self.wi ==> p >= 0 ==> ((#[trigger] self.slots@[p % self.cap()]) matches Some(a)
                && a == self.log@[p])
    }

    /// Where a read with cursor `ri` actually starts: `ri` itself, unless the
    /// cursor lags more than the capacity, in which case it is clamped to the
    /// oldest still-retained position.
    pub open spec fn read_start(self, ri: int) -> int {
        if self.wi - ri > self.cap() {
            self.wi - self.cap()
        } else {
            ri
        }
    }

    /// The values a reader with cursor `ri` has still to receive, oldest
    /// first: the history from the (possibly clamped) read start on.
    pub open spec fn pending_from(self, ri: int) -> Seq<T> {
        self.log@.subrange(self.read_start(ri), self.wi as int)
    }

    /// A fresh buffer with `capacity` empty slots and nothing published.
    pub fn new(capacity: usize) -> (r: RingBuffer<T>)
        requires
            capacity >= 1,
        ensures
            r.wf(),
            r.cap() == capacity,
            r.wi == 0,
            r.log@ == Seq::<T>::empty(),
    {
        let mut slots: Vec<Option<Arc<T>>> = Vec::new();
        let mut i: usize = 0;
        while i < capacity
            invariant
                i <= capacity,
                slots@.len() == i,
            decreases capacity - i,
        {
            slots.push(None);
            i = i + 1;
        }
        RingBuffer { slots, wi: 0, log: Ghost(Seq::empty()) }
    }

    /// Read at cursor `ri`. A cursor that has caught up with the writer sees
    /// nothing: `Empty` while the publisher lives, `Disconnected` once it is
    /// gone (`alive`). Otherwise the value at the — possibly clamped — read
    /// start comes back as a shared handle, together with the advanced
    /// cursor. A cursor lagging more than the capacity is clamped to the
    /// oldest retained position first: the skipped values are silently lost,
    /// never an error.
    pub fn try_read(&self, ri: usize, alive: bool) -> (r: Result<(Arc<T>, usize), TryRecvError>)
        requires
            self.wf(),
            ri <= self.wi,
        ensures
            r is Ok <==> ri < self.wi,
            ri == self.wi && alive ==> r matches Err(TryRecvError::Empty),
            ri == self.wi && !alive ==> r matches Err(TryRecvError::Disconnected),
            ri < self.wi ==> (r matches Ok(p) && p.0 == self.log@[self.read_start(ri as int)]
                && p.1 == self.read_start(ri as int) + 1),
    {
        if ri == self.wi {
            if alive {
                Err(TryRecvError::Empty)
            } else {
                Err(TryRecvError::Disconnected)
            }
        } else {
            let cap = self.slots.len();
            let start = if self.wi - ri > cap {
                self.wi - cap
            } else {
                ri
            };
            let idx = start % cap;
            proof {
                assert(self.slots@[idx as int] matches Some(a) && a == self.log@[start as int]);
            }
            let slot: &Option<Arc<T>> = &self.slots[idx];
            let a: &Arc<T> = slot.as_ref().unwrap();
            Ok((a.clone(), start + 1))
        }
    }

    /// Publish one value: wrap it in a shared handle, store it at
    /// `wi % capacity` (overwriting the slot in place), then advance `wi`.
    pub fn publish(&mut self, value: T)
        requires
            old(self).wf(),
            old(self).wi < usize::MAX,
        ensures
            final(self).wf(),
            final(self).log@ == old(self).log@.push(value),
            final(self).wi == old(self).wi + 1,
            final(self).cap() == old(self).cap(),
    {
        let ghost new_log = self.log@.push(value);
        let handle = Arc::new(value);
        let cap = self.slots.len();
        let idx = self.wi % cap;
        self.slots[idx] = Some(handle);
        self.wi = self.wi + 1;
        self.log = Ghost(new_log);
        proof {
            assert forall|p: int|
                self.wi - self.cap() <= p < self.wi && p >= 0 implies ((#[trigger] self.slots@[p
                % self.cap()]) matches Some(a) && a == self.log@[p]) by {
                let c = self.cap();
                if p == self.wi - 1 {
                    assert(p % c == idx as int);
                } else {
                    assert(p % c != idx as int) by {
                        lemma_mod_window_distinct(p, self.wi - 1, c);
                    }
                }
            }
        }
    }
    /// How one publish moves a reader's pending sequence: while the reader is
    /// within capacity the new value is simply appended; once the buffer is
    /// full for that reader, the oldest pending value falls off the front as
    /// the new one is appended.
    pub proof fn lemma_publish_pending(pre: Self, post: Self, ri: int, value: T)
        requires
            pre.wf(),
            post.cap() == pre.cap(),
            post.wi == pre.wi + 1,
            post.log@ == pre.log@.push(value),
            0 <= ri <= pre.wi,
        ensures
            pre.pending_from(ri).len() < pre.cap() ==> post.pending_from(ri)
                == pre.pending_from(ri).push(value),
            pre.pending_from(ri).len() == pre.cap() ==> post.pending_from(ri)
                == pre.pending_from(ri).drop_first().push(value),
    {
        if pre.pending_from(ri).len() < pre.cap() {
            assert(post.pending_from(ri) =~= pre.pending_from(ri).push(value));
        } else {
            assert(post.pending_from(ri) =~= pre.pending_from(ri).drop_first().push(value));
        }
    }

    /// Law: a subscriber standing at the head that then sees at most
    /// `capacity` values published has exactly those values pending, in
    /// order — within capacity nothing is lost and nothing is reordered.
    pub proof fn lemma_within_capacity_no_loss(pre: Self, post: Self, vs: Seq<T>)
        requires
            pre.wf(),
            post.cap() == pre.cap(),
            post.wi == pre.wi + vs.len(),
            post.log@ == pre.log@ + vs,
            vs.len() <= pre.cap(),
        ensures
            post.pending_from(pre.wi as int) == vs,
    {
        assert(post.pending_from(pre.wi as int) =~= vs);
    }

    /// Law: a reader lagging more than the capacity still gets a value, not
    /// an error; its next value is the oldest retained one — the value
    /// published `capacity` positions before the head — and exactly
    /// `capacity` values are pending.
    pub proof fn lemma_lag_skips_to_oldest(self, ri: int)
        requires
            self.wf(),
            0 <= ri,
            self.wi - ri > self.cap(),
        ensures
            self.pending_from(ri).len() == self.cap(),
            self.pending_from(ri)[0] == self.log@[self.wi - self.cap()],
    {
    }

    /// Law: round trip — the value just published to a reader standing at
    /// the head is the one and only value that reader has pending, unchanged.
    pub proof fn lemma_round_trip(pre: Self, post: Self, value: T)
        requires
            pre.wf(),
            post.cap() == pre.cap(),
            post.wi == pre.wi + 1,
            post.log@ == pre.log@.push(value),
        ensures
            post.pending_from(pre.wi as int) == seq![value],
    {
        assert(post.pending_from(pre.wi as int) =~= seq![value]);
    }
}

/// Two distinct positions less than `c` apart land in distinct slots of a
/// `c`-slot ring.
proof fn lemma_mod_window_distinct(p: int, w: int, c: int)
    requires
        c >= 1,
        w - c < p < w,
        p >= 0,
    ensures
        p % c != w % c,
{
    let d = w - p;
    assert(0 < d < c);
    if p % c == w % c {
        vstd::arithmetic::div_mod::lemma_mod_equivalence(w, p, c);
        assert(d % c == 0);
        vstd::arithmetic::div_mod::lemma_small_mod(d as nat, c as nat);
        assert(false);
    }
}

} // verus!
