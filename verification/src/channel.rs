//! The channel: a ring buffer, the subscribers' cursors, and the wake
//! registry, in one sequential state machine.
//!
//! The channel owns all shared state. The publisher side and each subscriber
//! side act on it through the methods here; a concurrent shell keeps the
//! channel behind whatever synchronisation it chooses and performs the parks
//! and unparks on the context handles that `wake_all` hands back. Subscribers
//! are addressed by the index they were created under; an index is never
//! reused, a dropped subscriber merely turns inactive.

use crate::errors::{SendError, TryRecvError};
use crate::ring::RingBuffer;
use std::sync::Arc;
use vstd::prelude::*;

verus! {

/// The channel's book-keeping for one subscriber: whether it is still alive,
/// its read cursor, and the wake-registry slot holding the handle of the
/// execution context that last registered to be woken for it.
#[derive(Clone, Copy, PartialEq, Eq, Structural, Debug)]
pub struct SubEntry {
    /// False once the subscriber was dropped; its entry stays, inert.
    pub active: bool,
    /// The subscriber's read cursor: how many history positions it has
    /// consumed or skipped.
    pub ri: usize,
    /// The wake-registry slot: the last registered execution-context handle.
    /// Overwritten, never queued; initialised to the creating context.
    pub ctx: u64,
}

/// A single-publisher, multi-subscriber broadcast channel.
pub struct Channel<T> {
    /// The shared circular buffer.
    pub ring: RingBuffer<T>,
    /// One entry per subscriber ever created, indexed by subscriber id.
    pub subs: Vec<SubEntry>,
    /// False once the publisher was dropped; the channel is then closed and
    /// drains only.
    pub pub_alive: bool,
}

/// The wake registry's view: the last registered execution-context handles
/// of the live subscribers, in subscriber order. Dropped subscribers are
/// never signalled again.
pub open spec fn wake_list(s: Seq<SubEntry>) -> Seq<u64>
    decreases s.len(),
{
    if s.len() == 0 {
        Seq::empty()
    } else {
        let init = wake_list(s.drop_last());
        if s.last().active {
            init.push(s.last().ctx)
        } else {
            init
        }
    }
}

/// Law: no registered sleeper is missed — whatever context handle a live
/// subscriber last registered is in the wake list, so a wake pass after a
/// publish (or at the publisher's end) unparks it.
pub proof fn lemma_wake_list_covers(s: Seq<SubEntry>, i: int)
    requires
        0 <= i < s.len(),
        s[i].active,
    ensures
        wake_list(s).contains(s[i].ctx),
    decreases s.len(),
{
    if i == s.len() - 1 {
        let l = wake_list(s);
        assert(l[l.len() - 1] == s[i].ctx);
    } else {
        lemma_wake_list_covers(s.drop_last(), i);
        let init = wake_list(s.drop_last());
        let k = choose|k: int| 0 <= k < init.len() && init[k] == s[i].ctx;
        assert(wake_list(s)[k] == s[i].ctx);
    }
}

impl<T> Channel<T> {
    /// Well-formed: the ring is, and no cursor has run past the write cursor.
    pub open spec fn wf(self) -> bool {
        &&& self.ring.wf()
        &&& forall|i: int|
            0 <= i < self.subs@.len() ==> (#[trigger] self.subs@[i]).ri <= self.ring.wi
    }

    /// Some subscriber is still alive, so a broadcast has an audience.
    pub open spec fn has_live_subscriber(self) -> bool {
        exists|i: int| 0 <= i < self.subs@.len() && (#[trigger] self.subs@[i]).active
    }

    /// The values subscriber `i` has still to receive, oldest first. Loss by
    /// lag shows up here: once the cursor falls more than the capacity
    /// behind, the sequence starts at the oldest retained value instead.
    pub open spec fn pending(self, i: int) -> Seq<T> {
        self.ring.pending_from(self.subs@[i].ri as int)
    }

    /// A fresh channel of the given capacity with one live subscriber, id 0,
    /// whose wake slot starts out holding the creating context's handle.
    pub fn new(capacity: usize, ctx: u64) -> (c: Channel<T>)
        requires
            capacity >= 1,
        ensures
            c.wf(),
            c.pub_alive,
            c.ring.cap() == capacity,
            c.ring.wi == 0,
            c.ring.log@ == Seq::<T>::empty(),
            c.subs@ =~= seq![SubEntry { active: true, ri: 0, ctx }],
    {
        let ring = RingBuffer::new(capacity);
        let mut subs: Vec<SubEntry> = Vec::new();
        subs.push(SubEntry { active: true, ri: 0, ctx });
        Channel { ring, subs, pub_alive: true }
    }

    /// Whether any subscriber is still alive: whether a broadcast now would
    /// have an audience.
    pub fn has_live(&self) -> (b: bool)
        ensures
            b == self.has_live_subscriber(),
    {
        let mut i: usize = 0;
        while i < self.subs.len()
            invariant
                i <= self.subs@.len(),
                forall|j: int| 0 <= j < i ==> !(#[trigger] self.subs@[j]).active,
            decreases self.subs@.len() - i,
        {
            if self.subs[i].active {
                return true;
            }
            i = i + 1;
        }
        false
    }

    /// Broadcast one value. With no live subscriber the value comes straight
    /// back in the error and nothing changes. Otherwise the value is
    /// appended to the history, every cursor stays put, and each
    /// subscriber's pending sequence grows by the value at the back — losing
    /// its front value first if that subscriber's view of the buffer was
    /// already full. The caller follows up with a wake pass.
    pub fn broadcast(&mut self, value: T) -> (r: Result<(), SendError<T>>)
        requires
            old(self).wf(),
            old(self).pub_alive,
            old(self).ring.wi < usize::MAX,
        ensures
            final(self).wf(),
            final(self).pub_alive,
            final(self).subs == old(self).subs,
            final(self).ring.cap() == old(self).ring.cap(),
            r is Ok <==> old(self).has_live_subscriber(),
            !old(self).has_live_subscriber() ==> (r matches Err(e) && e.0 == value
                && final(self).ring == old(self).ring),
            old(self).has_live_subscriber() ==> ({
                &&& final(self).ring.log@ == old(self).ring.log@.push(value)
                &&& final(self).ring.wi == old(self).ring.wi + 1
                &&& forall|j: int|
                    0 <= j < old(self).subs@.len() ==> #[trigger] final(self).pending(j) == (
                    if old(self).pending(j).len() < old(self).ring.cap() {
                        old(self).pending(j).push(value)
                    } else {
                        old(self).pending(j).drop_first().push(value)
                    })
            }),
    {
        if !self.has_live() {
            return Err(SendError(value));
        }
        let ghost pre = self.ring;
        self.ring.publish(value);
        proof {
            assert forall|j: int| 0 <= j < self.subs@.len() implies #[trigger] self.pending(j)
                == (if old(self).pending(j).len() < pre.cap() {
                old(self).pending(j).push(value)
            } else {
                old(self).pending(j).drop_first().push(value)
            }) by {
                RingBuffer::<T>::lemma_publish_pending(
                    pre,
                    self.ring,
                    self.subs@[j].ri as int,
                    value,
                );
            }
        }
        Ok(())
    }

    /// One non-blocking receive for subscriber `id`. On nothing pending the
    /// channel is left exactly as it was — `Empty` while the publisher
    /// lives, `Disconnected` once it is gone and the buffer is drained.
    /// Otherwise the oldest pending value comes back as a shared handle and
    /// only this subscriber's cursor moves, one step past the (possibly
    /// clamped) position it read.
    pub fn try_recv(&mut self, id: usize) -> (r: Result<Arc<T>, TryRecvError>)
        requires
            old(self).wf(),
            id < old(self).subs@.len(),
            old(self).subs@[id as int].active,
        ensures
            final(self).wf(),
            final(self).ring == old(self).ring,
            final(self).pub_alive == old(self).pub_alive,
            final(self).subs@.len() == old(self).subs@.len(),
            final(self).subs@[id as int].active,
            final(self).subs@[id as int].ctx == old(self).subs@[id as int].ctx,
            forall|j: int|
                0 <= j < old(self).subs@.len() && j != id ==> final(self).subs@[j] == old(
                    self,
                ).subs@[j],
            r is Ok <==> old(self).pending(id as int).len() > 0,
            old(self).pending(id as int).len() == 0 ==> ({
                &&& *final(self) == *old(self)
                &&& (old(self).pub_alive ==> r matches Err(TryRecvError::Empty))
                &&& (!old(self).pub_alive ==> r matches Err(TryRecvError::Disconnected))
            }),
            old(self).pending(id as int).len() > 0 ==> ({
                &&& (r matches Ok(a) && a == old(self).pending(id as int)[0])
                &&& final(self).pending(id as int) == old(self).pending(id as int).drop_first()
                &&& final(self).subs@[id as int].ri == old(self).ring.read_start(
                    old(self).subs@[id as int].ri as int,
                ) + 1
            }),
    {
        let entry = self.subs[id];
        let polled = self.ring.try_read(entry.ri, self.pub_alive);
        match polled {
            Ok((a, nri)) => {
                self.subs[id] = SubEntry { ri: nri, ..entry };
                proof {
                    assert(self.pending(id as int) =~= old(self).pending(id as int).drop_first());
                }
                Ok(a)
            },
            Err(e) => Err(e),
        }
    }

    /// Create a new subscriber as a clone of subscriber `id`: its own entry,
    /// its own wake slot holding `ctx`, and a cursor starting exactly where
    /// the source stands now — the two then advance independently. The new
    /// subscriber's id comes back.
    pub fn clone_subscriber(&mut self, id: usize, ctx: u64) -> (nid: usize)
        requires
            old(self).wf(),
            id < old(self).subs@.len(),
            old(self).subs@[id as int].active,
        ensures
            final(self).wf(),
            nid == old(self).subs@.len(),
            final(self).subs@ == old(self).subs@.push(
                SubEntry { active: true, ri: old(self).subs@[id as int].ri, ctx },
            ),
            final(self).ring == old(self).ring,
            final(self).pub_alive == old(self).pub_alive,
            final(self).pending(nid as int) == final(self).pending(id as int),
    {
        let entry = self.subs[id];
        let nid = self.subs.len();
        self.subs.push(SubEntry { active: true, ri: entry.ri, ctx });
        nid
    }

    /// Hand back the wake list: the registered context handle of every live
    /// subscriber, for the caller to unpark. Unparking a context that is not
    /// parked is harmless, so the pass is unconditional.
    pub fn wake_all(&self) -> (r: Vec<u64>)
        ensures
            r@ == wake_list(self.subs@),
    {
        let mut out: Vec<u64> = Vec::new();
        let mut i: usize = 0;
        while i < self.subs.len()
            invariant
                i <= self.subs@.len(),
                out@ == wake_list(self.subs@.subrange(0, i as int)),
            decreases self.subs@.len() - i,
        {
            let entry = self.subs[i];
            proof {
                let pfx = self.subs@.subrange(0, i as int + 1);
                assert(pfx.drop_last() =~= self.subs@.subrange(0, i as int));
                assert(pfx.last() == self.subs@[i as int]);
            }
            if entry.active {
                out.push(entry.ctx);
            }
            i = i + 1;
        }
        proof {
            assert(self.subs@.subrange(0, self.subs@.len() as int) =~= self.subs@);
        }
        out
    }

    /// Overwrite subscriber `id`'s wake slot with the handle of the context
    /// about to park. Last writer wins; nothing else changes.
    pub fn register(&mut self, id: usize, ctx: u64)
        requires
            old(self).wf(),
            id < old(self).subs@.len(),
        ensures
            final(self).wf(),
            final(self).ring == old(self).ring,
            final(self).pub_alive == old(self).pub_alive,
            final(self).subs@.len() == old(self).subs@.len(),
            final(self).subs@[id as int].ctx == ctx,
            final(self).subs@[id as int].active == old(self).subs@[id as int].active,
            final(self).subs@[id as int].ri == old(self).subs@[id as int].ri,
            forall|j: int|
                0 <= j < old(self).subs@.len() && j != id ==> final(self).subs@[j] == old(
                    self,
                ).subs@[j],
    {
        let entry = self.subs[id];
        self.subs[id] = SubEntry { ctx, ..entry };
    }

    /// Mark the publisher gone: the channel is closed. Existing buffered
    /// values still drain; once a subscriber catches up it sees
    /// disconnection. The caller follows up with a final wake of everyone.
    pub fn drop_publisher(&mut self)
        requires
            old(self).wf(),
        ensures
            final(self).wf(),
            !final(self).pub_alive,
            final(self).ring == old(self).ring,
            final(self).subs == old(self).subs,
    {
        self.pub_alive = false;
    }

    /// Mark subscriber `id` dropped: its entry turns inactive, its wake slot
    /// is never signalled again, and broadcasts stop counting it.
    pub fn drop_subscriber(&mut self, id: usize)
        requires
            old(self).wf(),
            id < old(self).subs@.len(),
        ensures
            final(self).wf(),
            final(self).ring == old(self).ring,
            final(self).pub_alive == old(self).pub_alive,
            final(self).subs@.len() == old(self).subs@.len(),
            !final(self).subs@[id as int].active,
            final(self).subs@[id as int].ri == old(self).subs@[id as int].ri,
            final(self).subs@[id as int].ctx == old(self).subs@[id as int].ctx,
            forall|j: int|
                0 <= j < old(self).subs@.len() && j != id ==> final(self).subs@[j] == old(
                    self,
                ).subs@[j],
    {
        let entry = self.subs[id];
        self.subs[id] = SubEntry { active: false, ..entry };
    }
}

} // verus!
