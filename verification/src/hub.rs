//! The broadcast hub: one producer, many independent subscribers, no memory
//! of history beyond a fixed-capacity ring and no backpressure. `publish`
//! never blocks and never fails; a subscriber that falls more than the
//! capacity behind silently loses the oldest entries. A subscription sees
//! exactly what is published after it is created, in publish order.

use vstd::prelude::*;
use vstd::pervasive::VecAdditionalExecFns;
use crate::text::clone_bytes;

verus! {

/// The absolute index of the oldest entry the ring still holds.
pub open spec fn oldest_index(history_len: int, capacity: int) -> int {
    if history_len <= capacity {
        0
    } else {
        history_len - capacity
    }
}

/// The absolute index of the next entry a subscriber at `cursor` will
/// receive: its own position, or the oldest retained entry if it has lagged
/// behind the ring.
pub open spec fn start_index(history_len: int, capacity: int, cursor: int) -> int {
    let oldest = oldest_index(history_len, capacity);
    if cursor >= oldest {
        cursor
    } else {
        oldest
    }
}

/// Everything a subscriber at `cursor` has yet to receive.
pub open spec fn pending_of(history: Seq<Seq<u8>>, capacity: int, cursor: int) -> Seq<Seq<u8>> {
    history.skip(start_index(history.len() as int, capacity, cursor))
}

/// The broadcast hub. `history` is the ghost record of everything ever
/// published; the ring holds its last `capacity` entries, and each
/// subscriber's cursor is an absolute position in that history. Publishing
/// takes the hub exclusively, so concurrent publishes are serialized by
/// construction and the order of history is well defined.
pub struct Hub {
    capacity: usize,
    entries: Vec<Vec<u8>>,
    dropped: u64,
    cursors: Vec<u64>,
    active: Vec<bool>,
    history: Ghost<Seq<Seq<u8>>>,
}

impl Hub {
    /// Everything ever published, oldest first.
    pub closed spec fn history(self) -> Seq<Seq<u8>> {
        self.history@
    }

    pub closed spec fn cap(self) -> int {
        self.capacity as int
    }

    /// How many messages have ever been published.
    pub open spec fn total(self) -> int {
        self.history().len() as int
    }

    pub closed spec fn num_subs(self) -> int {
        self.cursors@.len() as int
    }

    pub closed spec fn sub_cursor(self, i: int) -> int {
        self.cursors@[i] as int
    }

    pub closed spec fn sub_active(self, i: int) -> bool {
        self.active@[i]
    }

    /// What subscriber `i` has yet to receive.
    pub open spec fn pending(self, i: int) -> Seq<Seq<u8>> {
        pending_of(self.history(), self.cap(), self.sub_cursor(i))
    }

    pub closed spec fn wf(self) -> bool {
        &&& self.capacity >= 1
        &&& self.entries@.len() <= self.capacity
        &&& self.dropped as int + self.entries@.len() == self.history@.len()
        &&& self.dropped as int == oldest_index(self.history@.len() as int, self.cap())
        &&& forall|i: int|
            0 <= i < self.entries@.len() ==> self.entries@[i]@ == self.history@[
                self.dropped as int + i
            ]
        &&& self.cursors@.len() == self.active@.len()
        &&& forall|i: int|
            0 <= i < self.cursors@.len() ==> #[trigger] self.cursors@[i] as int
                <= self.history@.len()
        &&& self.history@.len() < u64::MAX
    }

    /// A fresh hub that retains at most `capacity` undelivered entries per
    /// subscriber.
    pub fn new(capacity: usize) -> (r: Hub)
        requires
            capacity >= 1,
        ensures
            r.wf(),
            r.cap() == capacity,
            r.history() == Seq::<Seq<u8>>::empty(),
            r.num_subs() == 0,
    {
        Hub {
            capacity,
            entries: Vec::new(),
            dropped: 0,
            cursors: Vec::new(),
            active: Vec::new(),
            history: Ghost(Seq::empty()),
        }
    }

    pub fn total_published(&self) -> (r: u64)
        requires
            self.wf(),
        ensures
            r as int == self.total(),
    {
        self.dropped + self.entries.len() as u64
    }

    pub fn subscriber_count(&self) -> (r: usize)
        ensures
            r as int == self.num_subs(),
    {
        self.cursors.len()
    }

    /// The operators' lag metric: how many entries subscriber `id` has lost
    /// to the drop policy, the distance from its cursor back to the oldest
    /// entry the ring still retains.
    pub fn lag(&self, id: usize) -> (r: u64)
        requires
            self.wf(),
            id < self.num_subs(),
        ensures
            r as int == start_index(self.total(), self.cap(), self.sub_cursor(id as int))
                - self.sub_cursor(id as int),
    {
        let c: u64 = self.cursors[id];
        if c < self.dropped {
            self.dropped - c
        } else {
            0
        }
    }

    pub fn is_active(&self, id: usize) -> (r: bool)
        requires
            self.wf(),
            id < self.num_subs(),
        ensures
            r == self.sub_active(id as int),
    {
        self.active[id]
    }

    /// Appends `msg` to the ring, dropping the oldest retained entry when the
    /// ring is full. Never blocks and touches no subscriber state: every
    /// subscriber keeps its cursor, so slow consumers cost the producer
    /// nothing.
    pub fn publish(&mut self, msg: Vec<u8>)
        requires
            old(self).wf(),
            old(self).total() + 1 < u64::MAX,
        ensures
            final(self).wf(),
            final(self).history() == old(self).history().push(msg@),
            final(self).cap() == old(self).cap(),
            final(self).num_subs() == old(self).num_subs(),
            forall|i: int|
                0 <= i < old(self).num_subs() ==> final(self).sub_cursor(i) == old(self).sub_cursor(
                    i,
                ) && final(self).sub_active(i) == old(self).sub_active(i),
    {
        let ghost m: Seq<u8> = msg@;
        if self.entries.len() == self.capacity {
            self.entries.remove(0);
            self.dropped = self.dropped + 1;
        }
        self.entries.push(msg);
        proof {
            self.history@ = self.history@.push(m);
            assert forall|i: int| 0 <= i < self.entries@.len() implies self.entries@[i]@
                == self.history@[self.dropped as int + i] by {}
        }
    }

    /// Attaches a new subscription. Its cursor starts at the current end of
    /// history: it will observe every payload published from this point on
    /// and nothing published before.
    pub fn subscribe(&mut self) -> (id: usize)
        requires
            old(self).wf(),
            old(self).num_subs() < usize::MAX,
        ensures
            final(self).wf(),
            id == old(self).num_subs(),
            final(self).history() == old(self).history(),
            final(self).cap() == old(self).cap(),
            final(self).num_subs() == old(self).num_subs() + 1,
            final(self).sub_active(id as int),
            final(self).sub_cursor(id as int) == old(self).total(),
            final(self).pending(id as int) == Seq::<Seq<u8>>::empty(),
            forall|i: int|
                0 <= i < old(self).num_subs() ==> final(self).sub_cursor(i) == old(self).sub_cursor(i) && final(self).sub_active(i) == old(self).sub_active(i),
    {
        let id = self.cursors.len();
        let here: u64 = self.dropped + self.entries.len() as u64;
        self.cursors.push(here);
        self.active.push(true);
        proof {
            assert(self.pending(id as int) =~= Seq::<Seq<u8>>::empty());
        }
        id
    }

    /// Hands subscriber `id` its next undelivered entry, skipping anything
    /// the ring has already dropped, or `None` when it is caught up. Touches
    /// no other subscriber.
    pub fn poll(&mut self, id: usize) -> (r: Option<Vec<u8>>)
        requires
            old(self).wf(),
            id < old(self).num_subs(),
        ensures
            final(self).wf(),
            final(self).history() == old(self).history(),
            final(self).cap() == old(self).cap(),
            final(self).num_subs() == old(self).num_subs(),
            forall|i: int|
                0 <= i < old(self).num_subs() ==> final(self).sub_active(i) == old(self).sub_active(
                    i,
                ),
            forall|i: int|
                0 <= i < old(self).num_subs() && i != id ==> final(self).sub_cursor(i) == old(self).sub_cursor(i),
            ({
                let start = start_index(
                    old(self).total(),
                    old(self).cap(),
                    old(self).sub_cursor(id as int),
                );
                &&& (r is Some <==> start < old(self).total())
                &&& (r matches Some(m) ==> m@ == old(self).history()[start] && final(self).sub_cursor(id as int) == start + 1)
                &&& (r is None ==> final(self).sub_cursor(id as int) == old(self).sub_cursor(
                    id as int,
                ))
            }),
    {
        let c: u64 = self.cursors[id];
        let start: u64 = if c < self.dropped {
            self.dropped
        } else {
            c
        };
        let total: u64 = self.dropped + self.entries.len() as u64;
        if start == total {
            None
        } else {
            let idx: usize = (start - self.dropped) as usize;
            let m = clone_bytes(&self.entries[idx]);
            self.cursors.set(id, start + 1);
            Some(m)
        }
    }

    /// Detaches subscriber `id`; the server calls this on the first failed
    /// delivery. No other subscription is affected.
    pub fn unsubscribe(&mut self, id: usize)
        requires
            old(self).wf(),
            id < old(self).num_subs(),
        ensures
            final(self).wf(),
            final(self).history() == old(self).history(),
            final(self).cap() == old(self).cap(),
            final(self).num_subs() == old(self).num_subs(),
            forall|i: int|
                0 <= i < old(self).num_subs() ==> final(self).sub_cursor(i) == old(self).sub_cursor(
                    i,
                ),
            !final(self).sub_active(id as int),
            forall|i: int|
                0 <= i < old(self).num_subs() && i != id ==> final(self).sub_active(i) == old(self).sub_active(i),
    {
        self.active.set(id, false);
    }
}

/// Fan-out: publishing one message extends what every subscriber that has
/// not lagged out of the ring will receive by exactly that message, at the
/// end. Delivery order per subscriber therefore matches publish order.
pub proof fn lemma_publish_fan_out(
    history: Seq<Seq<u8>>,
    capacity: int,
    cursor: int,
    msg: Seq<u8>,
)
    requires
        capacity >= 1,
        0 <= cursor <= history.len(),
        pending_of(history, capacity, cursor).len() < capacity,
    ensures
        pending_of(history.push(msg), capacity, cursor) == pending_of(
            history,
            capacity,
            cursor,
        ).push(msg),
{
    let len = history.len() as int;
    let s0 = start_index(len, capacity, cursor);
    let s1 = start_index(len + 1, capacity, cursor);
    assert(s1 == s0);
    assert(pending_of(history.push(msg), capacity, cursor) =~= pending_of(
        history,
        capacity,
        cursor,
    ).push(msg));
}

/// Late-subscriber isolation: a subscription created after `early` was
/// published and before `late` receives `late` and nothing else — in
/// particular it never sees `early`.
pub proof fn lemma_late_subscriber(
    history: Seq<Seq<u8>>,
    capacity: int,
    early: Seq<u8>,
    late: Seq<u8>,
)
    requires
        capacity >= 1,
    ensures
        ({
            let joined = history.push(early).len() as int;
            let after = history.push(early).push(late);
            &&& pending_of(after, capacity, joined) == seq![late]
            &&& (early != late ==> !pending_of(after, capacity, joined).contains(early))
        }),
{
    let joined = history.push(early).len() as int;
    let after = history.push(early).push(late);
    assert(pending_of(after, capacity, joined) =~= seq![late]);
    if early != late {
        assert forall|i: int| 0 <= i < seq![late].len() implies seq![late][i] != early by {}
    }
}

} // verus!
