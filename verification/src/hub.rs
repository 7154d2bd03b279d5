//! Fan-out of freshness events. One publisher reaches many independent
//! subscribers, each behind its own bounded queue: a publish appends the
//! event wherever there is room and drops it (drop-newest) for any
//! subscriber whose queue is full, so a slow or stuck subscriber can never
//! block the publisher or starve the others. Within one subscriber,
//! delivery keeps publish order.

use vstd::prelude::*;

verus! {

/// Notification that the ranked store was just recomputed. It promises
/// nothing about payloads, only the moment of the refresh.
#[derive(Clone, Copy, PartialEq, Eq, Structural, Debug)]
pub struct FreshnessEvent {
    /// Seconds since the epoch at which the refresh completed.
    pub timestamp: u64,
}

/// One attached listener: its identity, its pending events in arrival
/// order, and the bound on how many may be pending at once.
pub struct Subscriber {
    pub id: u64,
    pub queue: Vec<FreshnessEvent>,
    pub capacity: usize,
}

impl Subscriber {
    /// A subscriber's queue never exceeds its positive capacity.
    pub open spec fn wf(self) -> bool {
        1 <= self.capacity && self.queue@.len() <= self.capacity
    }

    /// Whether one more event fits.
    pub open spec fn has_room(self) -> bool {
        self.queue@.len() < self.capacity
    }
}

/// A subscriber's queue after one publish: the event is appended when
/// there is room and dropped for that subscriber alone otherwise.
pub open spec fn spec_queue_after_publish(
    q: Seq<FreshnessEvent>,
    capacity: nat,
    ev: FreshnessEvent,
) -> Seq<FreshnessEvent> {
    if q.len() < capacity {
        q.push(ev)
    } else {
        q
    }
}

/// The publish side of the fan-out channel and the set of currently
/// attached subscribers.
pub struct BroadcastHub {
    pub subs: Vec<Subscriber>,
    pub next_id: u64,
}

impl BroadcastHub {
    /// Every subscriber is well formed, identities are unique, and no
    /// identity has reached the next one to be handed out.
    pub open spec fn wf(self) -> bool {
        &&& forall|i: int| 0 <= i < self.subs@.len() ==> (#[trigger] self.subs@[i]).wf()
        &&& forall|i: int| 0 <= i < self.subs@.len() ==> (#[trigger] self.subs@[i]).id
            < self.next_id
        &&& forall|i: int, j: int|
            0 <= i < j < self.subs@.len() ==> self.subs@[i].id != self.subs@[j].id
    }

    /// Whether another subscriber can still be given a fresh identity.
    pub open spec fn can_attach(self) -> bool {
        self.next_id < u64::MAX
    }

    /// The subscriber at position `j`.
    pub open spec fn sub(self, j: int) -> Subscriber {
        self.subs@[j]
    }

    /// A hub with no subscribers.
    pub fn new() -> (h: Self)
        ensures
            h.wf(),
            h.can_attach(),
            h.subs@.len() == 0,
    {
        BroadcastHub { subs: Vec::new(), next_id: 0 }
    }

    /// Attaches a new subscriber with an empty queue of the given
    /// capacity and hands back its fresh identity; nobody else moves.
    pub fn subscribe(&mut self, capacity: usize) -> (id: u64)
        requires
            old(self).wf(),
            old(self).can_attach(),
            capacity >= 1,
        ensures
            final(self).wf(),
            id == old(self).next_id,
            final(self).next_id == old(self).next_id + 1,
            final(self).subs@.len() == old(self).subs@.len() + 1,
            final(self).subs@.subrange(0, old(self).subs@.len() as int) == old(self).subs@,
            final(self).subs@.last().id == id,
            final(self).subs@.last().queue@ == Seq::<FreshnessEvent>::empty(),
            final(self).subs@.last().capacity == capacity,
    {
        let id = self.next_id;
        self.next_id = self.next_id + 1;
        self.subs.push(Subscriber { id, queue: Vec::new(), capacity });
        proof {
            assert(final(self).subs@.subrange(0, old(self).subs@.len() as int) =~= old(
                self,
            ).subs@);
        }
        id
    }

    /// Locates the subscriber carrying `id`.
    fn find_sub(subs: &Vec<Subscriber>, id: u64) -> (r: Option<usize>)
        ensures
            match r {
                Some(i) => i < subs@.len() && subs@[i as int].id == id,
                None => forall|j: int| 0 <= j < subs@.len() ==> (#[trigger] subs@[j]).id != id,
            },
    {
        let mut i: usize = 0;
        while i < subs.len()
            invariant
                i <= subs@.len(),
                forall|j: int| 0 <= j < i ==> (#[trigger] subs@[j]).id != id,
            decreases subs@.len() - i,
        {
            if subs[i].id == id {
                return Some(i);
            }
            i += 1;
        }
        None
    }

    /// Detaches the subscriber with the given identity, releasing its
    /// queue; detaching an unknown identity is a no-op.
    pub fn unsubscribe(&mut self, id: u64) -> (found: bool)
        requires
            old(self).wf(),
        ensures
            final(self).wf(),
            final(self).next_id == old(self).next_id,
            found <==> exists|i: int|
                0 <= i < old(self).subs@.len() && (#[trigger] old(self).subs@[i]).id == id,
            found ==> exists|i: int|
                0 <= i < old(self).subs@.len() && (#[trigger] old(self).subs@[i]).id == id
                    && final(self).subs@ == old(self).subs@.remove(i),
            !found ==> final(self).subs@ == old(self).subs@,
    {
        match Self::find_sub(&self.subs, id) {
            Some(i) => {
                self.subs.remove(i);
                proof {
                    assert forall|m: int, j: int|
                        0 <= m < j < self.subs@.len() implies self.subs@[m].id
                        != self.subs@[j].id by {
                        let m0: int = if m < i {
                            m
                        } else {
                            m + 1
                        };
                        let j0: int = if j < i {
                            j
                        } else {
                            j + 1
                        };
                        assert(self.subs@[m] == old(self).subs@[m0]);
                        assert(self.subs@[j] == old(self).subs@[j0]);
                    }
                    assert forall|j: int|
                        0 <= j < self.subs@.len() implies (#[trigger] self.subs@[j]).wf()
                            && self.subs@[j].id < self.next_id by {
                        let j0: int = if j < i {
                            j
                        } else {
                            j + 1
                        };
                        assert(self.subs@[j] == old(self).subs@[j0]);
                    }
                    let w = i as int;
                    assert(0 <= w < old(self).subs@.len() && old(self).subs@[w].id == id
                        && self.subs@ == old(self).subs@.remove(w));
                }
                true
            },
            None => false,
        }
    }

    /// Delivers `ev` to every attached subscriber with room in one pass;
    /// a full queue drops the event for that subscriber alone. The
    /// publisher never waits on anyone.
    pub fn publish(&mut self, ev: FreshnessEvent)
        requires
            old(self).wf(),
        ensures
            final(self).wf(),
            final(self).next_id == old(self).next_id,
            final(self).subs@.len() == old(self).subs@.len(),
            forall|i: int|
                0 <= i < old(self).subs@.len() ==> (#[trigger] final(self).subs@[i]).id == old(
                    self,
                ).subs@[i].id && final(self).subs@[i].capacity == old(self).subs@[i].capacity,
            forall|i: int|
                0 <= i < old(self).subs@.len() ==> (#[trigger] final(self).subs@[i]).queue@
                    == spec_queue_after_publish(
                    old(self).subs@[i].queue@,
                    old(self).subs@[i].capacity as nat,
                    ev,
                ),
    {
        let mut i: usize = 0;
        while i < self.subs.len()
            invariant
                old(self).wf(),
                i <= self.subs@.len(),
                self.next_id == old(self).next_id,
                self.subs@.len() == old(self).subs@.len(),
                forall|j: int|
                    0 <= j < old(self).subs@.len() ==> (#[trigger] self.subs@[j]).id == old(
                        self,
                    ).subs@[j].id && self.subs@[j].capacity == old(self).subs@[j].capacity,
                forall|j: int| i <= j < old(self).subs@.len() ==> (#[trigger] self.subs@[j]).queue@
                    == old(self).subs@[j].queue@,
                forall|j: int|
                    0 <= j < i ==> (#[trigger] self.subs@[j]).queue@ == spec_queue_after_publish(
                        old(self).subs@[j].queue@,
                        old(self).subs@[j].capacity as nat,
                        ev,
                    ),
                forall|j: int| 0 <= j < self.subs@.len() ==> (#[trigger] self.subs@[j]).wf(),
            decreases self.subs@.len() - i,
        {
            if self.subs[i].queue.len() < self.subs[i].capacity {
                self.subs[i].queue.push(ev);
            }
            i += 1;
        }
    }

    /// Takes the oldest pending event of the subscriber with the given
    /// identity, if it has one; events leave in the order they were
    /// published. Nobody else's queue moves.
    pub fn pop_event(&mut self, id: u64) -> (r: Option<FreshnessEvent>)
        requires
            old(self).wf(),
        ensures
            final(self).wf(),
            final(self).next_id == old(self).next_id,
            final(self).subs@.len() == old(self).subs@.len(),
            forall|j: int|
                0 <= j < old(self).subs@.len() ==> (#[trigger] final(self).sub(j)).id == old(
                    self,
                ).sub(j).id && final(self).sub(j).capacity == old(self).sub(j).capacity,
            forall|j: int|
                0 <= j < old(self).subs@.len() && old(self).sub(j).id != id
                    ==> (#[trigger] final(self).sub(j)).queue@ == old(self).sub(j).queue@,
            forall|j: int|
                0 <= j < old(self).subs@.len() && old(self).sub(j).id == id
                    && old(self).sub(j).queue@.len() > 0
                    ==> r == Some(old(self).sub(j).queue@[0])
                    && (#[trigger] final(self).sub(j)).queue@ == old(self).sub(j).queue@.drop_first(),
            forall|j: int|
                0 <= j < old(self).subs@.len() && old(self).sub(j).id == id
                    && old(self).sub(j).queue@.len() == 0
                    ==> r is None
                    && (#[trigger] final(self).sub(j)).queue@ == old(self).sub(j).queue@,
            (forall|j: int|
                0 <= j < old(self).subs@.len() ==> (#[trigger] old(self).sub(j)).id != id) ==> r
                is None,
    {
        proof {
            assert forall|m: int, j: int|
                0 <= m < old(self).subs@.len() && 0 <= j < old(self).subs@.len() && old(
                    self,
                ).subs@[m].id == id && old(self).subs@[j].id == id implies m == j by {
                if m < j {
                    assert(old(self).subs@[m].id != old(self).subs@[j].id);
                }
                if j < m {
                    assert(old(self).subs@[j].id != old(self).subs@[m].id);
                }
            }
        }
        match Self::find_sub(&self.subs, id) {
            Some(i) => {
                proof {
                    assert(old(self).sub(i as int).id == id);
                }
                if self.subs[i].queue.len() > 0 {
                    let ev = self.subs[i].queue.remove(0);
                    proof {
                        assert(self.subs@[i as int].queue@ =~= old(
                            self,
                        ).subs@[i as int].queue@.drop_first());
                        assert forall|j: int|
                            0 <= j < self.subs@.len() implies (#[trigger] self.subs@[j]).wf() by {
                            if j != i {
                                assert(self.subs@[j] == old(self).subs@[j]);
                            }
                        }
                    }
                    Some(ev)
                } else {
                    None
                }
            },
            None => None,
        }
    }

    /// How many subscribers are attached.
    pub fn subscriber_count(&self) -> (n: usize)
        ensures
            n == self.subs@.len(),
    {
        self.subs.len()
    }
}

/// Within one subscriber, delivery keeps publish order: two events
/// published in turn sit in the queue in that order (no ordering is
/// promised across subscribers).
pub proof fn lemma_delivery_order(
    q: Seq<FreshnessEvent>,
    capacity: nat,
    first: FreshnessEvent,
    second: FreshnessEvent,
)
    requires
        q.len() + 2 <= capacity,
    ensures
        spec_queue_after_publish(spec_queue_after_publish(q, capacity, first), capacity, second)
            == q.push(first).push(second),
{
}

/// Fan-out isolation: what one subscriber receives depends on its own
/// queue alone. A subscriber with room always receives the event, even
/// while another subscriber's transport accepts nothing and its full
/// queue drops every publish.
pub proof fn lemma_fanout_isolation(
    open_queue: Seq<FreshnessEvent>,
    open_capacity: nat,
    stuck_queue: Seq<FreshnessEvent>,
    stuck_capacity: nat,
    ev: FreshnessEvent,
)
    requires
        open_queue.len() < open_capacity,
        stuck_queue.len() >= stuck_capacity,
    ensures
        spec_queue_after_publish(open_queue, open_capacity, ev) == open_queue.push(ev),
        spec_queue_after_publish(stuck_queue, stuck_capacity, ev) == stuck_queue,
{
}

} // verus!
