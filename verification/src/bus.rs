//! The event bus: a broadcast channel from the one input-scanning producer
//! to independently paced peripheral controllers.
//!
//! Every subscriber observes the identical publish-ordered stream through a
//! cursor of its own; a slow subscriber lags but never misses or reorders
//! events. Backpressure is the buffer capacity: a publish is accepted only
//! while no subscriber trails by a full buffer. Subscriber slots are fixed
//! at construction, and a controller that cannot get one must fail fast at
//! startup.

use vstd::prelude::*;

use crate::event::ControllerEvent;

verus! {

/// Fixed-capacity broadcast channel carrying `ControllerEvent`s.
pub struct EventBus {
    events: Vec<ControllerEvent>,
    cursors: Vec<usize>,
    capacity: usize,
    max_subscribers: usize,
}

impl EventBus {
    /// Everything ever published, in publish order.
    pub closed spec fn spec_history(self) -> Seq<ControllerEvent> {
        self.events@
    }

    /// How many subscriptions exist.
    pub closed spec fn spec_subscriber_count(self) -> int {
        self.cursors@.len() as int
    }

    /// How many events subscriber `i` has consumed.
    pub closed spec fn spec_cursor(self, i: int) -> int {
        self.cursors@[i] as int
    }

    /// Buffer capacity: the most any subscriber may trail the producer.
    pub closed spec fn spec_buffer_capacity(self) -> int {
        self.capacity as int
    }

    /// Number of subscriber slots, fixed at construction.
    pub closed spec fn spec_max_subscribers(self) -> int {
        self.max_subscribers as int
    }

    /// The stream subscriber `i` has observed so far: a prefix of the
    /// publish history.
    pub open spec fn spec_observed(self, i: int) -> Seq<ControllerEvent> {
        self.spec_history().take(self.spec_cursor(i))
    }

    /// Cursors never pass the producer, slots never exceed the fixed count.
    pub open spec fn wf(self) -> bool {
        &&& forall|i: int|
            0 <= i < self.spec_subscriber_count() ==> 0 <= #[trigger] self.spec_cursor(i)
                <= self.spec_history().len()
        &&& self.spec_subscriber_count() <= self.spec_max_subscribers()
    }

    /// A publish is accepted only while every subscriber trails by less than
    /// the buffer capacity.
    pub open spec fn spec_can_publish(self) -> bool {
        forall|i: int|
            0 <= i < self.spec_subscriber_count() ==> self.spec_history().len() - #[trigger] self.spec_cursor(
                i,
            ) < self.spec_buffer_capacity()
    }

    /// Creates a bus with the given buffer capacity and subscriber slots.
    pub fn new(capacity: usize, max_subscribers: usize) -> (bus: EventBus)
        ensures
            bus.wf(),
            bus.spec_history() == Seq::<ControllerEvent>::empty(),
            bus.spec_subscriber_count() == 0,
            bus.spec_buffer_capacity() == capacity,
            bus.spec_max_subscribers() == max_subscribers,
    {
        EventBus { events: Vec::new(), cursors: Vec::new(), capacity, max_subscribers }
    }

    /// Acquires a subscription. Fails exactly when the fixed slots are
    /// exhausted — a fatal initialization defect for the caller, not a
    /// runtime condition to recover from. A new subscriber starts at the
    /// current end of the stream and sees every event published after it.
    pub fn subscribe(&mut self) -> (id: Option<usize>)
        requires
            old(self).wf(),
        ensures
            final(self).wf(),
            final(self).spec_history() == old(self).spec_history(),
            final(self).spec_buffer_capacity() == old(self).spec_buffer_capacity(),
            final(self).spec_max_subscribers() == old(self).spec_max_subscribers(),
            id is Some <==> old(self).spec_subscriber_count() < old(self).spec_max_subscribers(),
            id matches Some(n) ==> {
                &&& n == old(self).spec_subscriber_count()
                &&& final(self).spec_subscriber_count() == old(self).spec_subscriber_count() + 1
                &&& final(self).spec_cursor(n as int) == old(self).spec_history().len()
                &&& forall|i: int|
                    0 <= i < old(self).spec_subscriber_count() ==> #[trigger] final(
                        self).spec_cursor(i) == old(self).spec_cursor(i)
            },
            id is None ==> final(self).spec_subscriber_count() == old(self).spec_subscriber_count()
                && forall|i: int|
                0 <= i < old(self).spec_subscriber_count() ==> #[trigger] final(self).spec_cursor(i)
                    == old(self).spec_cursor(i),
    {
        if self.cursors.len() < self.max_subscribers {
            let id = self.cursors.len();
            self.cursors.push(self.events.len());
            proof {
                assert forall|i: int|
                    0 <= i < self.spec_subscriber_count() implies 0 <= #[trigger] self.spec_cursor(
                    i,
                ) <= self.spec_history().len() by {
                    if i < id {
                        assert(old(self).spec_cursor(i) <= old(self).spec_history().len());
                    }
                }
            }
            Some(id)
        } else {
            None
        }
    }

    /// Publishes one event if no subscriber trails by a full buffer;
    /// otherwise leaves the bus untouched and reports the backpressure.
    /// An accepted event goes behind every event published before it and is
    /// eventually seen by every subscriber in exactly that order.
    pub fn try_publish(&mut self, event: ControllerEvent) -> (accepted: bool)
        requires
            old(self).wf(),
        ensures
            final(self).wf(),
            final(self).spec_buffer_capacity() == old(self).spec_buffer_capacity(),
            final(self).spec_max_subscribers() == old(self).spec_max_subscribers(),
            final(self).spec_subscriber_count() == old(self).spec_subscriber_count(),
            forall|i: int|
                0 <= i < old(self).spec_subscriber_count() ==> #[trigger] final(self).spec_cursor(i)
                    == old(self).spec_cursor(i),
            accepted == old(self).spec_can_publish(),
            accepted ==> final(self).spec_history() == old(self).spec_history().push(event),
            !accepted ==> final(self).spec_history() == old(self).spec_history(),
    {
        let mut k: usize = 0;
        let mut ok: bool = true;
        while k < self.cursors.len()
            invariant
                self == old(self),
                self.wf(),
                k <= self.cursors@.len(),
                ok == forall|i: int|
                    0 <= i < k ==> self.spec_history().len() - #[trigger] self.spec_cursor(i)
                        < self.spec_buffer_capacity(),
            decreases self.cursors@.len() - k,
        {
            assert(self.spec_cursor(k as int) <= self.spec_history().len());
            if self.events.len() - self.cursors[k] >= self.capacity {
                ok = false;
            }
            k = k + 1;
        }
        if ok {
            self.events.push(event);
            proof {
                assert forall|i: int|
                    0 <= i < self.spec_subscriber_count() implies 0 <= #[trigger] self.spec_cursor(
                    i,
                ) <= self.spec_history().len() by {
                    assert(old(self).spec_cursor(i) <= old(self).spec_history().len());
                }
            }
        }
        ok
    }

    /// Delivers the next unseen event to subscriber `id`, advancing only its
    /// own cursor; returns nothing when the subscriber has caught up.
    pub fn recv(&mut self, id: usize) -> (event: Option<ControllerEvent>)
        requires
            old(self).wf(),
            id < old(self).spec_subscriber_count(),
        ensures
            final(self).wf(),
            final(self).spec_history() == old(self).spec_history(),
            final(self).spec_buffer_capacity() == old(self).spec_buffer_capacity(),
            final(self).spec_max_subscribers() == old(self).spec_max_subscribers(),
            final(self).spec_subscriber_count() == old(self).spec_subscriber_count(),
            forall|i: int|
                0 <= i < old(self).spec_subscriber_count() && i != id ==> #[trigger] final(
                    self).spec_cursor(i) == old(self).spec_cursor(i),
            old(self).spec_cursor(id as int) == old(self).spec_history().len() ==> event is None
                && final(self).spec_cursor(id as int) == old(self).spec_cursor(id as int),
            old(self).spec_cursor(id as int) < old(self).spec_history().len() ==> event == Some(
                old(self).spec_history()[old(self).spec_cursor(id as int)],
            ) && final(self).spec_cursor(id as int) == old(self).spec_cursor(id as int) + 1,
    {
        let cursor = self.cursors[id];
        assert(self.spec_cursor(id as int) <= self.spec_history().len());
        if cursor < self.events.len() {
            let event = self.events[cursor];
            self.cursors[id] = cursor + 1;
            proof {
                assert forall|i: int|
                    0 <= i < self.spec_subscriber_count() implies 0 <= #[trigger] self.spec_cursor(
                    i,
                ) <= self.spec_history().len() by {
                    assert(old(self).spec_cursor(i) <= old(self).spec_history().len());
                }
            }
            Some(event)
        } else {
            None
        }
    }
}

/// Bus ordering: every subscriber's observed stream is a prefix of the one
/// publish history, so any two subscribers — however differently paced —
/// have seen the same events in the same relative order, the slower one a
/// prefix of the faster, with no loss or interleaving for either.
pub proof fn lemma_bus_ordering(bus: EventBus, i: int, j: int)
    requires
        bus.wf(),
        0 <= i < bus.spec_subscriber_count(),
        0 <= j < bus.spec_subscriber_count(),
    ensures
        bus.spec_observed(i).is_prefix_of(bus.spec_history()),
        bus.spec_cursor(i) <= bus.spec_cursor(j) ==> bus.spec_observed(i).is_prefix_of(
            bus.spec_observed(j),
        ),
        forall|k: int|
            0 <= k < bus.spec_observed(i).len() ==> #[trigger] bus.spec_observed(i)[k]
                == bus.spec_history()[k],
{
    assert(bus.spec_observed(i) =~= bus.spec_history().take(bus.spec_cursor(i)));
    if bus.spec_cursor(i) <= bus.spec_cursor(j) {
        assert(bus.spec_observed(i) =~= bus.spec_observed(j).take(bus.spec_cursor(i)));
    }
}

} // verus!
