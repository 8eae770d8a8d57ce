//! The event bus: every published event goes to each subscriber of the
//! moment.
//!
//! Each subscriber has a buffer of its own, bounded by the capacity of the
//! bus. Publishing never waits. Where the buffer of a subscriber is full, the
//! oldest event in it makes room for the new one, and the subscriber is told
//! of the gap: its next receive reports how many events it missed, and the
//! one after goes on with the oldest event that is kept. A subscriber sees
//! only what was published after it subscribed.

use crate::peer::{PeerEvent, PeerEventView};
use vstd::prelude::*;

verus! {

/// Why a subscriber received no event.
#[derive(Clone, Copy, Debug, PartialEq, Eq, Structural)]
pub enum TryRecvError {
    /// Nothing is waiting.
    Empty,
    /// This many events were dropped from the subscriber's buffer since it
    /// last received; the count stops at the largest `u64`.
    Lagged(u64),
    /// The subscription has ended, or is none of this bus.
    Closed,
}

/// One subscription to a bus. It receives on the bus that handed it out.
#[derive(Debug)]
pub struct EventReceiver {
    slot: usize,
}

impl EventReceiver {
    /// The place of the subscription among the subscriptions of its bus.
    pub closed spec fn id(&self) -> int {
        self.slot as int
    }
}

#[derive(Debug)]
struct Subscriber {
    pending: Vec<PeerEvent>,
    missed: u64,
}

/// What waits for one subscriber: the events it has not received yet, oldest
/// first, and the number of events that were dropped before them.
pub struct SubscriberView {
    pub pending: Seq<PeerEventView>,
    pub missed: u64,
}

/// A bus as a plain value: its capacity, its subscriptions in the order in
/// which they were made, `None` for one that has ended, and all that was
/// ever published, in order.
pub struct BusView {
    pub capacity: nat,
    pub subscribers: Seq<Option<SubscriberView>>,
    pub published: Seq<PeerEventView>,
}

/// One more missed event, counted up to the largest `u64`.
pub open spec fn one_more(missed: u64) -> u64 {
    if missed < u64::MAX {
        (missed + 1) as u64
    } else {
        missed
    }
}

/// What waits for a subscriber after one more event: the event at the end,
/// and, where the buffer was full, the oldest event dropped and counted. A
/// buffer of no capacity keeps nothing and counts every event.
pub open spec fn deliver(sub: SubscriberView, event: PeerEventView, capacity: nat) -> SubscriberView {
    if sub.pending.len() < capacity {
        SubscriberView { pending: sub.pending.push(event), missed: sub.missed }
    } else if capacity == 0 {
        SubscriberView { pending: sub.pending, missed: one_more(sub.missed) }
    } else {
        SubscriberView { pending: sub.pending.drop_first().push(event), missed: one_more(sub.missed) }
    }
}

/// An empty bus of the given capacity.
pub open spec fn empty_bus(capacity: nat) -> BusView {
    BusView { capacity, subscribers: Seq::empty(), published: Seq::empty() }
}

/// The bus after `event` was published: delivered to every subscription
/// that has not ended.
pub open spec fn after_publish(bus: BusView, event: PeerEventView) -> BusView {
    BusView {
        capacity: bus.capacity,
        subscribers: Seq::new(
            bus.subscribers.len(),
            |i: int|
                match bus.subscribers[i] {
                    Some(sub) => Some(deliver(sub, event, bus.capacity)),
                    None => None,
                },
        ),
        published: bus.published.push(event),
    }
}

/// The bus after each event of a sequence was published, in order.
pub open spec fn after_publish_all(bus: BusView, events: Seq<PeerEventView>) -> BusView
    decreases events.len(),
{
    if events.len() == 0 {
        bus
    } else {
        after_publish(after_publish_all(bus, events.drop_last()), events.last())
    }
}

/// A subscription with nothing waiting.
pub open spec fn fresh() -> SubscriberView {
    SubscriberView { pending: Seq::empty(), missed: 0 }
}

/// The bus after one more subscription was made. Its place is the number
/// of subscriptions made before.
pub open spec fn after_subscribe(bus: BusView) -> BusView {
    BusView { subscribers: bus.subscribers.push(Some(fresh())), ..bus }
}

/// Whether `id` is a subscription of the bus that has not ended.
pub open spec fn is_live(bus: BusView, id: int) -> bool {
    0 <= id < bus.subscribers.len() && bus.subscribers[id] is Some
}

/// The bus after the subscription at `id` has ended.
pub open spec fn after_unsubscribe(bus: BusView, id: int) -> BusView {
    if 0 <= id < bus.subscribers.len() {
        BusView { subscribers: bus.subscribers.update(id, None), ..bus }
    } else {
        bus
    }
}

/// What the subscription at `id` receives next, and the bus after it: the
/// report of a gap where events were dropped, else the oldest waiting event,
/// which then waits no more.
pub open spec fn after_receive(bus: BusView, id: int) -> (BusView, Result<PeerEventView, TryRecvError>) {
    if !is_live(bus, id) {
        (bus, Err(TryRecvError::Closed))
    } else {
        let sub = bus.subscribers[id]->0;
        if sub.missed > 0 {
            (
                BusView {
                    subscribers: bus.subscribers.update(
                        id,
                        Some(SubscriberView { missed: 0, ..sub }),
                    ),
                    ..bus
                },
                Err(TryRecvError::Lagged(sub.missed)),
            )
        } else if sub.pending.len() == 0 {
            (bus, Err(TryRecvError::Empty))
        } else {
            (
                BusView {
                    subscribers: bus.subscribers.update(
                        id,
                        Some(SubscriberView { pending: sub.pending.drop_first(), ..sub }),
                    ),
                    ..bus
                },
                Ok(sub.pending[0]),
            )
        }
    }
}

/// No subscriber has more waiting than the capacity allows.
pub open spec fn within_capacity(bus: BusView) -> bool {
    forall|i: int|
        0 <= i < bus.subscribers.len() ==> (#[trigger] bus.subscribers[i] matches Some(sub)
            ==> sub.pending.len() <= bus.capacity)
}

spec fn events_of(events: Seq<PeerEvent>) -> Seq<PeerEventView> {
    events.map_values(|e: PeerEvent| e@)
}

spec fn subscriber_view(sub: Option<Subscriber>) -> Option<SubscriberView> {
    match sub {
        Some(s) => Some(SubscriberView { pending: events_of(s.pending@), missed: s.missed }),
        None => None,
    }
}

spec fn subscriber_views(subs: Seq<Option<Subscriber>>) -> Seq<Option<SubscriberView>> {
    subs.map_values(|s: Option<Subscriber>| subscriber_view(s))
}

/// The event bus.
pub struct EventBus {
    capacity: usize,
    subscribers: Vec<Option<Subscriber>>,
    published: Ghost<Seq<PeerEventView>>,
}

impl View for EventBus {
    type V = BusView;

    closed spec fn view(&self) -> BusView {
        BusView {
            capacity: self.capacity as nat,
            subscribers: subscriber_views(self.subscribers@),
            published: self.published@,
        }
    }
}

fn put(subscribers: &mut Vec<Option<Subscriber>>, at: usize, sub: Option<Subscriber>) -> (before:
    Option<Subscriber>)
    requires
        at < old(subscribers).len(),
    ensures
        final(subscribers)@ == old(subscribers)@.update(at as int, sub),
        before == old(subscribers)@[at as int],
{
    subscribers.push(sub);
    subscribers.swap_remove(at)
}

fn deliver_to(sub: Subscriber, event: &PeerEvent, capacity: usize) -> (after: Subscriber)
    requires
        sub.pending.len() <= capacity,
    ensures
        subscriber_view(Some(after)) == Some(
            deliver(subscriber_view(Some(sub))->0, event@, capacity as nat),
        ),
        after.pending.len() <= capacity,
{
    let Subscriber { mut pending, missed } = sub;
    let ghost before = events_of(pending@);
    if pending.len() < capacity {
        pending.push(event.clone());
        assert(events_of(pending@) =~= before.push(event@));
        Subscriber { pending, missed }
    } else {
        let missed = if missed < u64::MAX {
            missed + 1
        } else {
            missed
        };
        if capacity > 0 {
            pending.remove(0);
            pending.push(event.clone());
            assert(events_of(pending@) =~= before.drop_first().push(event@));
        }
        Subscriber { pending, missed }
    }
}

impl EventBus {
    #[verifier::type_invariant]
    spec fn well_formed(self) -> bool {
        forall|i: int|
            0 <= i < self.subscribers.len() ==> (#[trigger] self.subscribers[i] matches Some(sub)
                ==> sub.pending.len() <= self.capacity)
    }

    /// A bus without subscribers on which nothing was published. Each of its
    /// subscribers will have room for `capacity` events.
    pub fn new(capacity: usize) -> (bus: Self)
        ensures
            bus@ == empty_bus(capacity as nat),
            within_capacity(bus@),
    {
        let bus = EventBus { capacity, subscribers: Vec::new(), published: Ghost(Seq::empty()) };
        assert(bus@.subscribers =~= Seq::empty());
        bus
    }

    /// The room that each subscriber has.
    pub fn capacity(&self) -> (capacity: usize)
        ensures
            capacity == self@.capacity,
            within_capacity(self@),
    {
        proof {
            use_type_invariant(self);
        }
        self.capacity
    }

    /// Subscribes: the receiver that is handed back sees every event that
    /// is published from now on, and none that was published before.
    pub fn subscribe(&mut self) -> (receiver: EventReceiver)
        ensures
            final(self)@ == after_subscribe(old(self)@),
            receiver.id() == old(self)@.subscribers.len(),
            within_capacity(final(self)@),
    {
        proof {
            use_type_invariant(&*self);
        }
        let mut taken = EventBus { capacity: 0, subscribers: Vec::new(), published: Ghost(Seq::empty()) };
        std::mem::swap(self, &mut taken);
        let EventBus { capacity, mut subscribers, published } = taken;
        let slot = subscribers.len();
        subscribers.push(Some(Subscriber { pending: Vec::new(), missed: 0 }));
        proof {
            assert(events_of(Seq::<PeerEvent>::empty()) =~= Seq::<PeerEventView>::empty());
            assert(subscriber_views(subscribers@) =~= old(self)@.subscribers.push(Some(fresh())));
        }
        *self = EventBus { capacity, subscribers, published };
        EventReceiver { slot }
    }

    /// Ends a subscription. What waited for it is dropped.
    pub fn unsubscribe(&mut self, receiver: EventReceiver)
        ensures
            final(self)@ == after_unsubscribe(old(self)@, receiver.id()),
            within_capacity(final(self)@),
    {
        proof {
            use_type_invariant(&*self);
        }
        let mut taken = EventBus { capacity: 0, subscribers: Vec::new(), published: Ghost(Seq::empty()) };
        std::mem::swap(self, &mut taken);
        let EventBus { capacity, mut subscribers, published } = taken;
        if receiver.slot < subscribers.len() {
            put(&mut subscribers, receiver.slot, None);
            assert(subscriber_views(subscribers@) =~= old(self)@.subscribers.update(
                receiver.id(),
                None,
            ));
        }
        *self = EventBus { capacity, subscribers, published };
    }

    /// Whether the subscription of `receiver` is one of this bus and has not
    /// ended.
    pub fn is_subscribed(&self, receiver: &EventReceiver) -> (live: bool)
        ensures
            live == is_live(self@, receiver.id()),
    {
        if receiver.slot < self.subscribers.len() {
            assert(self@.subscribers[receiver.id()] == subscriber_view(
                self.subscribers[receiver.id()],
            ));
            self.subscribers[receiver.slot].is_some()
        } else {
            false
        }
    }

    /// Publishes `event` to every subscriber of the moment. A subscriber
    /// whose buffer is full loses its oldest event to make room.
    pub fn publish(&mut self, event: PeerEvent)
        ensures
            final(self)@ == after_publish(old(self)@, event@),
            within_capacity(final(self)@),
    {
        proof {
            use_type_invariant(&*self);
        }
        let mut taken = EventBus { capacity: 0, subscribers: Vec::new(), published: Ghost(Seq::empty()) };
        std::mem::swap(self, &mut taken);
        let EventBus { capacity, subscribers, published } = taken;
        let ghost before = subscribers@;
        let mut delivered: Vec<Option<Subscriber>> = Vec::new();
        for sub in it: subscribers
            invariant
                before == it.seq(),
                delivered.len() == it.index(),
                forall|i: int|
                    0 <= i < before.len() ==> (#[trigger] before[i] matches Some(s)
                        ==> s.pending.len() <= capacity),
                forall|i: int|
                    0 <= i < delivered.len() ==> subscriber_view(#[trigger] delivered[i]) == (
                    match subscriber_view(before[i]) {
                        Some(s) => Some(deliver(s, event@, capacity as nat)),
                        None => None,
                    }),
                forall|i: int|
                    0 <= i < delivered.len() ==> (#[trigger] delivered[i] matches Some(s)
                        ==> s.pending.len() <= capacity),
        {
            match sub {
                Some(s) => {
                    let after = deliver_to(s, &event, capacity);
                    delivered.push(Some(after));
                },
                None => {
                    delivered.push(None);
                },
            }
        }
        assert(subscriber_views(delivered@) =~= after_publish(old(self)@, event@).subscribers);
        *self = EventBus {
            capacity,
            subscribers: delivered,
            published: Ghost(published@.push(event@)),
        };
    }

    /// Hands the subscriber its next event. After events were dropped from
    /// its buffer it is told first how many; then the events that are kept
    /// follow, oldest first.
    pub fn try_recv(&mut self, receiver: &EventReceiver) -> (received: Result<
        PeerEvent,
        TryRecvError,
    >)
        ensures
            final(self)@ == after_receive(old(self)@, receiver.id()).0,
            within_capacity(final(self)@),
            match received {
                Ok(event) => after_receive(old(self)@, receiver.id()).1 == Ok::<
                    PeerEventView,
                    TryRecvError,
                >(event@),
                Err(e) => after_receive(old(self)@, receiver.id()).1 == Err::<
                    PeerEventView,
                    TryRecvError,
                >(e),
            },
    {
        proof {
            use_type_invariant(&*self);
        }
        if receiver.slot >= self.subscribers.len() {
            return Err(TryRecvError::Closed);
        }
        let mut taken = EventBus { capacity: 0, subscribers: Vec::new(), published: Ghost(Seq::empty()) };
        std::mem::swap(self, &mut taken);
        let EventBus { capacity, mut subscribers, published } = taken;
        let (after, received) = match put(&mut subscribers, receiver.slot, None) {
            None => (None, Err(TryRecvError::Closed)),
            Some(sub) => {
                let Subscriber { mut pending, missed } = sub;
                let ghost waiting = events_of(pending@);
                if missed > 0 {
                    (Some(Subscriber { pending, missed: 0 }), Err(TryRecvError::Lagged(missed)))
                } else if pending.len() == 0 {
                    (Some(Subscriber { pending, missed }), Err(TryRecvError::Empty))
                } else {
                    let event = pending.remove(0);
                    assert(events_of(pending@) =~= waiting.drop_first());
                    (Some(Subscriber { pending, missed }), Ok(event))
                }
            },
        };
        put(&mut subscribers, receiver.slot, after);
        proof {
            assert(subscriber_views(subscribers@) =~= old(self)@.subscribers.update(
                receiver.id(),
                subscriber_view(after),
            ));
            assert(after_receive(old(self)@, receiver.id()).0.subscribers =~= subscriber_views(
                subscribers@,
            ));
        }
        *self = EventBus { capacity, subscribers, published };
        received
    }

    /// How many events wait for the subscriber; none for a subscription
    /// that has ended.
    pub fn pending(&self, receiver: &EventReceiver) -> (waiting: usize)
        ensures
            waiting == (if is_live(self@, receiver.id()) {
                self@.subscribers[receiver.id()]->0.pending.len()
            } else {
                0
            }),
    {
        if receiver.slot < self.subscribers.len() {
            assert(self@.subscribers[receiver.id()] == subscriber_view(
                self.subscribers[receiver.id()],
            ));
            match &self.subscribers[receiver.slot] {
                Some(sub) => sub.pending.len(),
                None => 0,
            }
        } else {
            0
        }
    }
}

} // verus!
