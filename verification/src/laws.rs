//! What holds of the discovery service across its operations.

use crate::browse::{
    apply_event, apply_events, first_ipv4_is_least, no_ipv4_error, peer_of, published_event,
    published_events, RawEventView, ResolvedRecordView,
};
use crate::config::NetworkInterfaceView;
use crate::error::ErrorView;
use crate::event_bus::{
    after_publish, after_publish_all, after_receive, after_subscribe, after_unsubscribe, deliver,
    is_live, one_more, within_capacity, BusView, TryRecvError,
};
use crate::peer::{PeerEventView, PeerView};
use crate::peer_discovery::{
    after_event, after_events, after_registration, after_stop, initial, registration_of,
    start_step, well_formed, CommandView, DiscoveryView, ServiceRegistrationView, StartStep,
};
use crate::registry::{is_snapshot, keyed_by_name, snapshot_is_complete, PeerTable};
use vstd::prelude::*;

verus! {

/// What one whole start comes to, as a caller drives it: the state it
/// leaves, the registrations that were handed to the registrar, the commands
/// that were handed back, and the result.
pub struct StartTrace {
    pub state: DiscoveryView,
    pub registrations: Seq<ServiceRegistrationView>,
    pub commands: Seq<CommandView>,
    pub result: Result<(), ErrorView>,
}

/// One whole start on state `s`: `start`, then, where it asks for a
/// registration, `registration` on `listing`, the registrar, whose answer is
/// `registrar`, and `finish_start`. A registration that cannot be made ends
/// the start before the registrar is asked.
pub open spec fn start_call(
    s: DiscoveryView,
    listing: Result<Seq<NetworkInterfaceView>, Seq<char>>,
    registrar: Result<(), ErrorView>,
) -> StartTrace {
    match start_step(s) {
        StartStep::AlreadyRunning => StartTrace {
            state: s,
            registrations: Seq::empty(),
            commands: Seq::empty(),
            result: Ok(()),
        },
        StartStep::Register => match registration_of(s.config, listing) {
            Err(e) => StartTrace {
                state: s,
                registrations: Seq::empty(),
                commands: Seq::empty(),
                result: Err(e),
            },
            Ok(registration) => {
                let (next, handed) = after_registration(s, registrar);
                StartTrace {
                    state: next,
                    registrations: seq![registration],
                    commands: match handed {
                        Ok(commands) => commands,
                        Err(_) => Seq::empty(),
                    },
                    result: match handed {
                        Ok(_) => Ok(()),
                        Err(e) => Err(e),
                    },
                }
            },
        },
    }
}

/// Starting is idempotent. Of two starts in a row on a service that did not
/// run, the first of which succeeds, the second succeeds too and changes
/// nothing: between them the registrar is asked once, browsing is asked for
/// once, and the start is published once, so that every subscriber is
/// delivered one start event, which is then the last that waits for it.
pub proof fn law_start_is_idempotent(
    s: DiscoveryView,
    listing1: Result<Seq<NetworkInterfaceView>, Seq<char>>,
    registrar1: Result<(), ErrorView>,
    listing2: Result<Seq<NetworkInterfaceView>, Seq<char>>,
    registrar2: Result<(), ErrorView>,
)
    requires
        well_formed(s),
        !(s.state is Running),
        start_call(s, listing1, registrar1).result is Ok,
    ensures
        ({
            let first = start_call(s, listing1, registrar1);
            let second = start_call(first.state, listing2, registrar2);
            &&& first.state.state is Running
            &&& second.result is Ok
            &&& second.state == first.state
            &&& first.registrations.len() + second.registrations.len() == 1
            &&& first.commands + second.commands == seq![CommandView::Browse(s.config.service_type)]
            &&& second.state.bus.published == s.bus.published.push(PeerEventView::ServiceStarted)
            &&& well_formed(second.state)
            &&& forall|id: int|
                is_live(s.bus, id) ==> (#[trigger] second.state.bus.subscribers[id]) == Some(
                    deliver(s.bus.subscribers[id]->0, PeerEventView::ServiceStarted, s.bus.capacity),
                ) && second.state.bus.subscribers[id]->0.pending.last()
                    == PeerEventView::ServiceStarted
        }),
{
    assert(start_call(s, listing1, registrar1).state.state is Running);
}

/// A subscriber that came before two starts in a row, the first of which
/// succeeds, receives the start once: its first receive hands the start
/// over, and the next finds nothing.
pub proof fn law_subscriber_receives_one_start(
    s: DiscoveryView,
    listing1: Result<Seq<NetworkInterfaceView>, Seq<char>>,
    registrar1: Result<(), ErrorView>,
    listing2: Result<Seq<NetworkInterfaceView>, Seq<char>>,
    registrar2: Result<(), ErrorView>,
)
    requires
        well_formed(s),
        !(s.state is Running),
        start_call(s, listing1, registrar1).result is Ok,
    ensures
        ({
            let id = s.bus.subscribers.len() as int;
            let watched = DiscoveryView { bus: after_subscribe(s.bus), ..s };
            let first = start_call(watched, listing1, registrar1);
            let second = start_call(first.state, listing2, registrar2);
            &&& first.result is Ok
            &&& second.result is Ok
            &&& after_receive(second.state.bus, id).1 == Ok::<PeerEventView, TryRecvError>(
                PeerEventView::ServiceStarted,
            )
            &&& after_receive(after_receive(second.state.bus, id).0, id).1 == Err::<
                PeerEventView,
                TryRecvError,
            >(TryRecvError::Empty)
        }),
{
    let id = s.bus.subscribers.len() as int;
    let watched = DiscoveryView { bus: after_subscribe(s.bus), ..s };
    let first = start_call(watched, listing1, registrar1);
    assert(first.state.bus.subscribers[id]->0.pending =~= seq![PeerEventView::ServiceStarted]);
}

/// A new service is well formed, and every operation keeps a service so.
pub proof fn law_service_stays_well_formed(
    s: DiscoveryView,
    registrar: Result<(), ErrorView>,
    event: RawEventView,
    id: int,
)
    requires
        well_formed(s),
    ensures
        well_formed(initial(s.config)),
        well_formed(after_registration(s, registrar).0),
        well_formed(after_stop(s).0),
        well_formed(after_event(s, event)),
        well_formed(DiscoveryView { bus: after_subscribe(s.bus), ..s }),
        well_formed(DiscoveryView { bus: after_unsubscribe(s.bus, id), ..s }),
        well_formed(DiscoveryView { bus: after_receive(s.bus, id).0, ..s }),
{
    law_buffers_stay_bounded(s.bus, PeerEventView::ServiceStarted, id);
    law_buffers_stay_bounded(s.bus, PeerEventView::ServiceStopped, id);
    match published_event(s.peers, event) {
        Some(e) => law_buffers_stay_bounded(s.bus, e, id),
        None => {},
    }
}

/// A start on a running service asks for nothing and changes nothing.
pub proof fn law_start_on_running_is_noop(
    s: DiscoveryView,
    listing: Result<Seq<NetworkInterfaceView>, Seq<char>>,
    registrar: Result<(), ErrorView>,
)
    requires
        s.state is Running,
    ensures
        start_call(s, listing, registrar).state == s,
        start_call(s, listing, registrar).registrations.len() == 0,
        start_call(s, listing, registrar).commands.len() == 0,
        start_call(s, listing, registrar).result is Ok,
{
}

/// A start whose registration fails leaves the service as it was: nothing
/// is published, and nothing is asked for.
pub proof fn law_failed_start_changes_nothing(
    s: DiscoveryView,
    listing: Result<Seq<NetworkInterfaceView>, Seq<char>>,
    registrar: Result<(), ErrorView>,
)
    requires
        start_call(s, listing, registrar).result is Err,
    ensures
        start_call(s, listing, registrar).state == s,
        start_call(s, listing, registrar).commands.len() == 0,
{
}

/// After the stop of a running service no peer is known, whatever was known
/// before: every snapshot is empty. The stop is published once.
pub proof fn law_stop_forgets_peers(s: DiscoveryView, snapshot: Seq<PeerView>)
    requires
        s.state is Running,
        is_snapshot(snapshot, after_stop(s).0.peers),
    ensures
        after_stop(s).0.peers == PeerTable::empty(),
        after_stop(s).0.state is Stopped,
        after_stop(s).0.bus.published == s.bus.published.push(PeerEventView::ServiceStopped),
        snapshot.len() == 0,
{
    snapshot_is_complete(snapshot, after_stop(s).0.peers);
}

/// Stopping is idempotent: a second stop asks for nothing and changes
/// nothing, and so does the stop of a service that never ran.
pub proof fn law_stop_is_idempotent(s: DiscoveryView)
    ensures
        after_stop(after_stop(s).0).0 == after_stop(s).0,
        after_stop(after_stop(s).0).1.len() == 0,
        !(s.state is Running) ==> after_stop(s).0 == s && after_stop(s).1.len() == 0,
{
}

/// A stopped service can be started again.
pub proof fn law_restart(s: DiscoveryView)
    requires
        s.state is Running,
    ensures
        start_step(after_stop(s).0) == StartStep::Register,
        after_registration(after_stop(s).0, Ok(())).0.state is Running,
{
}

/// The table after a sequence of raw events is the fold of `apply_event`
/// over the sequence: each event applied once, in order.
pub proof fn law_table_is_fold(table: PeerTable, events: Seq<RawEventView>)
    ensures
        apply_events(table, events) == events.fold_left(
            table,
            |t: PeerTable, e: RawEventView| apply_event(t, e),
        ),
    decreases events.len(),
{
    if events.len() > 0 {
        law_table_is_fold(table, events.drop_last());
    }
}

/// Events may be taken in any batches: two runs in a row leave the table and
/// publish the events that one run over both sequences does.
pub proof fn law_events_compose(table: PeerTable, first: Seq<RawEventView>, second: Seq<RawEventView>)
    ensures
        apply_events(table, first + second) == apply_events(apply_events(table, first), second),
        published_events(table, first + second) == published_events(table, first)
            + published_events(apply_events(table, first), second),
    decreases second.len(),
{
    if second.len() == 0 {
        assert(published_events(table, first) + Seq::<PeerEventView>::empty() =~= published_events(
            table,
            first,
        ));
    } else {
        law_events_compose(table, first, second.drop_last());
        assert((first + second).drop_last() =~= first + second.drop_last());
        let mid = apply_events(table, first);
        let before = published_events(table, first) + published_events(mid, second.drop_last());
        match published_event(apply_events(mid, second.drop_last()), second.last()) {
            Some(e) => {
                assert(before.push(e) =~= published_events(table, first) + published_events(
                    mid,
                    second.drop_last(),
                ).push(e));
            },
            None => {},
        }
    }
}

/// One event is a run of one.
pub proof fn law_single_event(table: PeerTable, event: RawEventView)
    ensures
        apply_events(table, seq![event]) == apply_event(table, event),
        published_events(table, seq![event]) == match published_event(table, event) {
            Some(e) => seq![e],
            None => Seq::empty(),
        },
{
    reveal_with_fuel(apply_events, 2);
    reveal_with_fuel(published_events, 2);
}

/// Raw events keep every peer under its own name.
pub proof fn law_events_keep_names(table: PeerTable, events: Seq<RawEventView>)
    requires
        keyed_by_name(table),
    ensures
        keyed_by_name(apply_events(table, events)),
    decreases events.len(),
{
    if events.len() > 0 {
        law_events_keep_names(table, events.drop_last());
    }
}

/// A resolved record tells of the peer of its name, and replaces what was
/// known under that name; a removal leaves no peer of that name.
pub proof fn law_last_record_wins(table: PeerTable, record: ResolvedRecordView, peer: PeerView)
    requires
        peer_of(record) == Some(peer),
    ensures
        peer.name == record.fullname,
        apply_event(table, RawEventView::Resolved(record)).contains_key(record.fullname),
        apply_event(table, RawEventView::Resolved(record))[record.fullname] == peer,
        !apply_event(
            apply_event(table, RawEventView::Resolved(record)),
            RawEventView::Removed(record.fullname),
        ).contains_key(record.fullname),
        published_event(
            apply_event(table, RawEventView::Resolved(record)),
            RawEventView::Removed(record.fullname),
        ) == Some(PeerEventView::PeerLost(peer)),
{
}

/// A record that advertises no four-octet address changes nothing: the table
/// stays as it is, no peer is announced, and one error event is published.
pub proof fn law_record_without_ipv4(table: PeerTable, record: ResolvedRecordView)
    requires
        forall|i: int| 0 <= i < record.addresses.len() ==> !(#[trigger] record.addresses[i] is V4),
    ensures
        peer_of(record).is_none(),
        apply_event(table, RawEventView::Resolved(record)) == table,
        published_event(table, RawEventView::Resolved(record)) == Some(
            PeerEventView::Error(no_ipv4_error()),
        ),
        published_events(table, seq![RawEventView::Resolved(record)]) == seq![
            PeerEventView::Error(no_ipv4_error()),
        ],
{
    first_ipv4_is_least(record.addresses);
    law_single_event(table, RawEventView::Resolved(record));
}

/// The removal of a name that is not known changes nothing and publishes
/// nothing.
pub proof fn law_unknown_removal(table: PeerTable, id: Seq<char>)
    requires
        !table.contains_key(id),
    ensures
        apply_event(table, RawEventView::Removed(id)) == table,
        published_event(table, RawEventView::Removed(id)).is_none(),
{
}

/// The service takes a run of raw events as the table and the bus take
/// them one by one: the table is folded over the events, and what they make
/// known is published in order.
pub proof fn law_service_takes_events_in_order(s: DiscoveryView, events: Seq<RawEventView>)
    ensures
        after_events(s, events).peers == apply_events(s.peers, events),
        after_events(s, events).bus == after_publish_all(s.bus, published_events(s.peers, events)),
        after_events(s, events).state == s.state,
        after_events(s, events).config == s.config,
    decreases events.len(),
{
    if events.len() > 0 {
        let earlier = events.drop_last();
        law_service_takes_events_in_order(s, earlier);
        match published_event(apply_events(s.peers, earlier), events.last()) {
            Some(e) => {
                let told = published_events(s.peers, earlier);
                assert(told.push(e).drop_last() =~= told);
            },
            None => {},
        }
    }
}

/// A subscriber that subscribed before an event was published receives it:
/// on a bus with room for at least one event, the first receive after the
/// event hands it over, and the next finds nothing.
pub proof fn law_subscriber_receives_what_follows(bus: BusView, event: PeerEventView)
    requires
        bus.capacity > 0,
    ensures
        ({
            let id = bus.subscribers.len() as int;
            let told = after_publish(after_subscribe(bus), event);
            &&& is_live(told, id)
            &&& after_receive(told, id).1 == Ok::<PeerEventView, TryRecvError>(event)
            &&& after_receive(after_receive(told, id).0, id).1 == Err::<PeerEventView, TryRecvError>(
                TryRecvError::Empty,
            )
        }),
{
}

/// A subscriber that subscribed after an event was published does not
/// receive it: nothing waits for it.
pub proof fn law_subscriber_misses_what_came_before(bus: BusView, event: PeerEventView)
    ensures
        ({
            let id = bus.subscribers.len() as int;
            let late = after_subscribe(after_publish(bus, event));
            &&& is_live(late, id)
            &&& late.subscribers[id]->0.pending.len() == 0
            &&& after_receive(late, id).1 == Err::<PeerEventView, TryRecvError>(TryRecvError::Empty)
            &&& after_receive(late, id).0 == late
        }),
{
}

/// Publishing reaches every subscriber: one with room finds the event at
/// the end of what waits for it; one whose buffer is full loses its oldest
/// event to it and is told of the gap by its next receive.
pub proof fn law_publish_reaches_every_subscriber(bus: BusView, event: PeerEventView, id: int)
    requires
        is_live(bus, id),
        within_capacity(bus),
        bus.capacity > 0,
    ensures
        ({
            let before = bus.subscribers[id]->0;
            let told = after_publish(bus, event);
            let after = told.subscribers[id]->0;
            &&& is_live(told, id)
            &&& after.pending.last() == event
            &&& before.pending.len() < bus.capacity ==> after.pending == before.pending.push(event)
                && after.missed == before.missed
            &&& before.pending.len() == bus.capacity ==> after.pending
                == before.pending.drop_first().push(event) && after.missed == one_more(
                before.missed,
            ) && after_receive(told, id).1 == Err::<PeerEventView, TryRecvError>(
                TryRecvError::Lagged(after.missed),
            )
        }),
{
}

/// A subscriber with room for all of them receives the events of a run in
/// the order in which they were published.
pub proof fn law_events_arrive_in_order(bus: BusView, events: Seq<PeerEventView>, id: int)
    requires
        is_live(bus, id),
        bus.subscribers[id]->0.pending.len() + events.len() <= bus.capacity,
    ensures
        is_live(after_publish_all(bus, events), id),
        after_publish_all(bus, events).subscribers[id]->0.pending == bus.subscribers[id]->0.pending
            + events,
        after_publish_all(bus, events).subscribers[id]->0.missed == bus.subscribers[id]->0.missed,
        after_publish_all(bus, events).published == bus.published + events,
        after_publish_all(bus, events).capacity == bus.capacity,
        after_publish_all(bus, events).subscribers.len() == bus.subscribers.len(),
    decreases events.len(),
{
    if events.len() > 0 {
        law_events_arrive_in_order(bus, events.drop_last(), id);
    }
}

/// What one subscriber receives takes nothing from another, and the end of
/// one subscription leaves the others as they are.
pub proof fn law_subscribers_are_independent(bus: BusView, id: int, other: int)
    requires
        is_live(bus, other),
        id != other,
    ensures
        after_receive(bus, id).0.subscribers[other] == bus.subscribers[other],
        after_unsubscribe(bus, id).subscribers[other] == bus.subscribers[other],
        after_receive(bus, id).0.published == bus.published,
{
}

/// No operation lets more wait for a subscriber than the capacity allows.
pub proof fn law_buffers_stay_bounded(bus: BusView, event: PeerEventView, id: int)
    requires
        within_capacity(bus),
    ensures
        within_capacity(after_publish(bus, event)),
        within_capacity(after_subscribe(bus)),
        within_capacity(after_unsubscribe(bus, id)),
        within_capacity(after_receive(bus, id).0),
{
    let joined = after_subscribe(bus);
    assert forall|i: int| 0 <= i < joined.subscribers.len() implies (
    #[trigger] joined.subscribers[i] matches Some(sub) ==> sub.pending.len() <= joined.capacity) by {
        if i < bus.subscribers.len() {
            assert(joined.subscribers[i] == bus.subscribers[i]);
        }
    }
}

/// An observer that subscribed before a peer was resolved and removed is
/// told of both, in that order, and the removal carries the record that the
/// resolution brought.
pub proof fn law_observer_sees_peer_come_and_go(
    s: DiscoveryView,
    record: ResolvedRecordView,
    peer: PeerView,
)
    requires
        peer_of(record) == Some(peer),
        s.bus.capacity >= 2,
    ensures
        ({
            let id = s.bus.subscribers.len() as int;
            let watched = DiscoveryView { bus: after_subscribe(s.bus), ..s };
            let found = after_event(watched, RawEventView::Resolved(record));
            let lost = after_event(found, RawEventView::Removed(record.fullname));
            let first = after_receive(lost.bus, id);
            let second = after_receive(first.0, id);
            &&& found.peers.contains_key(record.fullname)
            &&& found.peers[record.fullname] == peer
            &&& !lost.peers.contains_key(record.fullname)
            &&& first.1 == Ok::<PeerEventView, TryRecvError>(PeerEventView::PeerDiscovered(peer))
            &&& second.1 == Ok::<PeerEventView, TryRecvError>(PeerEventView::PeerLost(peer))
        }),
{
    let watched = DiscoveryView { bus: after_subscribe(s.bus), ..s };
    let found = after_event(watched, RawEventView::Resolved(record));
    assert(found.peers[record.fullname] == peer);
}

} // verus!
