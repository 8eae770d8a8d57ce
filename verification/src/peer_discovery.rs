//! The discovery service: its lifecycle, its table of peers, and what it
//! asks of the caller that drives it.
//!
//! The service does no I/O. Where the outside world has to act (register the
//! local service, browse, unregister) an operation hands back the commands to
//! carry out, in order; where the outside world has answered, the answer is
//! an argument. What the service has to tell goes onto its event bus.

use crate::address::IpAddress;
use crate::browse::{
    apply_event, apply_events, published_event, published_events, raw_event_views, RawEvent,
    RawEventView,
};
use crate::config::{
    listing_view, local_address, DiscoveryConfig, DiscoveryConfigView, NetworkInterface,
    NetworkInterfaceView, TimeSpan,
};
use crate::error::{ErrorKind, ErrorView, PeerDiscoveryError};
use crate::event_bus::{
    after_publish, after_receive, after_subscribe, after_unsubscribe, empty_bus, within_capacity,
    BusView, EventBus, EventReceiver, TryRecvError,
};
use crate::peer::{Peer, PeerEvent, PeerEventView};
use crate::registry::{is_snapshot, keyed_by_name, peer_views, PeerRegistry, PeerTable};
use crate::string_map::{lemma_lists_entries, pair_keys, pair_values, Properties};
use vstd::prelude::*;
use vstd::string::StringExecFns;

verus! {

/// Where the service stands in its life.
#[derive(Clone, Copy, Debug, PartialEq, Eq, Structural)]
pub enum Lifecycle {
    /// Made, and never started.
    Created,
    /// Registered and browsing.
    Running,
    /// Started once, and stopped since.
    Stopped,
}

/// What has to be announced to register the local service.
#[derive(Debug)]
pub struct ServiceRegistration {
    pub service_type: String,
    pub service_name: String,
    /// The name of this host: the service name, then `.local.`.
    pub host_name: String,
    pub ip: IpAddress,
    pub port: u16,
    /// The properties that are announced with the service.
    pub properties: Properties,
}

/// A registration as a plain value.
pub struct ServiceRegistrationView {
    pub service_type: Seq<char>,
    pub service_name: Seq<char>,
    pub host_name: Seq<char>,
    pub ip: IpAddress,
    pub port: u16,
    pub properties: Map<Seq<char>, Seq<char>>,
}

impl View for ServiceRegistration {
    type V = ServiceRegistrationView;

    open spec fn view(&self) -> ServiceRegistrationView {
        ServiceRegistrationView {
            service_type: self.service_type@,
            service_name: self.service_name@,
            host_name: self.host_name@,
            ip: self.ip,
            port: self.port,
            properties: self.properties@,
        }
    }
}

/// `mdns_sd::ServiceInfo`: a service as the protocol engine registers it.
/// Nothing is said of what it holds.
#[verifier::external_type_specification]
#[verifier::external_body]
pub struct ExServiceInfo(mdns_sd::ServiceInfo);

/// Whether `text` is read as a list of addresses: nothing at all, or
/// addresses separated by commas, each in a form that the standard library
/// parses.
pub uninterp spec fn reads_as_addresses(text: Seq<char>) -> bool;

/// Whether the protocol engine takes `key` as the key of a TXT property: it
/// is made of ASCII characters and holds no `=`.
pub open spec fn plain_key(key: Seq<char>) -> bool {
    vstd::utf8::is_ascii_chars(key) && !key.contains('=')
}

/// Whether the protocol engine takes every key of `properties`.
pub open spec fn plain_keys(properties: Map<Seq<char>, Seq<char>>) -> bool {
    forall|key: Seq<char>| #[trigger] properties.contains_key(key) ==> plain_key(key)
}

/// `mdns_sd::ServiceInfo::new`, with the addresses given as text and the TXT
/// properties as pairs of key and value. Believed, not proved: the call
/// fails where the text is not read as a list of addresses, and succeeds
/// where it is and the engine takes every key.
#[verifier::external_body]
fn new_service_info(
    service_type: &str,
    service_name: &str,
    host_name: &str,
    addresses: &str,
    port: u16,
    properties: &Vec<(String, String)>,
) -> (made: Result<mdns_sd::ServiceInfo, mdns_sd::Error>)
    ensures
        made is Ok ==> reads_as_addresses(addresses@),
        reads_as_addresses(addresses@) && (forall|i: int|
            0 <= i < properties.len() ==> plain_key((#[trigger] properties[i]).0@)) ==> made is Ok,
{
    mdns_sd::ServiceInfo::new(
        service_type,
        service_name,
        host_name,
        addresses,
        port,
        properties.as_slice(),
    )
}

impl ServiceRegistration {
    /// The registration in the form that the protocol engine takes: the
    /// service on the one address, with the properties as its TXT record. The
    /// engine refuses an address whose text it cannot read back, and takes a
    /// registration whose address it reads and whose property keys are
    /// plain.
    pub fn service_info(&self) -> (made: Result<mdns_sd::ServiceInfo, PeerDiscoveryError>)
        ensures
            made is Ok ==> reads_as_addresses(self@.ip.text()),
            reads_as_addresses(self@.ip.text()) && plain_keys(self@.properties) ==> made is Ok,
            made matches Err(e) ==> e@.kind == ErrorKind::Mdns,
    {
        let address = self.ip.to_string();
        let properties = self.properties.pairs();
        proof {
            lemma_lists_entries(pair_keys(properties@), pair_values(properties@), self@.properties);
            assert forall|i: int| 0 <= i < properties.len() && plain_keys(
                self@.properties,
            ) implies plain_key((#[trigger] properties[i]).0@) by {
                assert(pair_keys(properties@)[i] == properties[i].0@);
            }
        }
        match new_service_info(
            self.service_type.as_str(),
            self.service_name.as_str(),
            self.host_name.as_str(),
            address.as_str(),
            self.port,
            &properties,
        ) {
            Ok(info) => Ok(info),
            Err(e) => Err(PeerDiscoveryError::from(e)),
        }
    }
}

/// What the service asks of its caller.
#[derive(Debug)]
pub enum Command {
    /// Browse for services of this type, and hand each raw event to the
    /// service.
    Browse(String),
    /// Unregister the service of this name. A failure to do so is no failure
    /// of the stop that asked for it.
    Unregister(String),
}

/// A command as a plain value.
pub enum CommandView {
    Browse(Seq<char>),
    Unregister(Seq<char>),
}

impl View for Command {
    type V = CommandView;

    open spec fn view(&self) -> CommandView {
        match self {
            Command::Browse(t) => CommandView::Browse(t@),
            Command::Unregister(n) => CommandView::Unregister(n@),
        }
    }
}

/// The view of each command of a sequence.
pub open spec fn command_views(commands: Seq<Command>) -> Seq<CommandView> {
    commands.map_values(|c: Command| c@)
}

/// The view of each event of a sequence.
pub open spec fn event_views(events: Seq<PeerEvent>) -> Seq<PeerEventView> {
    events.map_values(|e: PeerEvent| e@)
}

/// What a start has to do first.
#[derive(Clone, Copy, Debug, PartialEq, Eq, Structural)]
pub enum StartStep {
    /// The service runs: the start is done, and nothing is to be registered
    /// or told.
    AlreadyRunning,
    /// The local service has to be registered; `finish_start` takes the
    /// registrar's answer.
    Register,
}

/// How a discovery goes on: whether the service has to be started first,
/// and how long to wait before the peers are read.
#[derive(Clone, Copy, Debug, PartialEq, Eq, Structural)]
pub struct DiscoverPlan {
    pub start_first: bool,
    pub wait: TimeSpan,
}

/// The discovery service as a plain value.
pub struct DiscoveryView {
    pub config: DiscoveryConfigView,
    pub peers: PeerTable,
    pub state: Lifecycle,
    pub bus: BusView,
}

/// The room that the event bus of a service gives each subscriber.
pub const EVENT_CAPACITY: usize = 100;

/// The service as `new` makes it.
pub open spec fn initial(config: DiscoveryConfigView) -> DiscoveryView {
    DiscoveryView {
        config,
        peers: PeerTable::empty(),
        state: Lifecycle::Created,
        bus: empty_bus(EVENT_CAPACITY as nat),
    }
}

/// What holds of every service: its bus gives each subscriber room for
/// `EVENT_CAPACITY` events and lets no more wait for any, and every known
/// peer stands under its own name.
pub open spec fn well_formed(s: DiscoveryView) -> bool {
    &&& s.bus.capacity == EVENT_CAPACITY
    &&& within_capacity(s.bus)
    &&& keyed_by_name(s.peers)
}

/// What a start has to do first, in a given state.
pub open spec fn start_step(s: DiscoveryView) -> StartStep {
    if s.state is Running {
        StartStep::AlreadyRunning
    } else {
        StartStep::Register
    }
}

/// The registration of the local service, from the settings and what the
/// host said of its interfaces.
pub open spec fn registration_of(
    config: DiscoveryConfigView,
    listing: Result<Seq<NetworkInterfaceView>, Seq<char>>,
) -> Result<ServiceRegistrationView, ErrorView> {
    match local_address(listing) {
        Ok(ip) => Ok(
            ServiceRegistrationView {
                service_type: config.service_type,
                service_name: config.service_name,
                host_name: config.service_name + ".local."@,
                ip,
                port: config.port,
                properties: config.properties,
            },
        ),
        Err(e) => Err(e),
    }
}

/// The state after the registrar has answered, and what is handed back: on
/// success the service runs, the start is published, and browsing is asked
/// for; on failure nothing changes and the failure is handed on. A service
/// that runs already stays as it is.
pub open spec fn after_registration(s: DiscoveryView, registered: Result<(), ErrorView>) -> (
    DiscoveryView,
    Result<Seq<CommandView>, ErrorView>,
) {
    if s.state is Running {
        (s, Ok(Seq::empty()))
    } else {
        match registered {
            Ok(_) => (
                DiscoveryView {
                    state: Lifecycle::Running,
                    bus: after_publish(s.bus, PeerEventView::ServiceStarted),
                    ..s
                },
                Ok(seq![CommandView::Browse(s.config.service_type)]),
            ),
            Err(e) => (s, Err(e)),
        }
    }
}

/// The state after a stop, and the commands it hands back: a running
/// service forgets its peers, publishes the stop and asks to be
/// unregistered; any other stays as it is and asks for nothing.
pub open spec fn after_stop(s: DiscoveryView) -> (DiscoveryView, Seq<CommandView>) {
    if s.state is Running {
        (
            DiscoveryView {
                peers: PeerTable::empty(),
                state: Lifecycle::Stopped,
                bus: after_publish(s.bus, PeerEventView::ServiceStopped),
                ..s
            },
            seq![CommandView::Unregister(s.config.service_name)],
        )
    } else {
        (s, Seq::empty())
    }
}

/// The state after one raw event: the table after it, and what it makes
/// known published on the bus.
pub open spec fn after_event(s: DiscoveryView, event: RawEventView) -> DiscoveryView {
    DiscoveryView {
        peers: apply_event(s.peers, event),
        bus: match published_event(s.peers, event) {
            Some(e) => after_publish(s.bus, e),
            None => s.bus,
        },
        ..s
    }
}

/// The state after a sequence of raw events, each taken once, in order.
pub open spec fn after_events(s: DiscoveryView, events: Seq<RawEventView>) -> DiscoveryView
    decreases events.len(),
{
    if events.len() == 0 {
        s
    } else {
        after_event(after_events(s, events.drop_last()), events.last())
    }
}

/// The plan of a discovery in a given state.
pub open spec fn discover_plan(s: DiscoveryView, timeout: Option<TimeSpan>) -> DiscoverPlan {
    DiscoverPlan {
        start_first: !(s.state is Running),
        wait: match timeout {
            Some(span) => span,
            None => s.config.discovery_timeout,
        },
    }
}

/// The failure that a browse that could not be started gives.
pub open spec fn browse_error(reason: Seq<char>) -> ErrorView {
    ErrorView { kind: ErrorKind::ServiceDiscoveryFailed, detail: reason }
}

/// The discovery service.
pub struct PeerDiscovery {
    config: DiscoveryConfig,
    discovered_peers: PeerRegistry,
    state: Lifecycle,
    events: EventBus,
}

impl View for PeerDiscovery {
    type V = DiscoveryView;

    closed spec fn view(&self) -> DiscoveryView {
        DiscoveryView {
            config: self.config@,
            peers: self.discovered_peers@,
            state: self.state,
            bus: self.events@,
        }
    }
}

impl PeerDiscovery {
    #[verifier::type_invariant]
    spec fn sound(self) -> bool {
        well_formed(self@)
    }

    /// A service with these settings, not started, that knows no peer and
    /// has no subscriber.
    pub fn new(config: DiscoveryConfig) -> (service: Self)
        ensures
            service@ == initial(config@),
            well_formed(service@),
    {
        PeerDiscovery {
            config,
            discovered_peers: PeerRegistry::new(),
            state: Lifecycle::Created,
            events: EventBus::new(EVENT_CAPACITY),
        }
    }

    /// The settings.
    pub fn config(&self) -> (config: &DiscoveryConfig)
        ensures
            config@ == self@.config,
            well_formed(self@),
    {
        proof {
            use_type_invariant(self);
        }
        &self.config
    }

    /// Where the service stands in its life.
    pub fn state(&self) -> (state: Lifecycle)
        ensures
            state == self@.state,
            well_formed(self@),
    {
        proof {
            use_type_invariant(self);
        }
        self.state
    }

    /// Whether the service is registered and browsing.
    pub fn is_running(&self) -> (running: bool)
        ensures
            running == (self@.state is Running),
            well_formed(self@),
    {
        proof {
            use_type_invariant(self);
        }
        match self.state {
            Lifecycle::Running => true,
            _ => false,
        }
    }

    /// Begins a start: says whether the local service has to be registered.
    /// Nothing changes yet.
    pub fn start(&self) -> (step: StartStep)
        ensures
            step == start_step(self@),
            well_formed(self@),
    {
        if self.is_running() {
            StartStep::AlreadyRunning
        } else {
            StartStep::Register
        }
    }

    /// What to announce to register the local service, given what the host
    /// said of its interfaces: the settings' type, name, port and properties,
    /// the host name made of the service name, and the first usable address.
    pub fn registration(&self, listing: &Result<Vec<NetworkInterface>, String>) -> (made: Result<
        ServiceRegistration,
        PeerDiscoveryError,
    >)
        ensures
            match made {
                Ok(r) => registration_of(self@.config, listing_view(*listing)) == Ok::<
                    ServiceRegistrationView,
                    ErrorView,
                >(r@),
                Err(e) => registration_of(self@.config, listing_view(*listing)) == Err::<
                    ServiceRegistrationView,
                    ErrorView,
                >(e@),
            },
    {
        match DiscoveryConfig::ip_address(listing) {
            Ok(ip) => {
                let mut host_name = self.config.service_name.clone();
                host_name.append(".local.");
                Ok(
                    ServiceRegistration {
                        service_type: self.config.service_type.clone(),
                        service_name: self.config.service_name.clone(),
                        host_name,
                        ip,
                        port: self.config.port,
                        properties: self.config.properties.clone(),
                    },
                )
            },
            Err(e) => Err(e),
        }
    }

    /// What to hand to the registrar to register the local service: the
    /// registration that `registration` makes, in the form that the protocol
    /// engine takes.
    pub fn register_service(&self, listing: &Result<Vec<NetworkInterface>, String>) -> (made:
        Result<mdns_sd::ServiceInfo, PeerDiscoveryError>)
        ensures
            match registration_of(self@.config, listing_view(*listing)) {
                Ok(r) => (made is Ok ==> reads_as_addresses(r.ip.text())) && (reads_as_addresses(
                    r.ip.text(),
                ) && plain_keys(r.properties) ==> made is Ok) && (made matches Err(e) ==> e@.kind
                    == ErrorKind::Mdns),
                Err(e) => made matches Err(x) && x@ == e,
            },
    {
        match self.registration(listing) {
            Ok(registration) => registration.service_info(),
            Err(e) => Err(e),
        }
    }

    /// Ends a start with the registrar's answer. On success the service runs
    /// from now on, the start is published, and the caller is to browse; on
    /// failure the service stays as it was and the failure is handed back.
    pub fn finish_start(&mut self, registered: Result<(), PeerDiscoveryError>) -> (next: Result<
        Vec<Command>,
        PeerDiscoveryError,
    >)
        ensures
            final(self)@ == after_registration(old(self)@, outcome_view(registered)).0,
            well_formed(old(self)@),
            well_formed(final(self)@),
            match next {
                Ok(commands) => after_registration(old(self)@, outcome_view(registered)).1 == Ok::<
                    Seq<CommandView>,
                    ErrorView,
                >(command_views(commands@)),
                Err(e) => after_registration(old(self)@, outcome_view(registered)).1 == Err::<
                    Seq<CommandView>,
                    ErrorView,
                >(e@),
            },
    {
        proof {
            use_type_invariant(&*self);
        }
        if self.is_running() {
            let commands: Vec<Command> = Vec::new();
            assert(command_views(commands@) =~= Seq::empty());
            return Ok(commands);
        }
        match registered {
            Ok(_) => {
                self.state = Lifecycle::Running;
                self.publish(PeerEvent::ServiceStarted);
                let mut commands: Vec<Command> = Vec::new();
                commands.push(Command::Browse(self.config.service_type.clone()));
                assert(command_views(commands@) =~= seq![
                    CommandView::Browse(self@.config.service_type),
                ]);
                Ok(commands)
            },
            Err(e) => Err(e),
        }
    }

    /// Stops the service. A running service forgets every peer and publishes
    /// the stop, and the caller is to unregister the local service; a service
    /// that does not run stays as it is.
    pub fn stop(&mut self) -> (commands: Vec<Command>)
        ensures
            final(self)@ == after_stop(old(self)@).0,
            command_views(commands@) == after_stop(old(self)@).1,
            well_formed(old(self)@),
            well_formed(final(self)@),
    {
        proof {
            use_type_invariant(&*self);
        }
        let mut commands: Vec<Command> = Vec::new();
        if self.is_running() {
            self.state = Lifecycle::Stopped;
            self.discovered_peers = PeerRegistry::new();
            self.publish(PeerEvent::ServiceStopped);
            commands.push(Command::Unregister(self.config.service_name.clone()));
            assert(command_views(commands@) =~= seq![
                CommandView::Unregister(self@.config.service_name),
            ]);
        }
        commands
    }

    /// Copies of the records of all known peers, in no particular order.
    pub fn get_peers(&self) -> (peers: Vec<Peer>)
        ensures
            is_snapshot(peer_views(peers@), self@.peers),
            well_formed(self@),
    {
        proof {
            use_type_invariant(self);
        }
        self.discovered_peers.snapshot()
    }

    /// A copy of the record of the peer named `name`: the record that stands
    /// under this very name, which it bears, or nothing where no peer of this
    /// name is known.
    pub fn get_peer(&self, name: &str) -> (found: Option<Peer>)
        ensures
            match found {
                Some(p) => self@.peers.contains_key(name@) && p@ == self@.peers[name@] && p@.name
                    == name@,
                None => !self@.peers.contains_key(name@),
            },
            well_formed(self@),
    {
        proof {
            use_type_invariant(self);
        }
        self.discovered_peers.get(name)
    }

    /// Plans a discovery: the caller starts the service if the plan says so,
    /// waits for the whole span, whatever is found meanwhile, and then reads
    /// the peers. The span is `timeout`, or the settings' where there is
    /// none.
    pub fn discover_peers(&self, timeout: Option<TimeSpan>) -> (plan: DiscoverPlan)
        ensures
            plan == discover_plan(self@, timeout),
            well_formed(self@),
    {
        DiscoverPlan {
            start_first: !self.is_running(),
            wait: match timeout {
                Some(span) => span,
                None => self.config.discovery_timeout,
            },
        }
    }

    /// Applies one raw event to `discovered_peers` and hands back what is to
    /// be published. A record that tells of a peer puts it into the table; a
    /// record without a four-octet address fails and leaves the table as it
    /// is; a removal takes the peer out and publishes its last record, if it
    /// was known.
    pub fn handle_service_event(event: RawEvent, discovered_peers: &mut PeerRegistry) -> (handled:
        Result<Option<PeerEvent>, PeerDiscoveryError>)
        ensures
            final(discovered_peers)@ == apply_event(old(discovered_peers)@, event@),
            keyed_by_name(old(discovered_peers)@),
            keyed_by_name(final(discovered_peers)@),
            match handled {
                Ok(Some(e)) => published_event(old(discovered_peers)@, event@) == Some(e@) && !(e
                    is Error),
                Ok(None) => published_event(old(discovered_peers)@, event@).is_none(),
                Err(e) => published_event(old(discovered_peers)@, event@) == Some(
                    PeerEventView::Error(e@),
                ),
            },
    {
        proof {
            use_type_invariant(&*discovered_peers);
        }
        match event {
            RawEvent::Resolved(record) => {
                match Peer::from_record(record) {
                    Ok(peer) => {
                        let published = peer.clone();
                        discovered_peers.upsert(peer);
                        Ok(Some(PeerEvent::PeerDiscovered(published)))
                    },
                    Err(e) => Err(e),
                }
            },
            RawEvent::Removed(fullname) => {
                match discovered_peers.remove(fullname.as_str()) {
                    Some(peer) => Ok(Some(PeerEvent::PeerLost(peer))),
                    None => Ok(None),
                }
            },
            RawEvent::Other => Ok(None),
        }
    }

    /// Takes one raw event of the browse: applies it to the table of peers
    /// and publishes what it makes known, a failure as an error event. What
    /// was published is handed back as well. The lifecycle plays no part:
    /// events are taken in every state.
    pub fn on_service_event(&mut self, event: RawEvent) -> (published: Option<PeerEvent>)
        ensures
            final(self)@ == after_event(old(self)@, event@),
            option_event_view(published) == published_event(old(self)@.peers, event@),
            well_formed(old(self)@),
            well_formed(final(self)@),
    {
        proof {
            use_type_invariant(&*self);
        }
        let mut peers = PeerRegistry::new();
        std::mem::swap(&mut peers, &mut self.discovered_peers);
        let handled = Self::handle_service_event(event, &mut peers);
        std::mem::swap(&mut peers, &mut self.discovered_peers);
        let published = match handled {
            Ok(published) => published,
            Err(e) => Some(PeerEvent::Error(e)),
        };
        match &published {
            Some(e) => self.publish(e.clone()),
            None => {},
        }
        published
    }

    fn publish(&mut self, event: PeerEvent)
        ensures
            final(self)@ == (DiscoveryView {
                bus: after_publish(old(self)@.bus, event@),
                ..old(self)@
            }),
    {
        proof {
            use_type_invariant(&*self);
        }
        let mut events = EventBus::new(EVENT_CAPACITY);
        std::mem::swap(&mut events, &mut self.events);
        events.publish(event);
        std::mem::swap(&mut events, &mut self.events);
    }

    /// Subscribes to the events of the service: the receiver sees what is
    /// published from now on, and nothing that was published before.
    pub fn subscribe(&mut self) -> (receiver: EventReceiver)
        ensures
            final(self)@ == (DiscoveryView { bus: after_subscribe(old(self)@.bus), ..old(self)@ }),
            receiver.id() == old(self)@.bus.subscribers.len(),
            well_formed(old(self)@),
            well_formed(final(self)@),
    {
        proof {
            use_type_invariant(&*self);
        }
        let mut events = EventBus::new(EVENT_CAPACITY);
        std::mem::swap(&mut events, &mut self.events);
        let receiver = events.subscribe();
        std::mem::swap(&mut events, &mut self.events);
        receiver
    }

    /// Ends a subscription.
    pub fn unsubscribe(&mut self, receiver: EventReceiver)
        ensures
            final(self)@ == (DiscoveryView {
                bus: after_unsubscribe(old(self)@.bus, receiver.id()),
                ..old(self)@
            }),
            well_formed(old(self)@),
            well_formed(final(self)@),
    {
        proof {
            use_type_invariant(&*self);
        }
        let mut events = EventBus::new(EVENT_CAPACITY);
        std::mem::swap(&mut events, &mut self.events);
        events.unsubscribe(receiver);
        std::mem::swap(&mut events, &mut self.events);
    }

    /// Hands a subscriber its next event, if one waits for it.
    pub fn try_recv(&mut self, receiver: &EventReceiver) -> (received: Result<
        PeerEvent,
        TryRecvError,
    >)
        ensures
            final(self)@ == (DiscoveryView {
                bus: after_receive(old(self)@.bus, receiver.id()).0,
                ..old(self)@
            }),
            well_formed(old(self)@),
            well_formed(final(self)@),
            match received {
                Ok(event) => after_receive(old(self)@.bus, receiver.id()).1 == Ok::<
                    PeerEventView,
                    TryRecvError,
                >(event@),
                Err(e) => after_receive(old(self)@.bus, receiver.id()).1 == Err::<
                    PeerEventView,
                    TryRecvError,
                >(e),
            },
    {
        proof {
            use_type_invariant(&*self);
        }
        let mut events = EventBus::new(EVENT_CAPACITY);
        std::mem::swap(&mut events, &mut self.events);
        let received = events.try_recv(receiver);
        std::mem::swap(&mut events, &mut self.events);
        received
    }

    /// Runs the browse over a stream that has closed: takes its events in
    /// order, and hands back what was published, in order. A browse that
    /// could not be started changes nothing and fails with the reason.
    pub fn start_discovery(&mut self, stream: Result<Vec<RawEvent>, String>) -> (run: Result<
        Vec<PeerEvent>,
        PeerDiscoveryError,
    >)
        ensures
            well_formed(old(self)@),
            well_formed(final(self)@),
            match stream {
                Ok(events) => final(self)@ == after_events(old(self)@, raw_event_views(events@))
                    && run.is_ok() && event_views(run.unwrap()@) == published_events(
                    old(self)@.peers,
                    raw_event_views(events@),
                ),
                Err(reason) => final(self)@ == old(self)@ && run.is_err() && run.unwrap_err()@
                    == browse_error(reason@),
            },
    {
        proof {
            use_type_invariant(&*self);
        }
        match stream {
            Ok(events) => {
                let mut published: Vec<PeerEvent> = Vec::new();
                let ghost all = raw_event_views(events@);
                for event in it: events
                    invariant
                        all == raw_event_views(it.seq()),
                        well_formed(self@),
                        self@ == after_events(old(self)@, all.take(it.index() as int)),
                        self@.peers == apply_events(old(self)@.peers, all.take(it.index() as int)),
                        event_views(published@) == published_events(
                            old(self)@.peers,
                            all.take(it.index() as int),
                        ),
                {
                    let ghost done = it.index() as int;
                    assert(all.take(done + 1).drop_last() =~= all.take(done));
                    match self.on_service_event(event) {
                        Some(e) => {
                            published.push(e);
                        },
                        None => {},
                    }
                }
                assert(all.take(all.len() as int) =~= all);
                Ok(published)
            },
            Err(reason) => Err(PeerDiscoveryError::ServiceDiscoveryFailed(reason)),
        }
    }
}

/// The registrar's answer as a plain value.
pub open spec fn outcome_view(registered: Result<(), PeerDiscoveryError>) -> Result<(), ErrorView> {
    match registered {
        Ok(_) => Ok(()),
        Err(e) => Err(e@),
    }
}

/// An event that may be there, as a plain value.
pub open spec fn option_event_view(event: Option<PeerEvent>) -> Option<PeerEventView> {
    match event {
        Some(e) => Some(e@),
        None => None,
    }
}

} // verus!
