//! The raw events of the protocol engine, and what they mean for the table
//! of known peers.

use crate::address::IpAddress;
use crate::error::{ErrorKind, ErrorView, PeerDiscoveryError};
use crate::peer::{Peer, PeerEventView, PeerView};
use crate::registry::PeerTable;
use crate::string_map::{Properties, StringMap};
use vstd::prelude::*;
use vstd::string::StringExecFns;

verus! {

/// One property of a TXT record: a key, and the bytes of its value if it has
/// one.
#[derive(Debug)]
pub struct TxtProperty {
    pub key: String,
    pub val: Option<Vec<u8>>,
}

/// A TXT property as a plain value.
pub struct TxtPropertyView {
    pub key: Seq<char>,
    pub val: Option<Seq<u8>>,
}

impl View for TxtProperty {
    type V = TxtPropertyView;

    open spec fn view(&self) -> TxtPropertyView {
        TxtPropertyView {
            key: self.key@,
            val: match self.val {
                Some(bytes) => Some(bytes@),
                None => None,
            },
        }
    }
}

/// What the protocol engine resolved of one service instance.
#[derive(Debug)]
pub struct ResolvedRecord {
    /// The full name of the instance.
    pub fullname: String,
    /// The advertised addresses, in the order in which they were handed over.
    pub addresses: Vec<IpAddress>,
    pub port: u16,
    pub service_type: String,
    pub properties: Vec<TxtProperty>,
}

/// A resolved record as a plain value.
pub struct ResolvedRecordView {
    pub fullname: Seq<char>,
    pub addresses: Seq<IpAddress>,
    pub port: u16,
    pub service_type: Seq<char>,
    pub properties: Seq<TxtPropertyView>,
}

/// The view of each property of a sequence.
pub open spec fn property_views(props: Seq<TxtProperty>) -> Seq<TxtPropertyView> {
    props.map_values(|p: TxtProperty| p@)
}

impl View for ResolvedRecord {
    type V = ResolvedRecordView;

    open spec fn view(&self) -> ResolvedRecordView {
        ResolvedRecordView {
            fullname: self.fullname@,
            addresses: self.addresses@,
            port: self.port,
            service_type: self.service_type@,
            properties: property_views(self.properties@),
        }
    }
}

/// An event of the protocol engine.
#[derive(Debug)]
pub enum RawEvent {
    /// A service instance was resolved.
    Resolved(ResolvedRecord),
    /// The service instance of this full name is gone.
    Removed(String),
    /// Anything else: a search that started or stopped, an instance that was
    /// found and is not resolved yet.
    Other,
}

/// A raw event as a plain value.
pub enum RawEventView {
    Resolved(ResolvedRecordView),
    Removed(Seq<char>),
    Other,
}

impl View for RawEvent {
    type V = RawEventView;

    open spec fn view(&self) -> RawEventView {
        match self {
            RawEvent::Resolved(r) => RawEventView::Resolved(r@),
            RawEvent::Removed(id) => RawEventView::Removed(id@),
            RawEvent::Other => RawEventView::Other,
        }
    }
}

/// The view of each event of a sequence.
pub open spec fn raw_event_views(events: Seq<RawEvent>) -> Seq<RawEventView> {
    events.map_values(|e: RawEvent| e@)
}

/// The text that lossy UTF-8 decoding makes of `bytes`: the text that the
/// bytes encode, with U+FFFD in place of each part that is no UTF-8.
pub uninterp spec fn utf8_lossy(bytes: Seq<u8>) -> Seq<char>;

/// `String::from_utf8_lossy`. Believed, not proved: the result is the lossy
/// decoding of the bytes.
#[verifier::external_body]
fn decode_lossy(bytes: &Vec<u8>) -> (text: String)
    ensures
        text@ == utf8_lossy(bytes@),
{
    String::from_utf8_lossy(bytes).into_owned()
}

/// The first four-octet address of `addresses`, if there is one.
pub open spec fn first_ipv4(addresses: Seq<IpAddress>) -> Option<IpAddress>
    decreases addresses.len(),
{
    if addresses.len() == 0 {
        None
    } else if addresses[0] is V4 {
        Some(addresses[0])
    } else {
        first_ipv4(addresses.drop_first())
    }
}

/// `first_ipv4` picks the address at the least index that holds a four-octet
/// address, and finds none only where there is none.
pub proof fn first_ipv4_is_least(addresses: Seq<IpAddress>)
    ensures
        match first_ipv4(addresses) {
            Some(ip) => exists|i: int|
                0 <= i < addresses.len() && #[trigger] addresses[i] == ip && ip is V4 && forall|j: int|
                    0 <= j < i ==> !(#[trigger] addresses[j] is V4),
            None => forall|i: int| 0 <= i < addresses.len() ==> !(#[trigger] addresses[i] is V4),
        },
    decreases addresses.len(),
{
    if addresses.len() > 0 && !(addresses[0] is V4) {
        let rest = addresses.drop_first();
        first_ipv4_is_least(rest);
        match first_ipv4(rest) {
            Some(ip) => {
                let i = choose|i: int|
                    0 <= i < rest.len() && #[trigger] rest[i] == ip && ip is V4 && forall|j: int|
                        0 <= j < i ==> !(#[trigger] rest[j] is V4);
                assert forall|j: int| 0 <= j < i + 1 implies !(#[trigger] addresses[j] is V4) by {
                    if j > 0 {
                        assert(rest[j - 1] == addresses[j]);
                    }
                }
            },
            None => {
                assert forall|i: int| 0 <= i < addresses.len() implies !(#[trigger] addresses[i] is V4) by {
                    if i > 0 {
                        assert(rest[i - 1] == addresses[i]);
                    }
                }
            },
        }
    }
}

/// The first four-octet address among `addresses`.
pub fn select_ipv4(addresses: &Vec<IpAddress>) -> (found: Option<IpAddress>)
    ensures
        found == first_ipv4(addresses@),
{
    let mut i: usize = 0;
    assert(addresses@.skip(0) =~= addresses@);
    while i < addresses.len()
        invariant
            i <= addresses.len(),
            first_ipv4(addresses@) == first_ipv4(addresses@.skip(i as int)),
        decreases addresses.len() - i,
    {
        let ghost rest = addresses@.skip(i as int);
        assert(rest.drop_first() =~= addresses@.skip(i + 1));
        if addresses[i].is_ipv4() {
            return Some(addresses[i]);
        }
        i += 1;
    }
    None
}

/// The property bag that a TXT record stands for: each property that has a
/// value, decoded lossily, a later one in place of an earlier one of the same
/// key. A property without a value is left out.
pub open spec fn decoded_properties(props: Seq<TxtPropertyView>) -> Map<Seq<char>, Seq<char>>
    decreases props.len(),
{
    if props.len() == 0 {
        Map::empty()
    } else {
        let earlier = decoded_properties(props.drop_last());
        match props.last().val {
            Some(bytes) => earlier.insert(props.last().key, utf8_lossy(bytes)),
            None => earlier,
        }
    }
}

/// Decodes the properties of a TXT record into a property bag.
pub fn decode_properties(props: &Vec<TxtProperty>) -> (bag: Properties)
    ensures
        bag@ == decoded_properties(property_views(props@)),
{
    let mut bag: Properties = StringMap::new();
    let mut i: usize = 0;
    while i < props.len()
        invariant
            i <= props.len(),
            bag@ == decoded_properties(property_views(props@).take(i as int)),
        decreases props.len() - i,
    {
        let ghost upto = property_views(props@).take(i + 1);
        assert(upto.drop_last() =~= property_views(props@).take(i as int));
        match &props[i].val {
            Some(bytes) => {
                let text = decode_lossy(bytes);
                bag.insert(props[i].key.clone(), text);
            },
            None => {},
        }
        i += 1;
    }
    assert(property_views(props@).take(i as int) =~= property_views(props@));
    bag
}

/// The failure that a record without a four-octet address gives.
pub open spec fn no_ipv4_error() -> ErrorView {
    ErrorView { kind: ErrorKind::NetworkInterface, detail: "No IPv4 address found"@ }
}

/// The peer that a resolved record tells of, if it advertises a four-octet
/// address: the first such address, the record's name, port and type, and
/// its decoded properties.
pub open spec fn peer_of(record: ResolvedRecordView) -> Option<PeerView> {
    match first_ipv4(record.addresses) {
        Some(ip) => Some(
            PeerView {
                name: record.fullname,
                ip,
                port: record.port,
                service_type: record.service_type,
                properties: decoded_properties(record.properties),
            },
        ),
        None => None,
    }
}

impl Peer {
    /// The peer that `record` tells of. A record that advertises no
    /// four-octet address gives no peer.
    pub fn from_record(record: ResolvedRecord) -> (made: Result<Peer, PeerDiscoveryError>)
        ensures
            match made {
                Ok(peer) => peer_of(record@) == Some(peer@),
                Err(e) => peer_of(record@).is_none() && e@ == no_ipv4_error(),
            },
    {
        match select_ipv4(&record.addresses) {
            Some(ip) => {
                let properties = decode_properties(&record.properties);
                Ok(
                    Peer {
                        name: record.fullname,
                        ip,
                        port: record.port,
                        service_type: record.service_type,
                        properties,
                    },
                )
            },
            None => Err(
                PeerDiscoveryError::NetworkInterfaceError(String::from_str("No IPv4 address found")),
            ),
        }
    }
}

/// The table after one raw event: a record that tells of a peer puts that
/// peer under its name, a removal takes the name out, anything else leaves
/// the table as it is.
pub open spec fn apply_event(table: PeerTable, event: RawEventView) -> PeerTable {
    match event {
        RawEventView::Resolved(record) => match peer_of(record) {
            Some(peer) => table.insert(peer.name, peer),
            None => table,
        },
        RawEventView::Removed(id) => table.remove(id),
        RawEventView::Other => table,
    }
}

/// What one raw event makes known to the observers, on a given table: the
/// peer of a record, or the failure to make one; the last record of a peer
/// that was removed, and nothing for the removal of an unknown name.
pub open spec fn published_event(table: PeerTable, event: RawEventView) -> Option<PeerEventView> {
    match event {
        RawEventView::Resolved(record) => match peer_of(record) {
            Some(peer) => Some(PeerEventView::PeerDiscovered(peer)),
            None => Some(PeerEventView::Error(no_ipv4_error())),
        },
        RawEventView::Removed(id) => if table.contains_key(id) {
            Some(PeerEventView::PeerLost(table[id]))
        } else {
            None
        },
        RawEventView::Other => None,
    }
}

/// The table after a sequence of raw events, each applied once, in order.
pub open spec fn apply_events(table: PeerTable, events: Seq<RawEventView>) -> PeerTable
    decreases events.len(),
{
    if events.len() == 0 {
        table
    } else {
        apply_event(apply_events(table, events.drop_last()), events.last())
    }
}

/// What a sequence of raw events makes known, in order: for each event what
/// it makes known on the table that the events before it left.
pub open spec fn published_events(table: PeerTable, events: Seq<RawEventView>) -> Seq<PeerEventView>
    decreases events.len(),
{
    if events.len() == 0 {
        Seq::empty()
    } else {
        let before = published_events(table, events.drop_last());
        match published_event(apply_events(table, events.drop_last()), events.last()) {
            Some(e) => before.push(e),
            None => before,
        }
    }
}

} // verus!
