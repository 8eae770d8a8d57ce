//! What can go wrong in discovery.

use vstd::prelude::*;
use vstd::std_specs::convert::FromSpecImpl;
use vstd::string::StringExecFns;

verus! {

/// `mdns_sd::Error`: a failure of the protocol engine. Nothing is said of
/// what it holds.
#[verifier::external_type_specification]
#[verifier::external_body]
pub struct ExMdnsError(mdns_sd::Error);

/// `std::io::Error`: a failure of input or output. Nothing is said of what
/// it holds.
#[verifier::external_type_specification]
#[verifier::external_body]
pub struct ExIoError(std::io::Error);

/// The kinds of failure.
#[derive(Clone, Copy, Debug, PartialEq, Eq, Structural)]
pub enum ErrorKind {
    Mdns,
    NetworkInterface,
    ServiceRegistrationFailed,
    ServiceDiscoveryFailed,
    InvalidServiceType,
    DiscoveryTimeout,
    Io,
}

/// A failure of the discovery service, with its detail in words.
#[derive(Debug)]
pub enum PeerDiscoveryError {
    /// The protocol engine refused or failed: registration, unregistration,
    /// start-up.
    MdnsError(String),
    /// No usable address: on the local interfaces, or in a resolved record.
    NetworkInterfaceError(String),
    ServiceRegistrationFailed(String),
    /// Browsing could not be started.
    ServiceDiscoveryFailed(String),
    InvalidServiceType(String),
    DiscoveryTimeout(String),
    /// Input or output failed: so where the host could not list its
    /// interfaces.
    IoError(String),
}

/// A failure as a plain value: its kind and the characters of its detail.
pub struct ErrorView {
    pub kind: ErrorKind,
    pub detail: Seq<char>,
}

impl View for PeerDiscoveryError {
    type V = ErrorView;

    open spec fn view(&self) -> ErrorView {
        match self {
            PeerDiscoveryError::MdnsError(d) => ErrorView { kind: ErrorKind::Mdns, detail: d@ },
            PeerDiscoveryError::NetworkInterfaceError(d) => ErrorView {
                kind: ErrorKind::NetworkInterface,
                detail: d@,
            },
            PeerDiscoveryError::ServiceRegistrationFailed(d) => ErrorView {
                kind: ErrorKind::ServiceRegistrationFailed,
                detail: d@,
            },
            PeerDiscoveryError::ServiceDiscoveryFailed(d) => ErrorView {
                kind: ErrorKind::ServiceDiscoveryFailed,
                detail: d@,
            },
            PeerDiscoveryError::InvalidServiceType(d) => ErrorView {
                kind: ErrorKind::InvalidServiceType,
                detail: d@,
            },
            PeerDiscoveryError::DiscoveryTimeout(d) => ErrorView {
                kind: ErrorKind::DiscoveryTimeout,
                detail: d@,
            },
            PeerDiscoveryError::IoError(d) => ErrorView { kind: ErrorKind::Io, detail: d@ },
        }
    }
}

/// The words that introduce the detail of a failure of each kind.
pub open spec fn heading(kind: ErrorKind) -> Seq<char> {
    match kind {
        ErrorKind::Mdns => "mDNS service error: "@,
        ErrorKind::NetworkInterface => "Network interface error: "@,
        ErrorKind::ServiceRegistrationFailed => "Service registration failed: "@,
        ErrorKind::ServiceDiscoveryFailed => "Service discovery failed: "@,
        ErrorKind::InvalidServiceType => "Invalid service type: "@,
        ErrorKind::DiscoveryTimeout => "Timeout waiting for discovery: "@,
        ErrorKind::Io => "IO error: "@,
    }
}

impl ErrorView {
    /// The failure in one line: the heading of its kind, then the detail.
    pub open spec fn message(self) -> Seq<char> {
        heading(self.kind) + self.detail
    }
}

impl PeerDiscoveryError {
    /// The kind of this failure.
    pub fn kind(&self) -> (k: ErrorKind)
        ensures
            k == self@.kind,
    {
        match self {
            PeerDiscoveryError::MdnsError(_) => ErrorKind::Mdns,
            PeerDiscoveryError::NetworkInterfaceError(_) => ErrorKind::NetworkInterface,
            PeerDiscoveryError::ServiceRegistrationFailed(_) => ErrorKind::ServiceRegistrationFailed,
            PeerDiscoveryError::ServiceDiscoveryFailed(_) => ErrorKind::ServiceDiscoveryFailed,
            PeerDiscoveryError::InvalidServiceType(_) => ErrorKind::InvalidServiceType,
            PeerDiscoveryError::DiscoveryTimeout(_) => ErrorKind::DiscoveryTimeout,
            PeerDiscoveryError::IoError(_) => ErrorKind::Io,
        }
    }

    /// The detail of this failure, without the heading of its kind.
    pub fn detail(&self) -> (d: &String)
        ensures
            d@ == self@.detail,
    {
        match self {
            PeerDiscoveryError::MdnsError(d) => d,
            PeerDiscoveryError::NetworkInterfaceError(d) => d,
            PeerDiscoveryError::ServiceRegistrationFailed(d) => d,
            PeerDiscoveryError::ServiceDiscoveryFailed(d) => d,
            PeerDiscoveryError::InvalidServiceType(d) => d,
            PeerDiscoveryError::DiscoveryTimeout(d) => d,
            PeerDiscoveryError::IoError(d) => d,
        }
    }

    /// The failure in one line, as it is shown to a reader.
    pub fn to_string(&self) -> (s: String)
        ensures
            s@ == self@.message(),
    {
        let head = match self {
            PeerDiscoveryError::MdnsError(_) => "mDNS service error: ",
            PeerDiscoveryError::NetworkInterfaceError(_) => "Network interface error: ",
            PeerDiscoveryError::ServiceRegistrationFailed(_) => "Service registration failed: ",
            PeerDiscoveryError::ServiceDiscoveryFailed(_) => "Service discovery failed: ",
            PeerDiscoveryError::InvalidServiceType(_) => "Invalid service type: ",
            PeerDiscoveryError::DiscoveryTimeout(_) => "Timeout waiting for discovery: ",
            PeerDiscoveryError::IoError(_) => "IO error: ",
        };
        let mut s = String::from_str(head);
        s.append(self.detail().as_str());
        s
    }
}

impl Clone for PeerDiscoveryError {
    fn clone(&self) -> (c: Self)
        ensures
            c@ == self@,
    {
        match self {
            PeerDiscoveryError::MdnsError(d) => PeerDiscoveryError::MdnsError(d.clone()),
            PeerDiscoveryError::NetworkInterfaceError(d) => PeerDiscoveryError::NetworkInterfaceError(
                d.clone(),
            ),
            PeerDiscoveryError::ServiceRegistrationFailed(d) => {
                PeerDiscoveryError::ServiceRegistrationFailed(d.clone())
            },
            PeerDiscoveryError::ServiceDiscoveryFailed(d) => {
                PeerDiscoveryError::ServiceDiscoveryFailed(d.clone())
            },
            PeerDiscoveryError::InvalidServiceType(d) => PeerDiscoveryError::InvalidServiceType(
                d.clone(),
            ),
            PeerDiscoveryError::DiscoveryTimeout(d) => PeerDiscoveryError::DiscoveryTimeout(
                d.clone(),
            ),
            PeerDiscoveryError::IoError(d) => PeerDiscoveryError::IoError(d.clone()),
        }
    }
}

impl FromSpecImpl<mdns_sd::Error> for PeerDiscoveryError {
    open spec fn obeys_from_spec() -> bool {
        false
    }

    open spec fn from_spec(err: mdns_sd::Error) -> Self {
        arbitrary()
    }
}

impl From<mdns_sd::Error> for PeerDiscoveryError {
    /// A failure of the protocol engine, with the engine's own words as
    /// detail: the text that the engine's error shows itself as.
    fn from(err: mdns_sd::Error) -> (e: Self)
        ensures
            e@.kind == ErrorKind::Mdns,
            e matches PeerDiscoveryError::MdnsError(detail)
                && vstd::string::to_string_from_display_ensures::<mdns_sd::Error>(&err, detail),
    {
        PeerDiscoveryError::MdnsError(err.to_string())
    }
}

impl FromSpecImpl<std::io::Error> for PeerDiscoveryError {
    open spec fn obeys_from_spec() -> bool {
        false
    }

    open spec fn from_spec(err: std::io::Error) -> Self {
        arbitrary()
    }
}

impl From<std::io::Error> for PeerDiscoveryError {
    /// A failure of input or output, with the system's own words as detail:
    /// the text that the error shows itself as.
    fn from(err: std::io::Error) -> (e: Self)
        ensures
            e@.kind == ErrorKind::Io,
            e matches PeerDiscoveryError::IoError(detail)
                && vstd::string::to_string_from_display_ensures::<std::io::Error>(&err, detail),
    {
        PeerDiscoveryError::IoError(err.to_string())
    }
}

} // verus!
