//! The per-port result record and its status and service labels.

use vstd::prelude::*;

verus! {

/// The classification a scanned port receives.
#[derive(Clone, Copy, Debug, PartialEq, Eq)]
pub enum PortStatus {
    /// A listener accepted the connection (default labeling mode).
    Open,
    /// A listener accepted the connection, reported under the alternative
    /// labeling mode that does not claim to distinguish open from
    /// filtered-but-passthrough.
    OpenOrFiltered,
    /// The connection was refused or timed out.
    Closed,
}

impl PortStatus {
    /// The status string that external consumers see.
    pub open spec fn label_spec(&self) -> Seq<char> {
        match self {
            PortStatus::Open => "open"@,
            PortStatus::OpenOrFiltered => "open or filtered"@,
            PortStatus::Closed => "closed"@,
        }
    }

    /// Renders the status as its external string form.
    pub fn label(&self) -> (s: String)
        ensures
            s@ == self.label_spec(),
    {
        match self {
            PortStatus::Open => "open".to_string(),
            PortStatus::OpenOrFiltered => "open or filtered".to_string(),
            PortStatus::Closed => "closed".to_string(),
        }
    }
}

/// An application identified from a probe response.
#[derive(Clone, Copy, Debug, PartialEq, Eq)]
pub enum ServiceName {
    Nginx,
    Apache,
}

impl ServiceName {
    /// The display name that external consumers see.
    pub open spec fn label_spec(&self) -> Seq<char> {
        match self {
            ServiceName::Nginx => "Nginx"@,
            ServiceName::Apache => "Apache"@,
        }
    }

    /// Renders the identified application as its external string form.
    pub fn label(&self) -> (s: String)
        ensures
            s@ == self.label_spec(),
    {
        match self {
            ServiceName::Nginx => "Nginx".to_string(),
            ServiceName::Apache => "Apache".to_string(),
        }
    }
}

/// One scanned port's outcome: immutable once created, one per scanned port.
#[derive(Clone, Debug, PartialEq, Eq)]
pub struct PortResult {
    pub port: u16,
    pub status: PortStatus,
    /// The identified application, or `None` when no probe was attempted,
    /// the response was unreadable, or no signature matched.
    pub service: Option<ServiceName>,
}

} // verus!
