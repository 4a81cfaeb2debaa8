//! The port classifier: it combines the connector's outcome with the
//! identifier's guess into one immutable per-port result.

use vstd::prelude::*;

use crate::report::PortResult;
use crate::report::PortStatus;
use crate::report::ServiceName;
use crate::service::identify;
use crate::service::identify_spec;
use crate::service::response_view;

verus! {

/// What one connection attempt observed: a ternary, never an error.
/// Refusal and timeout are expected, first-class results of scanning.
#[derive(Clone, Copy, Debug, PartialEq, Eq)]
pub enum ConnectOutcome {
    /// The TCP handshake completed.
    Connected,
    /// The remote refused, or the handshake failed for a reason other than
    /// timeout.
    Closed,
    /// No response arrived within the connection timeout.
    TimedOut,
}

/// The caller-chosen scan options.
#[derive(Clone, Copy, Debug, PartialEq, Eq)]
pub struct ScanOptions {
    /// The alternative labeling mode: a connected port is reported
    /// "open or filtered" instead of "open". It performs the same full
    /// connect as the default mode; only the label differs.
    pub stealth: bool,
    /// Whether connected ports are probed for a service banner.
    pub detect_service: bool,
}

/// The status a port receives for a given outcome under a given labeling
/// mode: connected ports reflect the mode, everything else is closed.
pub open spec fn status_spec(stealth: bool, outcome: ConnectOutcome) -> PortStatus {
    match outcome {
        ConnectOutcome::Connected => if stealth {
            PortStatus::OpenOrFiltered
        } else {
            PortStatus::Open
        },
        _ => PortStatus::Closed,
    }
}

/// The full classification of one port: the status from the outcome and
/// mode, and a service guess only when the port was connected and detection
/// was requested.
pub open spec fn classify_spec(
    port: u16,
    options: ScanOptions,
    outcome: ConnectOutcome,
    response: Option<Seq<u8>>,
) -> PortResult {
    PortResult {
        port,
        status: status_spec(options.stealth, outcome),
        service: if outcome is Connected && options.detect_service {
            identify_spec(port, response)
        } else {
            None
        },
    }
}

/// Classifies one port. `response` carries what the web probe read on a
/// connected port, or `None` when no probe was attempted or it failed;
/// a failed identification only suppresses the service field, it is never
/// an engine-level failure.
pub fn classify(
    port: u16,
    options: ScanOptions,
    outcome: ConnectOutcome,
    response: &Option<Vec<u8>>,
) -> (r: PortResult)
    ensures
        r == classify_spec(port, options, outcome, response_view(*response)),
{
    let connected = matches!(outcome, ConnectOutcome::Connected);
    let status = if connected {
        if options.stealth {
            PortStatus::OpenOrFiltered
        } else {
            PortStatus::Open
        }
    } else {
        PortStatus::Closed
    };
    let service = if connected && options.detect_service {
        identify(port, response)
    } else {
        None
    };
    PortResult { port, status, service }
}

/// A port whose listener accepted the connection is reported "open" in the
/// default mode, and carries no service when detection is disabled.
pub proof fn lemma_connected_default_open(
    port: u16,
    options: ScanOptions,
    response: Option<Seq<u8>>,
)
    requires
        !options.stealth,
    ensures
        classify_spec(port, options, ConnectOutcome::Connected, response).status is Open,
        !options.detect_service ==> classify_spec(
            port,
            options,
            ConnectOutcome::Connected,
            response,
        ).service is None,
{
}

/// A port with nothing listening is reported "closed" with no service,
/// whatever the detection and labeling flags say.
pub proof fn lemma_not_connected_closed(
    port: u16,
    options: ScanOptions,
    outcome: ConnectOutcome,
    response: Option<Seq<u8>>,
)
    requires
        !(outcome is Connected),
    ensures
        classify_spec(port, options, outcome, response).status is Closed,
        classify_spec(port, options, outcome, response).service is None,
{
}

} // verus!
