//! The scan orchestrator: expanding a request's port specification into an
//! ordered port list, validating it, and collecting classifier results into
//! a report in request order.

use vstd::prelude::*;

use crate::classify::classify;
use crate::classify::classify_spec;
use crate::classify::ConnectOutcome;
use crate::classify::ScanOptions;
use crate::report::PortResult;
use crate::service::response_view;

verus! {

/// How a request names the ports to probe: an explicit list, scanned in the
/// given order with duplicates kept, or an inclusive numeric range, scanned
/// ascending.
#[derive(Clone, Debug, PartialEq, Eq)]
pub enum PortSpec {
    Explicit(Vec<u16>),
    Range(u16, u16),
}

impl Default for PortSpec {
    /// The default request scans the inclusive range 1 to 1024.
    fn default() -> (r: PortSpec)
        ensures
            r == PortSpec::Range(1u16, 1024u16),
    {
        PortSpec::Range(1, 1024)
    }
}

/// A configuration fault: reported before any scanning begins, fatal to the
/// run, never per-port.
#[derive(Clone, Copy, Debug, PartialEq, Eq)]
pub enum ConfigurationError {
    /// The target address could not be understood.
    InvalidAddress,
    /// The explicit port list names no port at all.
    EmptyPorts,
    /// A requested port lies outside the valid range of 1 to 65535.
    PortOutOfRange,
    /// A numeric range whose start exceeds its end.
    InvalidRange,
}

impl ConfigurationError {
    /// The message that external consumers see.
    pub open spec fn message_spec(&self) -> Seq<char> {
        match self {
            ConfigurationError::InvalidAddress => "invalid target address"@,
            ConfigurationError::EmptyPorts => "no ports requested"@,
            ConfigurationError::PortOutOfRange => "port out of range (1 to 65535)"@,
            ConfigurationError::InvalidRange => "start port exceeds end port"@,
        }
    }

    /// Renders the fault as a message for the caller.
    pub fn message(&self) -> (s: String)
        ensures
            s@ == self.message_spec(),
    {
        match self {
            ConfigurationError::InvalidAddress => "invalid target address".to_string(),
            ConfigurationError::EmptyPorts => "no ports requested".to_string(),
            ConfigurationError::PortOutOfRange => "port out of range (1 to 65535)".to_string(),
            ConfigurationError::InvalidRange => "start port exceeds end port".to_string(),
        }
    }
}

/// The configuration fault a port specification carries, if any: an explicit
/// list must be non-empty and name only ports from 1 up; a range must run
/// upward and start from 1 or above.
pub open spec fn port_spec_error(ports: PortSpec) -> Option<ConfigurationError> {
    match ports {
        PortSpec::Explicit(list) => if list@.len() == 0 {
            Some(ConfigurationError::EmptyPorts)
        } else if exists|i: int| 0 <= i < list@.len() && list@[i] == 0 {
            Some(ConfigurationError::PortOutOfRange)
        } else {
            None
        },
        PortSpec::Range(start, end) => if start > end {
            Some(ConfigurationError::InvalidRange)
        } else if start == 0 {
            Some(ConfigurationError::PortOutOfRange)
        } else {
            None
        },
    }
}

/// The ports a valid specification expands to, in scan order: the explicit
/// list as given, or the inclusive range ascending.
pub open spec fn expanded_ports(ports: PortSpec) -> Seq<u16> {
    match ports {
        PortSpec::Explicit(list) => list@,
        PortSpec::Range(start, end) => Seq::new(
            (end - start + 1) as nat,
            |i: int| (start + i) as u16,
        ),
    }
}

/// Expands a port specification into the exact ordered list of ports to
/// scan, or reports its configuration fault before any port is touched.
pub fn expand(ports: &PortSpec) -> (r: Result<Vec<u16>, ConfigurationError>)
    ensures
        match r {
            Ok(v) => port_spec_error(*ports) is None && v@ == expanded_ports(*ports),
            Err(e) => port_spec_error(*ports) == Some(e),
        },
{
    match ports {
        PortSpec::Explicit(list) => {
            if list.len() == 0 {
                return Err(ConfigurationError::EmptyPorts);
            }
            let n: usize = list.len();
            let mut v: Vec<u16> = Vec::new();
            let mut i: usize = 0;
            while i < n
                invariant
                    *ports == PortSpec::Explicit(*list),
                    n == list@.len(),
                    i <= n,
                    v@ == list@.subrange(0, i as int),
                    forall|k: int| 0 <= k < i ==> list@[k] != 0,
                decreases n - i,
            {
                let p: u16 = list[i];
                if p == 0 {
                    return Err(ConfigurationError::PortOutOfRange);
                }
                v.push(p);
                assert(v@ =~= list@.subrange(0, i + 1));
                i += 1;
            }
            assert(v@ =~= list@);
            Ok(v)
        },
        PortSpec::Range(start_ref, end_ref) => {
            let start: u16 = *start_ref;
            let end: u16 = *end_ref;
            if start > end {
                return Err(ConfigurationError::InvalidRange);
            }
            if start == 0 {
                return Err(ConfigurationError::PortOutOfRange);
            }
            let count: usize = (end - start) as usize + 1;
            let mut v: Vec<u16> = Vec::new();
            let mut i: usize = 0;
            while i < count
                invariant
                    1 <= start <= end,
                    count == end - start + 1,
                    i <= count,
                    v@.len() == i,
                    forall|k: int| 0 <= k < i ==> v@[k] == start + k,
                decreases count - i,
            {
                v.push(start + (i as u16));
                i += 1;
            }
            assert(v@ =~= expanded_ports(*ports));
            Ok(v)
        },
    }
}

/// A validated scan target: the textual address and the fully expanded,
/// ordered port list.
#[derive(Clone, Debug)]
pub struct ScanTarget {
    pub address: String,
    pub ports: Vec<u16>,
}

impl ScanTarget {
    /// Well-formedness: at least one port, every port from 1 up (the upper
    /// bound is the port type's own).
    pub open spec fn wf(&self) -> bool {
        &&& self.ports@.len() > 0
        &&& forall|i: int| 0 <= i < self.ports@.len() ==> self.ports@[i] >= 1
    }

    /// Validates a request into a target, expanding its port specification;
    /// a configuration fault is reported here, before any scanning.
    pub fn new(address: String, ports: &PortSpec) -> (r: Result<ScanTarget, ConfigurationError>)
        ensures
            match r {
                Ok(t) => {
                    &&& port_spec_error(*ports) is None
                    &&& t.wf()
                    &&& t.address == address
                    &&& t.ports@ == expanded_ports(*ports)
                },
                Err(e) => port_spec_error(*ports) == Some(e),
            },
    {
        let expanded = expand(ports)?;
        Ok(ScanTarget { address, ports: expanded })
    }
}

/// What one connection attempt against one port yielded: the connector's
/// ternary outcome, and the bytes its web probe read, if one ran and
/// succeeded.
#[derive(Clone, Debug)]
pub struct Probe {
    pub outcome: ConnectOutcome,
    pub response: Option<Vec<u8>>,
}

/// The report a scan yields: one classifier result per requested port, in
/// request order.
pub open spec fn report_spec(
    ports: Seq<u16>,
    options: ScanOptions,
    probes: Seq<Probe>,
) -> Seq<PortResult> {
    Seq::new(ports.len(), |i: int| classify_spec(
        ports[i],
        options,
        probes[i].outcome,
        response_view(probes[i].response),
    ))
}

/// Collects the report for a target from the outcomes the caller observed:
/// `probes` holds one entry per requested port, in request order, and the
/// report keeps exactly that order, whatever order the attempts completed in.
pub fn run(target: &ScanTarget, options: ScanOptions, probes: &Vec<Probe>) -> (report: Vec<
    PortResult,
>)
    requires
        probes@.len() == target.ports@.len(),
    ensures
        report@ == report_spec(target.ports@, options, probes@),
        report@.len() == target.ports@.len(),
        forall|i: int| 0 <= i < report@.len() ==> report@[i].port == target.ports@[i],
{
    let n: usize = target.ports.len();
    let mut report: Vec<PortResult> = Vec::new();
    let mut i: usize = 0;
    while i < n
        invariant
            n == target.ports@.len(),
            probes@.len() == n,
            i <= n,
            report@.len() == i,
            forall|k: int| 0 <= k < i ==> report@[k] == report_spec(
                target.ports@,
                options,
                probes@,
            )[k],
        decreases n - i,
    {
        let p = &probes[i];
        let r = classify(target.ports[i], options, p.outcome, &p.response);
        report.push(r);
        i += 1;
    }
    assert(report@ =~= report_spec(target.ports@, options, probes@));
    report
}

/// Idempotence: a report is a function of the requested ports, the options,
/// and the per-port outcomes alone; two runs of the same scan that observe
/// the same outcomes yield identical reports.
pub proof fn lemma_scan_idempotent(
    ports: Seq<u16>,
    options: ScanOptions,
    probes: Seq<Probe>,
    first: Seq<PortResult>,
    second: Seq<PortResult>,
)
    requires
        first == report_spec(ports, options, probes),
        second == report_spec(ports, options, probes),
    ensures
        first == second,
{
}

} // verus!
