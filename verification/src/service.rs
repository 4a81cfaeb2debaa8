//! The service identifier: a narrow, banner-based heuristic that probes only
//! well-known web ports and matches the response against known `Server:`
//! header fragments.

use vstd::prelude::*;

use crate::report::ServiceName;
use crate::search::contains_bytes;
use crate::search::contains_seq;

verus! {

/// The bytes of `HTTP/`, the marker that makes a response count as HTTP.
pub open spec fn http_marker() -> Seq<u8> {
    seq!['H' as u8, 'T' as u8, 'T' as u8, 'P' as u8, '/' as u8]
}

/// The bytes of `Server: nginx`.
pub open spec fn nginx_marker() -> Seq<u8> {
    seq![
        'S' as u8, 'e' as u8, 'r' as u8, 'v' as u8, 'e' as u8, 'r' as u8, ':' as u8, ' ' as u8,
        'n' as u8, 'g' as u8, 'i' as u8, 'n' as u8, 'x' as u8,
    ]
}

/// The bytes of `Server: Apache`.
pub open spec fn apache_marker() -> Seq<u8> {
    seq![
        'S' as u8, 'e' as u8, 'r' as u8, 'v' as u8, 'e' as u8, 'r' as u8, ':' as u8, ' ' as u8,
        'A' as u8, 'p' as u8, 'a' as u8, 'c' as u8, 'h' as u8, 'e' as u8,
    ]
}

fn http_marker_bytes() -> (v: Vec<u8>)
    ensures
        v@ == http_marker(),
{
    let v: Vec<u8> = vec!['H' as u8, 'T' as u8, 'T' as u8, 'P' as u8, '/' as u8];
    assert(v@ =~= http_marker());
    v
}

fn nginx_marker_bytes() -> (v: Vec<u8>)
    ensures
        v@ == nginx_marker(),
{
    let v: Vec<u8> = vec![
        'S' as u8, 'e' as u8, 'r' as u8, 'v' as u8, 'e' as u8, 'r' as u8, ':' as u8, ' ' as u8,
        'n' as u8, 'g' as u8, 'i' as u8, 'n' as u8, 'x' as u8,
    ];
    assert(v@ =~= nginx_marker());
    v
}

fn apache_marker_bytes() -> (v: Vec<u8>)
    ensures
        v@ == apache_marker(),
{
    let v: Vec<u8> = vec![
        'S' as u8, 'e' as u8, 'r' as u8, 'v' as u8, 'e' as u8, 'r' as u8, ':' as u8, ' ' as u8,
        'A' as u8, 'p' as u8, 'a' as u8, 'c' as u8, 'h' as u8, 'e' as u8,
    ];
    assert(v@ =~= apache_marker());
    v
}

/// The bytes of the minimal web probe, `GET / HTTP/1.0` with the
/// protocol-required blank line terminator.
pub open spec fn web_probe_request_spec() -> Seq<u8> {
    seq![
        'G' as u8, 'E' as u8, 'T' as u8, ' ' as u8, '/' as u8, ' ' as u8, 'H' as u8, 'T' as u8,
        'T' as u8, 'P' as u8, '/' as u8, '1' as u8, '.' as u8, '0' as u8, '\r' as u8, '\n' as u8,
        '\r' as u8, '\n' as u8,
    ]
}

/// The request the web probe writes to a connected port before reading the
/// response.
pub fn web_probe_request() -> (v: Vec<u8>)
    ensures
        v@ == web_probe_request_spec(),
{
    let v: Vec<u8> = vec![
        'G' as u8, 'E' as u8, 'T' as u8, ' ' as u8, '/' as u8, ' ' as u8, 'H' as u8, 'T' as u8,
        'T' as u8, 'P' as u8, '/' as u8, '1' as u8, '.' as u8, '0' as u8, '\r' as u8, '\n' as u8,
        '\r' as u8, '\n' as u8,
    ];
    assert(v@ =~= web_probe_request_spec());
    v
}

/// What the signature match yields on a readable response: a response without
/// the HTTP marker gives no guess; otherwise the first matching `Server:`
/// fragment wins, nginx before Apache.
pub open spec fn web_signature(response: Seq<u8>) -> Option<ServiceName> {
    if contains_seq(response, http_marker()) {
        if contains_seq(response, nginx_marker()) {
            Some(ServiceName::Nginx)
        } else if contains_seq(response, apache_marker()) {
            Some(ServiceName::Apache)
        } else {
            None
        }
    } else {
        None
    }
}

/// Matches a web probe response against the known server signatures,
/// first-match-wins.
pub fn match_web_signature(response: &[u8]) -> (r: Option<ServiceName>)
    ensures
        r == web_signature(response@),
{
    let http = http_marker_bytes();
    if !contains_bytes(response, http.as_slice()) {
        return None;
    }
    let nginx = nginx_marker_bytes();
    if contains_bytes(response, nginx.as_slice()) {
        return Some(ServiceName::Nginx);
    }
    let apache = apache_marker_bytes();
    if contains_bytes(response, apache.as_slice()) {
        return Some(ServiceName::Apache);
    }
    None
}

/// A response lacking the `HTTP/` marker never yields a service guess.
pub proof fn lemma_no_http_marker_no_guess(response: Seq<u8>)
    requires
        !contains_seq(response, http_marker()),
    ensures
        web_signature(response) is None,
{
}

/// The ports on which the identifier attempts a probe at all.
pub open spec fn probed_port_spec(port: u16) -> bool {
    port == 80 || port == 443
}

/// Reports whether the service identifier would probe this port.
pub fn probed_port(port: u16) -> (r: bool)
    ensures
        r == probed_port_spec(port),
{
    port == 80 || port == 443
}

/// The view of an optional probe response as an optional byte sequence.
pub open spec fn response_view(response: Option<Vec<u8>>) -> Option<Seq<u8>> {
    match response {
        Some(bytes) => Some(bytes@),
        None => None,
    }
}

/// What service identification yields: ports outside the lookup table are
/// never probed, an unreadable response (`None`) only suppresses the guess.
pub open spec fn identify_spec(port: u16, response: Option<Seq<u8>>) -> Option<ServiceName> {
    if probed_port_spec(port) {
        match response {
            Some(bytes) => web_signature(bytes),
            None => None,
        }
    } else {
        None
    }
}

/// Identifies the application behind a connected port from the response its
/// probe produced; `response` is `None` when no probe was attempted or the
/// response could not be read.
pub fn identify(port: u16, response: &Option<Vec<u8>>) -> (r: Option<ServiceName>)
    ensures
        r == identify_spec(port, response_view(*response)),
{
    if !probed_port(port) {
        return None;
    }
    match response {
        Some(bytes) => match_web_signature(bytes.as_slice()),
        None => None,
    }
}

} // verus!
