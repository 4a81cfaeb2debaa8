//! A TCP port scanning engine: per-port connect-outcome classification, a
//! banner-based service identification heuristic, and the expansion of a scan
//! request into an ordered report.
//!
//! The engine itself performs no network I/O: the caller attempts the
//! connections and hands the observed outcomes (and any probe responses) to
//! the verified classification and reporting functions.

pub mod classify;
pub mod report;
pub mod scan;
pub mod search;
pub mod service;
