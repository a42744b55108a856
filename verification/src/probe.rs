//! Probing one candidate address.
//!
//! A probe builds a client for the address and asks the node behind it for
//! its chain height, waiting no longer than [`PROBE_TIMEOUT_SECS`]. Building
//! and asking happen outside this crate; what was observed comes back as a
//! [`ProbeReport`], and [`check_rpc`] decides what the observation is worth.

use vstd::prelude::*;

verus! {

/// Seconds that a node is given to answer the liveness query.
pub const PROBE_TIMEOUT_SECS: u64 = 2;

/// What a probe of one address observed.
#[derive(Clone, Copy, Debug, PartialEq, Eq, Structural)]
pub enum ProbeReport {
    /// No client could be built for the address.
    ConstructionFailed,
    /// The liveness query came back with an error.
    CallFailed,
    /// The liveness query was not answered in time.
    TimedOut,
    /// The node answered the liveness query.
    Alive,
}

/// A node that answered a probe, known by the address it was probed at.
#[derive(Clone, Debug, PartialEq, Eq)]
pub struct Endpoint {
    pub addr: String,
}

impl View for Endpoint {
    type V = Seq<char>;

    open spec fn view(&self) -> Seq<char> {
        self.addr@
    }
}

/// The address that a probe of `addr` validated, if it validated one.
pub open spec fn validated(addr: Seq<char>, report: ProbeReport) -> Option<Seq<char>> {
    if report is Alive {
        Some(addr)
    } else {
        None
    }
}

/// The mathematical content of an optional endpoint.
pub open spec fn endpoint_view(rpc: Option<Endpoint>) -> Option<Seq<char>> {
    match rpc {
        Some(endpoint) => Some(endpoint@),
        None => None,
    }
}

/// Turns the observation of a probe into its result: an endpoint for `addr`
/// when the node answered, nothing in every other case. A failed probe is
/// no error; the candidate is dropped without a word.
pub fn check_rpc(addr: String, report: ProbeReport) -> (rpc: Option<Endpoint>)
    ensures
        endpoint_view(rpc) == validated(addr@, report),
{
    match report {
        ProbeReport::Alive => Some(Endpoint { addr }),
        ProbeReport::ConstructionFailed => None,
        ProbeReport::CallFailed => None,
        ProbeReport::TimedOut => None,
    }
}

} // verus!
