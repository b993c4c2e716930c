//! Deciding from one connection attempt whether the server's port is free.
use vstd::prelude::*;
use crate::text::{decimal, decimal_string, joined};

verus! {

/// How long a probe's connection attempt may take, in milliseconds.
pub const PROBE_TIMEOUT_MS: u64 = 200;

/// How a connection attempt to the port ended.
#[derive(PartialEq, Eq, Structural, Clone, Copy, Debug)]
pub enum ConnectOutcome {
    /// The connection was accepted: something listens.
    Connected,
    /// The connection was refused: nothing listens.
    Refused,
    /// Any other failure: a timeout, an unreachable host and the like.
    OtherError,
}

/// The port counts as free only when the connection was refused; an
/// ambiguous failure counts as occupied, so that no second server starts.
pub fn port_available(outcome: ConnectOutcome) -> (r: bool)
    ensures
        r == (outcome == ConnectOutcome::Refused),
{
    match outcome {
        ConnectOutcome::Refused => true,
        _ => false,
    }
}

/// The loopback address probed for `port`.
pub open spec fn probe_address_of(port: u16) -> Seq<char> {
    "127.0.0.1:"@ + decimal(port as nat)
}

/// Writes the loopback address of `port`.
pub fn probe_address(port: u16) -> (r: String)
    ensures
        r@ == probe_address_of(port),
{
    let digits = decimal_string(port as u64);
    joined("127.0.0.1:", digits.as_str())
}

} // verus!
