//! What the transaction executor is told to do, and how its report is read.
//!
//! One attempt is one TCP connection: the socket is set up as the plan
//! says, the whole ciphertext is written in one operation, and a
//! non-consuming read of `ACK_PEEK_LEN` bytes waits for the remote side to
//! begin its answer. The answer itself is never read.

use crate::error::VoteError;
use crate::stats::Outcome;
use vstd::prelude::*;

verus! {

/// Number of bytes that the acknowledgment read looks at without consuming
/// them.
pub const ACK_PEEK_LEN: usize = 1;

/// The resolved address of the remote listener.
#[derive(Clone, Copy, Debug, PartialEq, Eq)]
pub enum Endpoint {
    /// An IPv4 address and a port.
    V4 { octets: [u8; 4], port: u16 },
    /// An IPv6 address and a port.
    V6 { segments: [u16; 8], port: u16 },
}

/// The address family of a socket.
#[derive(Clone, Copy, Debug, PartialEq, Eq, Structural)]
pub enum Family {
    Ipv4,
    Ipv6,
}

/// How the socket of one attempt is set up before it connects.
#[derive(Clone, Copy, Debug, PartialEq, Eq, Structural)]
pub struct SocketPlan {
    /// The family of the socket: that of the remote address.
    pub family: Family,
    /// Seconds that a closed socket lingers. Zero, so that a closed or
    /// aborted connection does not hold its local port.
    pub linger_secs: u64,
    /// Whether small writes go out at once instead of being coalesced.
    pub nodelay: bool,
    /// Whether keepalive probes are sent.
    pub keepalive: bool,
    /// Whether the local address may be reused.
    pub reuseaddr: bool,
}

impl Endpoint {
    /// The family of the address.
    pub open spec fn family(self) -> Family {
        match self {
            Endpoint::V4 { .. } => Family::Ipv4,
            Endpoint::V6 { .. } => Family::Ipv6,
        }
    }

    /// Whether the address is an IPv4 address.
    pub fn is_ipv4(&self) -> (b: bool)
        ensures
            b == (self.family() == Family::Ipv4),
    {
        match self {
            Endpoint::V4 { .. } => true,
            Endpoint::V6 { .. } => false,
        }
    }
}

/// The socket settings for a connection to `addr`.
pub open spec fn plan_for(addr: Endpoint) -> SocketPlan {
    SocketPlan {
        family: addr.family(),
        linger_secs: 0,
        nodelay: true,
        keepalive: false,
        reuseaddr: true,
    }
}

/// Plans the socket of one attempt: of the family of `addr`, without
/// linger, without write coalescing, without keepalive, with address reuse.
pub fn socket_plan(addr: &Endpoint) -> (plan: SocketPlan)
    ensures
        plan == plan_for(*addr),
{
    let family = if addr.is_ipv4() {
        Family::Ipv4
    } else {
        Family::Ipv6
    };
    SocketPlan { family, linger_secs: 0, nodelay: true, keepalive: false, reuseaddr: true }
}

/// How an attempt ended, given what the transaction executor reports.
pub open spec fn transport_outcome(sent: Result<(), VoteError>) -> Outcome {
    match sent {
        Ok(_) => Outcome::Acknowledged,
        Err(_) => Outcome::TransportFailed,
    }
}

/// Reads the report of the transaction executor. An attempt whose
/// connection was made, written to and answered is acknowledged; any error
/// on the way is a transport failure of this attempt.
pub fn outcome_of_transport(sent: &Result<(), VoteError>) -> (outcome: Outcome)
    ensures
        outcome == transport_outcome(*sent),
{
    match sent {
        Ok(_) => Outcome::Acknowledged,
        Err(_) => Outcome::TransportFailed,
    }
}

} // verus!
