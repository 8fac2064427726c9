use vstd::prelude::*;

verus! {

/// Reply id of the swap dispatched to the trading venue.
pub const SWAP_REPLY_ID: u64 = 1;

/// Reply id of the inter-chain transfer dispatch.
pub const FORWARD_REPLY_ID: u64 = 2;

/// Seconds between forwarding a packet and its timeout.
pub const PACKET_LIFETIME: u64 = 86400;

/// Nanoseconds in one second.
pub const NANOS_PER_SECOND: u64 = 1_000_000_000;

} // verus!
