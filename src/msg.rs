//! The messages that callers and the host hand to the contract, and what it
//! answers.
use vstd::prelude::*;

use crate::router::Slipage;

verus! {

/// An amount of one denomination.
#[derive(Debug, PartialEq, Eq)]
pub struct Coin {
    pub denom: String,
    pub amount: u128,
}

impl Clone for Coin {
    fn clone(&self) -> (r: Self)
        ensures
            r == *self,
    {
        Coin { denom: self.denom.clone(), amount: self.amount }
    }
}

/// Parameters of a new contract; `swap_contract` is the venue's address,
/// already validated by the host.
#[derive(Debug, PartialEq, Eq)]
pub struct InstantiateMsg {
    pub swap_contract: String,
    pub track_ibc_sends: Option<bool>,
}

/// The address that may reclaim the proceeds when their forward fails.
#[derive(Debug, PartialEq, Eq)]
pub struct Recovery {
    pub recovery_addr: String,
}

impl Clone for Recovery {
    fn clone(&self) -> (r: Self)
        ensures
            r == *self,
    {
        Recovery { recovery_addr: self.recovery_addr.clone() }
    }
}

/// Operations a caller may invoke.
#[derive(Debug, PartialEq, Eq)]
pub enum ExecuteMsg {
    OsmosisSwap {
        input_coin: Coin,
        output_denom: String,
        slipage: Slipage,
        receiver: String,
        channel: String,
        failed_delivery: Option<Recovery>,
    },
    Recover {},
}

/// Read-only queries.
#[derive(Debug, PartialEq, Eq)]
pub enum QueryMsg {
    Recoverable { addr: String },
}

/// Confirmation payload of a dispatched forward.
#[derive(Debug, PartialEq, Eq)]
pub struct CrosschainSwapResponse {
    pub msg: String,
}

/// Migration message; a migration carries no parameters.
#[derive(Debug, PartialEq, Eq)]
pub struct MigrateMsg {}

/// Callbacks from the inter-chain transport, delivered by the host.
#[derive(Debug, PartialEq, Eq)]
pub enum SudoMsg {
    ReceivePacket {},
    ReceiveAck { channel: String, sequence: u64, ack: String, success: bool },
    ReceiveTimeout { channel: String, sequence: u64 },
}

/// Subscription to packet events at a listener contract.
#[derive(Debug, PartialEq, Eq)]
pub enum ListenersMsg {
    Subscribe { channel: String, sequence: u64, event: EventType },
}

/// The packet events a listener reports.
#[derive(Clone, Copy, Debug, PartialEq, Eq, Structural)]
pub enum EventType {
    Acknowledgement,
    Timeout,
}

} // verus!
