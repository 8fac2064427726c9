//! The inter-chain transfer message and its response.
use vstd::prelude::*;

use crate::bridge::{decode_sequence, decoded_sequence};
use crate::msg::Coin;

verus! {

/// An inter-chain token transfer.
#[derive(Debug, PartialEq, Eq)]
pub struct MsgTransfer {
    pub source_port: String,
    pub source_channel: String,
    pub token: Option<Coin>,
    pub sender: String,
    pub receiver: String,
    pub timeout_height: Option<String>,
    /// Deadline in nanoseconds since the epoch.
    pub timeout_timestamp: Option<u64>,
    pub memo: String,
}

/// The response to a transfer dispatch: the sequence the transport assigned.
#[derive(Clone, Copy, Debug, PartialEq, Eq, Structural)]
pub struct MsgTransferResponse {
    pub sequence: u64,
}

impl MsgTransferResponse {
    /// Decodes a response from its protobuf bytes.
    pub fn decode(b: &Vec<u8>) -> (r: Option<MsgTransferResponse>)
        ensures
            match decoded_sequence(b@) {
                Some(sequence) => r == Some(MsgTransferResponse { sequence }),
                None => r is None,
            },
    {
        match decode_sequence(b) {
            Some(sequence) => Some(MsgTransferResponse { sequence }),
            None => None,
        }
    }
}

} // verus!
