//! Outcomes of forwarded packets, as the transport reports them.
use vstd::prelude::*;

use crate::state::{find_packet, ContractState, ContractView, IBCTransfer, Status};

verus! {

/// How a forwarded packet ended.
#[derive(Clone, Copy, Debug, PartialEq, Eq, Structural)]
pub enum PacketOutcome {
    /// Acknowledged as received.
    Delivered,
    /// Acknowledged as refused.
    Rejected,
    /// Not acknowledged before its deadline.
    TimedOut,
}

/// What an outcome did to the contract's state.
#[derive(Debug, PartialEq, Eq)]
pub enum PacketResolution {
    /// No packet is tracked under the key: nothing changed.
    Untracked,
    /// The packet arrived; its registry entry was dropped.
    Delivered(IBCTransfer),
    /// The packet failed; its entry moved to the recovery ledger.
    Recorded(IBCTransfer),
}

/// The final status of a packet with the outcome.
pub open spec fn outcome_status(outcome: PacketOutcome) -> Status {
    match outcome {
        PacketOutcome::Delivered => Status::AckSuccess,
        PacketOutcome::Rejected => Status::AckFailure,
        PacketOutcome::TimedOut => Status::TimedOut,
    }
}

/// The outcome an acknowledgement reports.
pub open spec fn ack_outcome(success: bool) -> PacketOutcome {
    if success {
        PacketOutcome::Delivered
    } else {
        PacketOutcome::Rejected
    }
}

/// The packet `t` with its final status.
pub open spec fn resolved(t: IBCTransfer, outcome: PacketOutcome) -> IBCTransfer {
    IBCTransfer { status: outcome_status(outcome), ..t }
}

impl ContractView {
    /// What an outcome for the packet sent on `channel` under `sequence` reports.
    pub open spec fn resolution(self, channel: Seq<char>, sequence: u64, outcome: PacketOutcome) -> PacketResolution {
        match find_packet(self.inflight, channel, sequence) {
            None => PacketResolution::Untracked,
            Some(i) => if outcome == PacketOutcome::Delivered {
                PacketResolution::Delivered(resolved(self.inflight[i], outcome))
            } else {
                PacketResolution::Recorded(resolved(self.inflight[i], outcome))
            },
        }
    }

    /// The state once the packet sent on `channel` under `sequence` ended with
    /// `outcome`.
    pub open spec fn after_outcome(self, channel: Seq<char>, sequence: u64, outcome: PacketOutcome) -> ContractView {
        match find_packet(self.inflight, channel, sequence) {
            None => self,
            Some(i) => if outcome == PacketOutcome::Delivered {
                ContractView { inflight: self.inflight.remove(i), ..self }
            } else {
                ContractView {
                    inflight: self.inflight.remove(i),
                    recovery: self.recovery.push(resolved(self.inflight[i], outcome)),
                    ..self
                }
            },
        }
    }
}

impl ContractState {
    /// Resolves the packet sent on `channel` under `sequence`: a delivered one
    /// is dropped, a failed one moves to the recovery ledger under its
    /// recovery address, and an untracked key changes nothing.
    pub fn receive_outcome(&mut self, channel: &String, sequence: u64, outcome: PacketOutcome) -> (r:
        PacketResolution)
        ensures
            final(self)@ == old(self)@.after_outcome(channel@, sequence, outcome),
            r == old(self)@.resolution(channel@, sequence, outcome),
            old(self)@.wf() ==> final(self)@.wf(),
    {
        match self.take_packet(channel, sequence) {
            None => PacketResolution::Untracked,
            Some(t) => {
                let mut t = t;
                t.status = match outcome {
                    PacketOutcome::Delivered => Status::AckSuccess,
                    PacketOutcome::Rejected => Status::AckFailure,
                    PacketOutcome::TimedOut => Status::TimedOut,
                };
                match outcome {
                    PacketOutcome::Delivered => PacketResolution::Delivered(t),
                    _ => {
                        let record = t.clone();
                        self.append_recovery(record);
                        PacketResolution::Recorded(t)
                    },
                }
            },
        }
    }

    /// An acknowledgement of the packet sent on `channel` under `sequence`.
    pub fn receive_ack(&mut self, channel: &String, sequence: u64, success: bool) -> (r:
        PacketResolution)
        ensures
            final(self)@ == old(self)@.after_outcome(channel@, sequence, ack_outcome(success)),
            r == old(self)@.resolution(channel@, sequence, ack_outcome(success)),
            old(self)@.wf() ==> final(self)@.wf(),
    {
        let outcome = if success {
            PacketOutcome::Delivered
        } else {
            PacketOutcome::Rejected
        };
        self.receive_outcome(channel, sequence, outcome)
    }
}

} // verus!
