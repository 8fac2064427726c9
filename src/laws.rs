//! What holds of every saga, of packet outcomes and of claims.
use vstd::prelude::*;

use crate::execute::{forward_state, sent_packet};
use crate::msg::Recovery;
use crate::router::SwapResponse;
use crate::state::{
    find_packet, lemma_find_some, lemma_records_not_of_clean, lemma_records_not_of_idempotent,
    lemma_records_not_of_other,
    lemma_records_push, lemma_remove_unique, lemma_with_packet_finds, lemma_with_packet_unique, ContractView, IBCTransfer,
    SwapMsgReplyState,
};
use crate::sudo::{outcome_status, resolved, PacketOutcome, PacketResolution};

verus! {

/// The state after a whole saga from `s`: the swap `pending` is dispatched,
/// the venue reports `resp`, the proceeds are forwarded under `sequence`, and
/// the packet ends with `outcome`.
pub open spec fn saga(
    s: ContractView,
    pending: SwapMsgReplyState,
    resp: SwapResponse,
    sequence: u64,
    outcome: PacketOutcome,
) -> ContractView {
    s.after_swap_dispatch(pending).after_swap_result(resp).after_forward_dispatch(
        sequence,
    ).after_outcome(pending.forward_to.channel@, sequence, outcome)
}

/// The record a failed saga leaves for its recovery address.
pub open spec fn stranded_record(
    rec: Recovery,
    pending: SwapMsgReplyState,
    resp: SwapResponse,
    sequence: u64,
    outcome: PacketOutcome,
) -> IBCTransfer {
    IBCTransfer {
        recovery_addr: rec.recovery_addr,
        channel_id: pending.forward_to.channel,
        sequence,
        amount: resp.amount,
        denom: resp.token_out_denom,
        status: outcome_status(outcome),
    }
}

/// A saga whose forward is delivered leaves the recovery ledger as it was.
pub proof fn lemma_delivered_saga_keeps_ledger(
    s: ContractView,
    pending: SwapMsgReplyState,
    resp: SwapResponse,
    sequence: u64,
)
    ensures
        saga(s, pending, resp, sequence, PacketOutcome::Delivered).recovery == s.recovery,
{
}

/// A saga whose forward fails or times out, with a recovery address given,
/// adds exactly one record to that address's ledger entry, with the swap's
/// output amount and denomination, and leaves every other entry as it was.
pub proof fn lemma_failed_saga_records_once(
    s: ContractView,
    pending: SwapMsgReplyState,
    resp: SwapResponse,
    sequence: u64,
    outcome: PacketOutcome,
    rec: Recovery,
    other: Seq<char>,
)
    requires
        pending.forward_to.failed_delivery == Some(rec),
        outcome != PacketOutcome::Delivered,
        other != rec.recovery_addr@,
    ensures
        saga(s, pending, resp, sequence, outcome).recoverable(rec.recovery_addr@) == s.recoverable(
            rec.recovery_addr@,
        ).push(stranded_record(rec, pending, resp, sequence, outcome)),
        saga(s, pending, resp, sequence, outcome).recoverable(other) == s.recoverable(other),
{
    let s2 = s.after_swap_dispatch(pending).after_swap_result(resp);
    let f = forward_state(pending, resp);
    assert(s2.forward_reply_state == Some(f));
    let t = sent_packet(f, rec, sequence);
    lemma_with_packet_finds(s2.inflight, t);
    let record = resolved(t, outcome);
    assert(record == stranded_record(rec, pending, resp, sequence, outcome));
    lemma_records_push(s.recovery, record, rec.recovery_addr@);
    lemma_records_push(s.recovery, record, other);
}

/// A saga without a recovery address, forwarded under a sequence that no
/// tracked packet of its channel holds, leaves the recovery ledger as it was,
/// whatever the outcome.
pub proof fn lemma_unrecoverable_saga_keeps_ledger(
    s: ContractView,
    pending: SwapMsgReplyState,
    resp: SwapResponse,
    sequence: u64,
    outcome: PacketOutcome,
)
    requires
        pending.forward_to.failed_delivery is None,
        find_packet(s.inflight, pending.forward_to.channel@, sequence) is None,
    ensures
        saga(s, pending, resp, sequence, outcome).recovery == s.recovery,
{
}

/// A saga keeps every in-flight key unique.
pub proof fn lemma_saga_keeps_keys_unique(
    s: ContractView,
    pending: SwapMsgReplyState,
    resp: SwapResponse,
    sequence: u64,
    outcome: PacketOutcome,
)
    requires
        s.wf(),
    ensures
        saga(s, pending, resp, sequence, outcome).wf(),
{
    let s3 = s.after_swap_dispatch(pending).after_swap_result(resp).after_forward_dispatch(sequence);
    let f = forward_state(pending, resp);
    if let Some(rec) = f.failed_delivery {
        lemma_with_packet_unique(s.inflight, sent_packet(f, rec, sequence));
    }
    if let Some(i) = find_packet(s3.inflight, pending.forward_to.channel@, sequence) {
        lemma_find_some(s3.inflight, pending.forward_to.channel@, sequence);
        lemma_remove_unique(s3.inflight, i);
    }
}

/// An outcome for a packet that is not tracked changes nothing.
pub proof fn lemma_untracked_outcome_is_noop(
    s: ContractView,
    channel: Seq<char>,
    sequence: u64,
    outcome: PacketOutcome,
)
    requires
        find_packet(s.inflight, channel, sequence) is None,
    ensures
        s.after_outcome(channel, sequence, outcome) == s,
        s.resolution(channel, sequence, outcome) == PacketResolution::Untracked,
{
}

/// In a registry with unique keys, a repeated outcome for a packet changes
/// nothing, the recovery ledger included.
pub proof fn lemma_duplicate_outcome_is_noop(
    s: ContractView,
    channel: Seq<char>,
    sequence: u64,
    first: PacketOutcome,
    second: PacketOutcome,
)
    requires
        s.wf(),
    ensures
        s.after_outcome(channel, sequence, first).after_outcome(channel, sequence, second)
            == s.after_outcome(channel, sequence, first),
        s.after_outcome(channel, sequence, first).resolution(channel, sequence, second)
            == PacketResolution::Untracked,
{
    if let Some(i) = find_packet(s.inflight, channel, sequence) {
        lemma_find_some(s.inflight, channel, sequence);
        lemma_remove_unique(s.inflight, i);
    }
}

/// After `addr` claimed, nothing is owed to it: a second claim pays nothing.
pub proof fn lemma_claim_clears(s: ContractView, addr: Seq<char>)
    ensures
        s.after_claim(addr).recoverable(addr) == Seq::<IBCTransfer>::empty(),
        s.after_claim(addr).after_claim(addr).recovery == s.after_claim(addr).recovery,
{
    lemma_records_not_of_clean(s.recovery, addr);
    lemma_records_not_of_idempotent(s.recovery, addr);
}

/// A claim by `addr` leaves what is owed to every other address.
pub proof fn lemma_claim_keeps_others(s: ContractView, addr: Seq<char>, other: Seq<char>)
    requires
        other != addr,
    ensures
        s.after_claim(addr).recoverable(other) == s.recoverable(other),
{
    lemma_records_not_of_other(s.recovery, addr, other);
}

} // verus!
