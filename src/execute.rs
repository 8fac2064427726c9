//! The saga: dispatch a swap, forward its proceeds, register the forwarded
//! packet; and the claim of recovered funds.
use vstd::prelude::*;

use crate::bridge::{decode_sequence, decoded_sequence, timestamp_plus_seconds};
use crate::consts::{NANOS_PER_SECOND, PACKET_LIFETIME};
use crate::error::ContractError;
use crate::ibc::MsgTransfer;
use crate::msg::{Coin, CrosschainSwapResponse, Recovery};
use crate::reply::{reply_payload, SubMsgResponse, SubMsgResult};
use crate::router::{ExecuteMsg as SwapRouterExecute, Slipage, SwapResponse};
use crate::state::{
    with_packet, ContractState, ContractView, ForwardMsgReplyState, ForwardTo, IBCTransfer,
    Status, SwapMsgReplyState,
};
use crate::text::{callback_memo, callback_memo_string, sent_message, sent_message_string};

verus! {

/// A call of the venue, with the funds it carries.
#[derive(Debug, PartialEq, Eq)]
pub struct WasmExecuteMsg {
    pub contract_addr: String,
    pub msg: SwapRouterExecute,
    pub funds: Vec<Coin>,
}

/// A payment from the contract's balance.
#[derive(Debug, PartialEq, Eq)]
pub struct BankSend {
    pub to_address: String,
    pub amount: Coin,
}

/// What a confirmed forward reports.
#[derive(Debug, PartialEq, Eq)]
pub struct ForwardConfirmation {
    pub response: CrosschainSwapResponse,
    pub channel_id: String,
    pub to_address: String,
    pub amount: u128,
    pub denom: String,
    pub sequence: u64,
}

/// The timeout of a packet forwarded at `block_time`, in nanoseconds.
pub open spec fn packet_deadline(block_time: u64) -> int {
    block_time + PACKET_LIFETIME * NANOS_PER_SECOND
}

/// The forward that follows the swap `p` once the venue reported `resp`.
pub open spec fn forward_state(p: SwapMsgReplyState, resp: SwapResponse) -> ForwardMsgReplyState {
    ForwardMsgReplyState {
        channel_id: p.forward_to.channel,
        to_address: p.forward_to.receiver,
        amount: resp.amount,
        denom: resp.token_out_denom,
        failed_delivery: p.forward_to.failed_delivery,
    }
}

/// The registry entry of the forward `f`, sent under `sequence`, whose funds
/// `rec` may recover.
pub open spec fn sent_packet(f: ForwardMsgReplyState, rec: Recovery, sequence: u64) -> IBCTransfer {
    IBCTransfer {
        recovery_addr: rec.recovery_addr,
        channel_id: f.channel_id,
        sequence,
        amount: f.amount,
        denom: f.denom,
        status: Status::Sent,
    }
}

/// The pending swap that a request leaves behind.
pub open spec fn swap_request_state(
    block_time: u64,
    contract_addr: String,
    input_coin: Coin,
    output_denom: String,
    slipage: Slipage,
    receiver: String,
    channel: String,
    failed_delivery: Option<Recovery>,
) -> SwapMsgReplyState {
    SwapMsgReplyState {
        swap_msg: SwapRouterExecute::Swap { input_coin, output_denom, slipage },
        contract_addr,
        block_time,
        forward_to: ForwardTo { channel, receiver, failed_delivery },
    }
}

/// `m` is the transfer that forwards the proceeds `resp` of the swap `p`.
pub open spec fn forwards(m: MsgTransfer, p: SwapMsgReplyState, resp: SwapResponse) -> bool {
    &&& m.source_port@ == "transfer"@
    &&& m.source_channel == p.forward_to.channel
    &&& m.token == Some(Coin { denom: resp.token_out_denom, amount: resp.amount })
    &&& m.sender == p.contract_addr
    &&& m.receiver == p.forward_to.receiver
    &&& m.timeout_height is None
    &&& m.timeout_timestamp == Some(packet_deadline(p.block_time) as u64)
    &&& m.memo@ == callback_memo(p.contract_addr@)
}

/// `b` pays the record `t` back to its recovery address.
pub open spec fn pays_back(b: BankSend, t: IBCTransfer) -> bool {
    b.to_address == t.recovery_addr && b.amount == Coin { denom: t.denom, amount: t.amount }
}

impl ContractView {
    /// The state once a swap was dispatched, with `pending` waiting for its result.
    pub open spec fn after_swap_dispatch(self, pending: SwapMsgReplyState) -> ContractView {
        ContractView { swap_reply_state: Some(pending), ..self }
    }

    /// The state once the pending swap reported `resp` and its forward was dispatched.
    pub open spec fn after_swap_result(self, resp: SwapResponse) -> ContractView {
        ContractView {
            swap_reply_state: None,
            forward_reply_state: Some(forward_state(self.swap_reply_state->Some_0, resp)),
            ..self
        }
    }

    /// The state once the pending forward was sent under `sequence`.
    pub open spec fn after_forward_dispatch(self, sequence: u64) -> ContractView {
        let f = self.forward_reply_state->Some_0;
        match f.failed_delivery {
            Some(rec) => ContractView {
                forward_reply_state: None,
                inflight: with_packet(self.inflight, sent_packet(f, rec, sequence)),
                ..self
            },
            None => ContractView { forward_reply_state: None, ..self },
        }
    }
}

impl ContractState {
    /// Starts a saga: the swap to dispatch to the venue, and the pending state
    /// that waits for its result. Refused while another saga is pending.
    pub fn swap_and_forward(
        &mut self,
        block_time: u64,
        contract_addr: String,
        input_coin: Coin,
        output_denom: String,
        slipage: Slipage,
        receiver: String,
        channel: String,
        failed_delivery: Option<Recovery>,
    ) -> (r: Result<WasmExecuteMsg, ContractError>)
        ensures
            old(self)@.saga_pending() ==> r == Err::<WasmExecuteMsg, ContractError>(
                ContractError::SagaPending,
            ) && final(self)@ == old(self)@,
            !old(self)@.saga_pending() ==> (r matches Ok(w) && {
                &&& w.contract_addr == old(self)@.config.swap_contract
                &&& w.msg == (SwapRouterExecute::Swap { input_coin, output_denom, slipage })
                &&& w.funds@ == seq![input_coin]
                &&& final(self)@ == old(self)@.after_swap_dispatch(
                    swap_request_state(
                        block_time,
                        contract_addr,
                        input_coin,
                        output_denom,
                        slipage,
                        receiver,
                        channel,
                        failed_delivery,
                    ),
                )
            }),
    {
        if self.swap_reply_state.is_some() || self.forward_reply_state.is_some() {
            return Err(ContractError::SagaPending);
        }
        let swap_msg = SwapRouterExecute::Swap {
            input_coin: input_coin.clone(),
            output_denom: output_denom.clone(),
            slipage,
        };
        let mut funds: Vec<Coin> = Vec::new();
        funds.push(input_coin.clone());
        let w = WasmExecuteMsg {
            contract_addr: self.config.swap_contract.clone(),
            msg: SwapRouterExecute::Swap { input_coin, output_denom, slipage },
            funds,
        };
        self.swap_reply_state = Some(
            SwapMsgReplyState {
                swap_msg,
                contract_addr,
                block_time,
                forward_to: ForwardTo { channel, receiver, failed_delivery },
            },
        );
        assert(w.funds@ =~= seq![w.msg->Swap_input_coin]);
        Ok(w)
    }

    /// Resumes the saga with the swap's result: clears the pending swap and,
    /// on success, returns the transfer that forwards the proceeds, leaving a
    /// pending forward behind.
    pub fn handle_swap_reply(&mut self, swap_result: Result<SwapResponse, ContractError>) -> (r:
        Result<MsgTransfer, ContractError>)
        ensures
            old(self)@.swap_reply_state is None ==> r == Err::<MsgTransfer, ContractError>(
                ContractError::NoPendingSwap,
            ) && final(self)@ == old(self)@,
            old(self)@.swap_reply_state matches Some(p) ==> match swap_result {
                Err(e) => r == Err::<MsgTransfer, ContractError>(e) && final(self)@ == (
                ContractView { swap_reply_state: None, ..old(self)@ }),
                Ok(resp) => if packet_deadline(p.block_time) > u64::MAX {
                    r == Err::<MsgTransfer, ContractError>(ContractError::DeadlineOverflow)
                        && final(self)@ == (ContractView { swap_reply_state: None, ..old(self)@ })
                } else {
                    (r matches Ok(m) && forwards(m, p, resp)) && final(self)@ == old(
                        self,
                    )@.after_swap_result(resp)
                },
            },
    {
        let p = match self.swap_reply_state.take() {
            Some(p) => p,
            None => return Err(ContractError::NoPendingSwap),
        };
        let resp = match swap_result {
            Ok(resp) => resp,
            Err(e) => return Err(e),
        };
        if p.block_time > u64::MAX - PACKET_LIFETIME * NANOS_PER_SECOND {
            return Err(ContractError::DeadlineOverflow);
        }
        let deadline = timestamp_plus_seconds(p.block_time, PACKET_LIFETIME);
        let memo = callback_memo_string(&p.contract_addr);
        let transfer = MsgTransfer {
            source_port: String::from_str("transfer"),
            source_channel: p.forward_to.channel.clone(),
            token: Some(Coin { denom: resp.token_out_denom.clone(), amount: resp.amount }),
            sender: p.contract_addr.clone(),
            receiver: p.forward_to.receiver.clone(),
            timeout_height: None,
            timeout_timestamp: Some(deadline),
            memo,
        };
        self.forward_reply_state = Some(
            ForwardMsgReplyState {
                channel_id: p.forward_to.channel,
                to_address: p.forward_to.receiver,
                amount: resp.amount,
                denom: resp.token_out_denom,
                failed_delivery: p.forward_to.failed_delivery,
            },
        );
        Ok(transfer)
    }

    /// Resumes the saga with the result of the transfer dispatch: clears the
    /// pending forward and, where a recovery address was given, registers the
    /// packet under the sequence the transport assigned.
    pub fn handle_forward_reply(&mut self, result: &SubMsgResult) -> (r: Result<
        ForwardConfirmation,
        ContractError,
    >)
        ensures
            reply_payload(*result) is None ==> r == Err::<ForwardConfirmation, ContractError>(
                ContractError::InvalidReply,
            ) && final(self)@ == old(self)@,
            reply_payload(*result) matches Some(b) ==> match decoded_sequence(b) {
                None => r == Err::<ForwardConfirmation, ContractError>(
                    ContractError::UndecodableTransferResponse,
                ) && final(self)@ == old(self)@,
                Some(sequence) => match old(self)@.forward_reply_state {
                    None => r == Err::<ForwardConfirmation, ContractError>(
                        ContractError::NoPendingForward,
                    ) && final(self)@ == old(self)@,
                    Some(f) => {
                        &&& r matches Ok(c)
                        &&& c.response.msg@ == sent_message(
                            f.amount as nat,
                            f.denom@,
                            f.channel_id@,
                            f.to_address@,
                        )
                        &&& c.channel_id == f.channel_id
                        &&& c.to_address == f.to_address
                        &&& c.amount == f.amount
                        &&& c.denom == f.denom
                        &&& c.sequence == sequence
                        &&& final(self)@ == old(self)@.after_forward_dispatch(sequence)
                    },
                },
            },
            old(self)@.wf() ==> final(self)@.wf(),
    {
        let b = match result {
            SubMsgResult::Success(SubMsgResponse { data: Some(b) }) => b,
            _ => return Err(ContractError::InvalidReply),
        };
        let sequence = match decode_sequence(b) {
            Some(sequence) => sequence,
            None => return Err(ContractError::UndecodableTransferResponse),
        };
        let f = match self.forward_reply_state.take() {
            Some(f) => f,
            None => return Err(ContractError::NoPendingForward),
        };
        let ForwardMsgReplyState { channel_id, to_address, amount, denom, failed_delivery } = f;
        match failed_delivery {
            Some(rec) => {
                self.save_packet(
                    IBCTransfer {
                        recovery_addr: rec.recovery_addr,
                        channel_id: channel_id.clone(),
                        sequence,
                        amount,
                        denom: denom.clone(),
                        status: Status::Sent,
                    },
                );
            },
            None => {},
        }
        let msg = sent_message_string(amount, &denom, &channel_id, &to_address);
        Ok(
            ForwardConfirmation {
                response: CrosschainSwapResponse { msg },
                channel_id,
                to_address,
                amount,
                denom,
                sequence,
            },
        )
    }

    /// Pays `sender` every record owed to it and removes those records from
    /// the ledger; with nothing owed, pays nothing.
    pub fn recover(&mut self, sender: &String) -> (r: Vec<BankSend>)
        ensures
            r@.len() == old(self)@.recoverable(sender@).len(),
            forall|i: int|
                0 <= i < r@.len() ==> pays_back(#[trigger] r@[i], old(self)@.recoverable(sender@)[i]),
            final(self)@ == old(self)@.after_claim(sender@),
    {
        let claimed = self.claim_recoverable(sender);
        let mut r: Vec<BankSend> = Vec::new();
        let mut i: usize = 0;
        while i < claimed.len()
            invariant
                0 <= i <= claimed@.len(),
                r@.len() == i,
                forall|j: int| 0 <= j < i ==> pays_back(#[trigger] r@[j], claimed@[j]),
            decreases claimed@.len() - i,
        {
            let t = &claimed[i];
            r.push(
                BankSend {
                    to_address: t.recovery_addr.clone(),
                    amount: Coin { denom: t.denom.clone(), amount: t.amount },
                },
            );
            i += 1;
        }
        r
    }
}

} // verus!
