//! The contract's entry points: one arm per operation.
use vstd::prelude::*;

use crate::error::ContractError;
use crate::execute::{pays_back, swap_request_state, BankSend, WasmExecuteMsg};
use crate::msg::{ExecuteMsg, InstantiateMsg, QueryMsg, SudoMsg};
use crate::router::ExecuteMsg as SwapRouterExecute;
use crate::state::{Config, ContractState, ContractView, IBCTransfer};
use crate::sudo::{ack_outcome, PacketOutcome, PacketResolution};

verus! {

/// What an executed operation hands back to the host.
#[derive(Debug, PartialEq, Eq)]
pub enum ExecuteResponse {
    /// The swap to dispatch, resuming the saga on success.
    Swap(WasmExecuteMsg),
    /// The payments of a recovery claim.
    Recover(Vec<BankSend>),
}

/// The configuration a contract is instantiated with.
pub open spec fn config_of(msg: InstantiateMsg) -> Config {
    Config {
        swap_contract: msg.swap_contract,
        track_ibc_callbacks: match msg.track_ibc_sends {
            Some(b) => b,
            None => false,
        },
    }
}

/// A new contract with nothing pending, tracked or owed.
pub fn instantiate(msg: InstantiateMsg) -> (r: ContractState)
    ensures
        r@ == ContractView::initial(config_of(msg)),
{
    let track_ibc_callbacks = match msg.track_ibc_sends {
        Some(b) => b,
        None => false,
    };
    ContractState::new(Config { swap_contract: msg.swap_contract, track_ibc_callbacks })
}

impl ContractState {
    /// Runs an operation invoked by `sender` at `block_time` on the contract
    /// at `contract_addr`.
    pub fn execute(&mut self, block_time: u64, contract_addr: String, sender: String, msg: ExecuteMsg) -> (r:
        Result<ExecuteResponse, ContractError>)
        ensures
            match msg {
                ExecuteMsg::OsmosisSwap {
                    input_coin,
                    output_denom,
                    slipage,
                    receiver,
                    channel,
                    failed_delivery,
                } => if old(self)@.saga_pending() {
                    r == Err::<ExecuteResponse, ContractError>(ContractError::SagaPending)
                        && final(self)@ == old(self)@
                } else {
                    &&& r matches Ok(ExecuteResponse::Swap(w))
                    &&& w.contract_addr == old(self)@.config.swap_contract
                    &&& w.msg == (SwapRouterExecute::Swap { input_coin, output_denom, slipage })
                    &&& w.funds@ == seq![input_coin]
                    &&& final(self)@ == old(self)@.after_swap_dispatch(
                        swap_request_state(
                            block_time,
                            contract_addr,
                            input_coin,
                            output_denom,
                            slipage,
                            receiver,
                            channel,
                            failed_delivery,
                        ),
                    )
                },
                ExecuteMsg::Recover {  } => {
                    &&& r matches Ok(ExecuteResponse::Recover(payments))
                    &&& payments@.len() == old(self)@.recoverable(sender@).len()
                    &&& forall|i: int|
                        0 <= i < payments@.len() ==> pays_back(
                            #[trigger] payments@[i],
                            old(self)@.recoverable(sender@)[i],
                        )
                    &&& final(self)@ == old(self)@.after_claim(sender@)
                },
            },
    {
        match msg {
            ExecuteMsg::OsmosisSwap {
                input_coin,
                output_denom,
                slipage,
                receiver,
                channel,
                failed_delivery,
            } => match self.swap_and_forward(
                block_time,
                contract_addr,
                input_coin,
                output_denom,
                slipage,
                receiver,
                channel,
                failed_delivery,
            ) {
                Ok(w) => Ok(ExecuteResponse::Swap(w)),
                Err(e) => Err(e),
            },
            ExecuteMsg::Recover {  } => Ok(ExecuteResponse::Recover(self.recover(&sender))),
        }
    }

    /// Answers a query: the records owed to an address, possibly none.
    pub fn query(&self, msg: &QueryMsg) -> (r: Vec<IBCTransfer>)
        ensures
            match msg {
                QueryMsg::Recoverable { addr } => r@ == self@.recoverable(addr@),
            },
    {
        match msg {
            QueryMsg::Recoverable { addr } => self.recoverable(addr),
        }
    }

    /// Handles a transport callback: acknowledgements and timeouts resolve
    /// their packet and never fail; an incoming packet is not handled.
    pub fn sudo(&mut self, msg: &SudoMsg) -> (r: Result<PacketResolution, ContractError>)
        ensures
            match msg {
                SudoMsg::ReceivePacket {  } => r == Err::<PacketResolution, ContractError>(
                    ContractError::UnsupportedCallback,
                ) && final(self)@ == old(self)@,
                SudoMsg::ReceiveAck { channel, sequence, ack, success } => {
                    &&& r == Ok::<PacketResolution, ContractError>(
                        old(self)@.resolution(channel@, *sequence, ack_outcome(*success)),
                    )
                    &&& final(self)@ == old(self)@.after_outcome(
                        channel@,
                        *sequence,
                        ack_outcome(*success),
                    )
                },
                SudoMsg::ReceiveTimeout { channel, sequence } => {
                    &&& r == Ok::<PacketResolution, ContractError>(
                        old(self)@.resolution(channel@, *sequence, PacketOutcome::TimedOut),
                    )
                    &&& final(self)@ == old(self)@.after_outcome(
                        channel@,
                        *sequence,
                        PacketOutcome::TimedOut,
                    )
                },
            },
            old(self)@.wf() ==> final(self)@.wf(),
    {
        match msg {
            SudoMsg::ReceivePacket {  } => Err(ContractError::UnsupportedCallback),
            SudoMsg::ReceiveAck { channel, sequence, ack: _, success } => Ok(
                self.receive_ack(channel, *sequence, *success),
            ),
            SudoMsg::ReceiveTimeout { channel, sequence } => Ok(
                self.receive_outcome(channel, *sequence, PacketOutcome::TimedOut),
            ),
        }
    }
}

} // verus!
