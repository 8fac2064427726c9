use vstd::prelude::*;

verus! {

/// Every way an operation of the contract can fail.
#[derive(Debug, PartialEq, Eq, Structural)]
pub enum ContractError {
    /// A saga is already waiting for its swap or forward result.
    SagaPending,
    /// A swap result arrived while no swap was pending.
    NoPendingSwap,
    /// A forward-dispatch result arrived while no forward was pending.
    NoPendingForward,
    /// The venue rejected the swap or returned no payload.
    FailedSwap,
    /// The swap reply payload is not a valid execute response.
    InvalidSwapReply,
    /// The swap reply payload carries no inner data.
    MissingSwapData,
    /// The venue's swap response could not be decoded.
    InvalidSwapResponse,
    /// The transfer dispatch was rejected or returned no payload.
    InvalidReply,
    /// The transfer dispatch payload is not a transfer response.
    UndecodableTransferResponse,
    /// A reply arrived under an id that this contract never used.
    InvalidReplyId { id: u64 },
    /// The packet deadline does not fit a timestamp.
    DeadlineOverflow,
    /// The host delivered a callback that this contract does not handle.
    UnsupportedCallback,
}

} // verus!
