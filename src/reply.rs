//! Results of dispatched sub-messages, as the host hands them back.
use vstd::prelude::*;

use crate::bridge::{execute_response_data, parse_execute_response};
use crate::consts::{FORWARD_REPLY_ID, SWAP_REPLY_ID};
use crate::error::ContractError;

verus! {

/// What a successful sub-message returned.
#[derive(Debug, PartialEq, Eq)]
pub struct SubMsgResponse {
    pub data: Option<Vec<u8>>,
}

/// The outcome of a sub-message: its response, or the host's error text.
#[derive(Debug, PartialEq, Eq)]
pub enum SubMsgResult {
    Success(SubMsgResponse),
    Failure(String),
}

/// A sub-message result, with the id it was dispatched under.
#[derive(Debug, PartialEq, Eq)]
pub struct Reply {
    pub id: u64,
    pub result: SubMsgResult,
}

/// The dispatch a reply id belongs to.
#[derive(Clone, Copy, Debug, PartialEq, Eq, Structural)]
pub enum ReplyKind {
    Swap,
    Forward,
}

/// The payload of a sub-message that succeeded and returned data.
pub open spec fn reply_payload(result: SubMsgResult) -> Option<Seq<u8>> {
    match result {
        SubMsgResult::Success(SubMsgResponse { data: Some(b) }) => Some(b@),
        _ => None,
    }
}

/// Which dispatch a reply id belongs to.
pub fn reply_kind(id: u64) -> (r: Result<ReplyKind, ContractError>)
    ensures
        id == SWAP_REPLY_ID ==> r == Ok::<ReplyKind, ContractError>(ReplyKind::Swap),
        id == FORWARD_REPLY_ID ==> r == Ok::<ReplyKind, ContractError>(ReplyKind::Forward),
        id != SWAP_REPLY_ID && id != FORWARD_REPLY_ID ==> r == Err::<ReplyKind, ContractError>(
            ContractError::InvalidReplyId { id },
        ),
{
    if id == SWAP_REPLY_ID {
        Ok(ReplyKind::Swap)
    } else if id == FORWARD_REPLY_ID {
        Ok(ReplyKind::Forward)
    } else {
        Err(ContractError::InvalidReplyId { id })
    }
}

/// The venue's response bytes inside the result of the swap dispatch.
pub fn swap_reply_data(result: &SubMsgResult) -> (r: Result<Vec<u8>, ContractError>)
    ensures
        match reply_payload(*result) {
            None => r == Err::<Vec<u8>, ContractError>(ContractError::FailedSwap),
            Some(b) => match execute_response_data(b) {
                None => r == Err::<Vec<u8>, ContractError>(ContractError::InvalidSwapReply),
                Some(None) => r == Err::<Vec<u8>, ContractError>(ContractError::MissingSwapData),
                Some(Some(d)) => r matches Ok(v) && v@ == d,
            },
        },
{
    match result {
        SubMsgResult::Success(SubMsgResponse { data: Some(b) }) => match parse_execute_response(b) {
            None => Err(ContractError::InvalidSwapReply),
            Some(None) => Err(ContractError::MissingSwapData),
            Some(Some(d)) => Ok(d),
        },
        _ => Err(ContractError::FailedSwap),
    }
}

} // verus!
