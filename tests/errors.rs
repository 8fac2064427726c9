use crosschain_swaps::contract::instantiate;
use crosschain_swaps::msg::{Coin, InstantiateMsg, SudoMsg};
use crosschain_swaps::reply::{reply_kind, swap_reply_data, ReplyKind, SubMsgResponse, SubMsgResult};
use crosschain_swaps::router::{Slipage, SwapResponse};
use crosschain_swaps::state::ContractState;
use crosschain_swaps::ContractError;

fn new_contract() -> ContractState {
    instantiate(InstantiateMsg { swap_contract: "osmo1venue".to_string(), track_ibc_sends: Some(true) })
}

fn start(st: &mut ContractState, block_time: u64) -> Result<(), ContractError> {
    st.swap_and_forward(
        block_time,
        "osmo1contract".to_string(),
        Coin { denom: "uosmo".to_string(), amount: 1000 },
        "uion".to_string(),
        Slipage::MinOutputAmount(1),
        "osmo1recv".to_string(),
        "channel-0".to_string(),
        None,
    )
    .map(|_| ())
}

fn response() -> SwapResponse {
    SwapResponse {
        original_sender: "osmo1contract".to_string(),
        token_out_denom: "uion".to_string(),
        amount: 950,
    }
}

fn success(data: Vec<u8>) -> SubMsgResult {
    SubMsgResult::Success(SubMsgResponse { data: Some(data) })
}

#[test]
fn instantiate_sets_the_config() {
    let st = new_contract();
    assert_eq!(st.config.swap_contract, "osmo1venue");
    assert!(st.config.track_ibc_callbacks);
    assert!(st.swap_reply_state.is_none() && st.forward_reply_state.is_none());
}

#[test]
fn second_saga_is_refused_while_one_is_pending() {
    let mut st = new_contract();
    start(&mut st, 1).unwrap();
    assert_eq!(start(&mut st, 2), Err(ContractError::SagaPending));
    assert_eq!(st.swap_reply_state.as_ref().unwrap().block_time, 1);
    st.handle_swap_reply(Ok(response())).unwrap();
    assert_eq!(start(&mut st, 3), Err(ContractError::SagaPending));
}

#[test]
fn swap_result_without_pending_swap_fails() {
    let mut st = new_contract();
    assert_eq!(st.handle_swap_reply(Ok(response())), Err(ContractError::NoPendingSwap));
}

#[test]
fn failed_swap_forwards_nothing() {
    let mut st = new_contract();
    start(&mut st, 1).unwrap();
    let data = swap_reply_data(&SubMsgResult::Failure("out of gas".to_string()));
    assert_eq!(data, Err(ContractError::FailedSwap));
    assert_eq!(st.handle_swap_reply(Err(ContractError::FailedSwap)), Err(ContractError::FailedSwap));
    assert!(st.swap_reply_state.is_none());
    assert!(st.forward_reply_state.is_none());
}

#[test]
fn swap_reply_without_payload_fails() {
    let data = swap_reply_data(&SubMsgResult::Success(SubMsgResponse { data: None }));
    assert_eq!(data, Err(ContractError::FailedSwap));
}

#[test]
fn swap_reply_payload_is_unwrapped() {
    // field 1, length 3, "abc"
    assert_eq!(swap_reply_data(&success(vec![0x0a, 3, b'a', b'b', b'c'])), Ok(b"abc".to_vec()));
}

#[test]
fn swap_reply_with_wrong_field_fails() {
    assert_eq!(swap_reply_data(&success(vec![0x12, 1, b'a'])), Err(ContractError::InvalidSwapReply));
}

#[test]
fn swap_reply_without_inner_data_fails() {
    assert_eq!(swap_reply_data(&success(vec![])), Err(ContractError::MissingSwapData));
}

#[test]
fn undecodable_swap_response_clears_the_pending_swap() {
    let mut st = new_contract();
    start(&mut st, 1).unwrap();
    assert_eq!(
        st.handle_swap_reply(Err(ContractError::InvalidSwapResponse)),
        Err(ContractError::InvalidSwapResponse)
    );
    assert!(st.swap_reply_state.is_none());
}

#[test]
fn deadline_past_the_timestamp_range_fails() {
    let mut st = new_contract();
    start(&mut st, u64::MAX - 1).unwrap();
    assert_eq!(st.handle_swap_reply(Ok(response())), Err(ContractError::DeadlineOverflow));
    assert!(st.forward_reply_state.is_none());
}

#[test]
fn largest_block_time_with_a_deadline() {
    let mut st = new_contract();
    let latest = u64::MAX - 86_400_000_000_000;
    start(&mut st, latest).unwrap();
    let m = st.handle_swap_reply(Ok(response())).unwrap();
    assert_eq!(m.timeout_timestamp, Some(u64::MAX));
}

#[test]
fn rejected_transfer_dispatch_fails() {
    let mut st = new_contract();
    start(&mut st, 1).unwrap();
    st.handle_swap_reply(Ok(response())).unwrap();
    let failure = SubMsgResult::Failure("channel closed".to_string());
    assert_eq!(st.handle_forward_reply(&failure), Err(ContractError::InvalidReply));
    let empty = SubMsgResult::Success(SubMsgResponse { data: None });
    assert_eq!(st.handle_forward_reply(&empty), Err(ContractError::InvalidReply));
    assert!(st.forward_reply_state.is_some());
}

#[test]
fn undecodable_transfer_response_fails() {
    let mut st = new_contract();
    start(&mut st, 1).unwrap();
    st.handle_swap_reply(Ok(response())).unwrap();
    // a key with no varint after it
    assert_eq!(st.handle_forward_reply(&success(vec![0x08])), Err(ContractError::UndecodableTransferResponse));
    assert!(st.forward_reply_state.is_some());
}

#[test]
fn transfer_response_without_pending_forward_fails() {
    let mut st = new_contract();
    assert_eq!(st.handle_forward_reply(&success(vec![0x08, 7])), Err(ContractError::NoPendingForward));
}

#[test]
fn reply_ids_select_the_dispatch() {
    assert_eq!(reply_kind(1), Ok(ReplyKind::Swap));
    assert_eq!(reply_kind(2), Ok(ReplyKind::Forward));
    assert_eq!(reply_kind(9), Err(ContractError::InvalidReplyId { id: 9 }));
}

#[test]
fn incoming_packets_are_not_handled() {
    let mut st = new_contract();
    assert_eq!(st.sudo(&SudoMsg::ReceivePacket {}), Err(ContractError::UnsupportedCallback));
}
