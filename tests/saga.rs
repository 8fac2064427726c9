use crosschain_swaps::contract::{instantiate, ExecuteResponse};
use crosschain_swaps::execute::BankSend;
use crosschain_swaps::msg::{Coin, ExecuteMsg, InstantiateMsg, QueryMsg, Recovery, SudoMsg};
use crosschain_swaps::reply::{SubMsgResponse, SubMsgResult};
use crosschain_swaps::router::{Decimal, ExecuteMsg as SwapRouterExecute, Slipage, SwapResponse};
use crosschain_swaps::state::{ContractState, IBCTransfer, Status};
use crosschain_swaps::sudo::PacketResolution;
use crosschain_swaps::ContractError;

const BLOCK_TIME: u64 = 1_700_000_000_000_000_000;

fn new_contract() -> ContractState {
    instantiate(InstantiateMsg { swap_contract: "osmo1venue".to_string(), track_ibc_sends: None })
}

fn swap_request(recovery: Option<&str>) -> ExecuteMsg {
    ExecuteMsg::OsmosisSwap {
        input_coin: Coin { denom: "uosmo".to_string(), amount: 1000 },
        output_denom: "uion".to_string(),
        slipage: Slipage::MinOutputAmount(900),
        receiver: "osmo1recv".to_string(),
        channel: "channel-0".to_string(),
        failed_delivery: recovery.map(|a| Recovery { recovery_addr: a.to_string() }),
    }
}

fn venue_response(amount: u128) -> SwapResponse {
    SwapResponse {
        original_sender: "osmo1contract".to_string(),
        token_out_denom: "uion".to_string(),
        amount,
    }
}

fn transfer_reply(sequence_bytes: &[u8]) -> SubMsgResult {
    let mut data = vec![0x08];
    data.extend_from_slice(sequence_bytes);
    SubMsgResult::Success(SubMsgResponse { data: Some(data) })
}

/// Runs a saga up to the registered packet: 1000 uosmo swapped to 950 uion
/// and forwarded over channel-0 under sequence 7.
fn forwarded(recovery: Option<&str>) -> ContractState {
    let mut st = new_contract();
    st.execute(BLOCK_TIME, "osmo1contract".to_string(), "osmo1sender".to_string(), swap_request(recovery))
        .unwrap();
    st.handle_swap_reply(Ok(venue_response(950))).unwrap();
    st.handle_forward_reply(&transfer_reply(&[7])).unwrap();
    st
}

fn recoverable(st: &ContractState, addr: &str) -> Vec<IBCTransfer> {
    st.query(&QueryMsg::Recoverable { addr: addr.to_string() })
}

fn ack(st: &mut ContractState, sequence: u64, success: bool) -> PacketResolution {
    st.sudo(&SudoMsg::ReceiveAck {
        channel: "channel-0".to_string(),
        sequence,
        ack: String::new(),
        success,
    })
    .unwrap()
}

#[test]
fn scenario_a_failed_forward_is_recoverable() {
    let mut st = forwarded(Some("osmo1rescue"));
    ack(&mut st, 7, false);
    assert_eq!(
        recoverable(&st, "osmo1rescue"),
        vec![IBCTransfer {
            recovery_addr: "osmo1rescue".to_string(),
            channel_id: "channel-0".to_string(),
            sequence: 7,
            amount: 950,
            denom: "uion".to_string(),
            status: Status::AckFailure,
        }]
    );
    assert!(st.inflight_packets.is_empty());
}

#[test]
fn scenario_b_delivered_forward_leaves_nothing() {
    let mut st = forwarded(Some("osmo1rescue"));
    assert_eq!(st.inflight_packets.len(), 1);
    let res = ack(&mut st, 7, true);
    assert!(matches!(res, PacketResolution::Delivered(ref t) if t.status == Status::AckSuccess));
    assert_eq!(recoverable(&st, "osmo1rescue"), vec![]);
    assert!(st.inflight_packets.is_empty());
}

#[test]
fn scenario_c_recover_pays_every_record_once() {
    let mut st = new_contract();
    for (sequence, amount, denom) in [(1u64, 100u128, "uion"), (2, 50, "uatom")] {
        st.recovery_states.push(IBCTransfer {
            recovery_addr: "osmo1caller".to_string(),
            channel_id: "channel-0".to_string(),
            sequence,
            amount,
            denom: denom.to_string(),
            status: Status::AckFailure,
        });
    }
    let r = st
        .execute(BLOCK_TIME, "osmo1contract".to_string(), "osmo1caller".to_string(), ExecuteMsg::Recover {})
        .unwrap();
    let ExecuteResponse::Recover(payments) = r else { panic!("expected payments") };
    assert_eq!(
        payments,
        vec![
            BankSend {
                to_address: "osmo1caller".to_string(),
                amount: Coin { denom: "uion".to_string(), amount: 100 },
            },
            BankSend {
                to_address: "osmo1caller".to_string(),
                amount: Coin { denom: "uatom".to_string(), amount: 50 },
            },
        ]
    );
    assert_eq!(recoverable(&st, "osmo1caller"), vec![]);
    let again = st
        .execute(BLOCK_TIME, "osmo1contract".to_string(), "osmo1caller".to_string(), ExecuteMsg::Recover {})
        .unwrap();
    assert_eq!(again, ExecuteResponse::Recover(vec![]));
}

#[test]
fn swap_dispatch_goes_to_the_venue_with_the_input_funds() {
    let mut st = new_contract();
    let r = st
        .execute(BLOCK_TIME, "osmo1contract".to_string(), "osmo1sender".to_string(), swap_request(None))
        .unwrap();
    let ExecuteResponse::Swap(w) = r else { panic!("expected a swap") };
    assert_eq!(w.contract_addr, "osmo1venue");
    assert_eq!(w.funds, vec![Coin { denom: "uosmo".to_string(), amount: 1000 }]);
    assert_eq!(
        w.msg,
        SwapRouterExecute::Swap {
            input_coin: Coin { denom: "uosmo".to_string(), amount: 1000 },
            output_denom: "uion".to_string(),
            slipage: Slipage::MinOutputAmount(900),
        }
    );
    let pending = st.swap_reply_state.as_ref().unwrap();
    assert_eq!(pending.block_time, BLOCK_TIME);
    assert_eq!(pending.forward_to.channel, "channel-0");
    assert_eq!(pending.forward_to.receiver, "osmo1recv");
}

#[test]
fn swap_result_builds_the_forward_transfer() {
    let mut st = new_contract();
    st.swap_and_forward(
        BLOCK_TIME,
        "osmo1contract".to_string(),
        Coin { denom: "uosmo".to_string(), amount: 1000 },
        "uion".to_string(),
        Slipage::MaxPriceImpactPercentage(Decimal { atomics: 1_500_000_000_000_000_000 }),
        "osmo1recv".to_string(),
        "channel-0".to_string(),
        None,
    )
    .unwrap();
    let m = st.handle_swap_reply(Ok(venue_response(950))).unwrap();
    assert_eq!(m.source_port, "transfer");
    assert_eq!(m.source_channel, "channel-0");
    assert_eq!(m.token, Some(Coin { denom: "uion".to_string(), amount: 950 }));
    assert_eq!(m.sender, "osmo1contract");
    assert_eq!(m.receiver, "osmo1recv");
    assert_eq!(m.timeout_height, None);
    assert_eq!(m.timeout_timestamp, Some(BLOCK_TIME + 86_400_000_000_000));
    assert_eq!(m.memo, r#"{"callback": "osmo1contract"}"#);
    assert!(st.swap_reply_state.is_none());
    let f = st.forward_reply_state.as_ref().unwrap();
    assert_eq!((f.amount, f.denom.as_str(), f.channel_id.as_str()), (950, "uion", "channel-0"));
}

#[test]
fn forward_confirmation_reports_the_transfer() {
    let mut st = new_contract();
    st.execute(BLOCK_TIME, "osmo1contract".to_string(), "osmo1sender".to_string(), swap_request(None))
        .unwrap();
    st.handle_swap_reply(Ok(venue_response(950))).unwrap();
    // 300 as a two-byte varint
    let c = st.handle_forward_reply(&transfer_reply(&[0xac, 0x02])).unwrap();
    assert_eq!(c.response.msg, "Sent 950uion to channel-0/osmo1recv");
    assert_eq!(c.sequence, 300);
    assert_eq!((c.amount, c.denom.as_str()), (950, "uion"));
    assert!(st.forward_reply_state.is_none());
    // without a recovery address nothing is tracked
    assert!(st.inflight_packets.is_empty());
}

#[test]
fn forward_with_recovery_registers_the_packet() {
    let st = forwarded(Some("osmo1rescue"));
    assert_eq!(
        st.inflight_packets,
        vec![IBCTransfer {
            recovery_addr: "osmo1rescue".to_string(),
            channel_id: "channel-0".to_string(),
            sequence: 7,
            amount: 950,
            denom: "uion".to_string(),
            status: Status::Sent,
        }]
    );
}

#[test]
fn timeout_is_recorded_as_timed_out() {
    let mut st = forwarded(Some("osmo1rescue"));
    let res = st
        .sudo(&SudoMsg::ReceiveTimeout { channel: "channel-0".to_string(), sequence: 7 })
        .unwrap();
    assert!(matches!(res, PacketResolution::Recorded(ref t) if t.status == Status::TimedOut));
    let owed = recoverable(&st, "osmo1rescue");
    assert_eq!(owed.len(), 1);
    assert_eq!(owed[0].status, Status::TimedOut);
    assert_eq!((owed[0].amount, owed[0].denom.as_str()), (950, "uion"));
}

#[test]
fn failed_forward_without_recovery_records_nothing() {
    let mut st = forwarded(None);
    assert_eq!(ack(&mut st, 7, false), PacketResolution::Untracked);
    assert!(st.recovery_states.is_empty());
}

#[test]
fn duplicate_outcome_changes_nothing() {
    let mut st = forwarded(Some("osmo1rescue"));
    ack(&mut st, 7, false);
    let before = recoverable(&st, "osmo1rescue");
    assert_eq!(ack(&mut st, 7, false), PacketResolution::Untracked);
    assert_eq!(ack(&mut st, 7, true), PacketResolution::Untracked);
    assert_eq!(recoverable(&st, "osmo1rescue"), before);
}

#[test]
fn unknown_packet_outcome_is_not_an_error() {
    let mut st = forwarded(Some("osmo1rescue"));
    assert_eq!(ack(&mut st, 8, false), PacketResolution::Untracked);
    let timeout = st.sudo(&SudoMsg::ReceiveTimeout { channel: "channel-1".to_string(), sequence: 7 });
    assert_eq!(timeout, Ok(PacketResolution::Untracked));
    assert_eq!(st.inflight_packets.len(), 1);
    assert!(st.recovery_states.is_empty());
}

#[test]
fn recover_with_nothing_owed_pays_nothing() {
    let mut st = new_contract();
    assert_eq!(st.recover(&"osmo1nobody".to_string()), vec![]);
    assert_eq!(recoverable(&st, "osmo1nobody"), vec![]);
}

#[test]
fn recover_leaves_other_addresses_owed() {
    let mut st = new_contract();
    for addr in ["osmo1a", "osmo1b", "osmo1a"] {
        st.append_recovery(IBCTransfer {
            recovery_addr: addr.to_string(),
            channel_id: "channel-0".to_string(),
            sequence: 1,
            amount: 10,
            denom: "uion".to_string(),
            status: Status::AckFailure,
        });
    }
    assert_eq!(st.recover(&"osmo1a".to_string()).len(), 2);
    assert_eq!(recoverable(&st, "osmo1a"), vec![]);
    assert_eq!(recoverable(&st, "osmo1b").len(), 1);
}

#[test]
fn instantiate_without_tracking_flag_does_not_track() {
    let st = new_contract();
    assert_eq!(st.config.swap_contract, "osmo1venue");
    assert!(!st.config.track_ibc_callbacks);
    assert!(st.inflight_packets.is_empty() && st.recovery_states.is_empty());
}
