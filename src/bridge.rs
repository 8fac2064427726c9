//! Calls into outside crates, each behind a contract that states what the
//! crate's source does.
use vstd::prelude::*;

verus! {

/// What `cw_utils::parse_execute_response_data` reads from protobuf bytes:
/// `None` where they are no `MsgExecuteContractResponse`, else its `data`
/// field (`None` where absent or empty).
pub uninterp spec fn execute_response_data(b: Seq<u8>) -> Option<Option<Seq<u8>>>;

/// What prost decodes from protobuf bytes as a message whose only field is a
/// `uint64` under tag 1, as `MsgTransferResponse` is; `None` where the bytes
/// are no such message.
pub uninterp spec fn decoded_sequence(b: Seq<u8>) -> Option<u64>;

/// Relies on `cw_utils::parse_execute_response_data`, which decodes the
/// response of a contract execution.
#[verifier::external_body]
pub(crate) fn parse_execute_response(b: &Vec<u8>) -> (r: Option<Option<Vec<u8>>>)
    ensures
        r is None <==> execute_response_data(b@) is None,
        r matches Some(None) ==> execute_response_data(b@) == Some(None::<Seq<u8>>),
        r matches Some(Some(d)) ==> execute_response_data(b@) == Some(Some(d@)),
{
    match cw_utils::parse_execute_response_data(b.as_slice()) {
        Ok(response) => Some(response.data.map(|d| d.0)),
        Err(_) => None,
    }
}

/// Relies on prost's `Message` impl for `u64` (`google.protobuf.UInt64Value`):
/// one `uint64` under tag 1, the wire form of `MsgTransferResponse`.
#[verifier::external_body]
pub(crate) fn decode_sequence(b: &Vec<u8>) -> (r: Option<u64>)
    ensures
        r == decoded_sequence(b@),
{
    <u64 as prost::Message>::decode(b.as_slice()).ok()
}

/// Relies on `cosmwasm_std::Timestamp::plus_seconds`: the time `seconds`
/// later, in nanoseconds; it panics where that exceeds `u64::MAX`.
#[verifier::external_body]
pub(crate) fn timestamp_plus_seconds(nanos: u64, seconds: u64) -> (r: u64)
    requires
        nanos + seconds * 1_000_000_000 <= u64::MAX,
    ensures
        r == nanos + seconds * 1_000_000_000,
{
    cosmwasm_std::Timestamp::from_nanos(nanos).plus_seconds(seconds).nanos()
}

} // verus!
