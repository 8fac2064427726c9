//! Cross-chain swap orchestration: swap an asset on a trading venue, forward
//! the proceeds over an inter-chain transfer, and keep a recovery ledger for
//! funds whose forward failed or timed out.
//!
//! The contract's state is a value (`state::ContractState`) whose operations
//! are verified against an abstract model (`state::ContractView`); `laws`
//! proves what holds of whole sagas over that model.
pub mod bridge;
mod consts;
pub mod contract;
mod error;
pub mod execute;
pub mod ibc;
pub mod laws;
pub mod msg;
pub mod reply;
pub mod router;
pub mod state;
pub mod sudo;
pub mod text;

pub use consts::{FORWARD_REPLY_ID, PACKET_LIFETIME, SWAP_REPLY_ID};
pub use error::ContractError;
