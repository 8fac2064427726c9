//! The messages exchanged with the trading venue.
use vstd::prelude::*;

use crate::msg::Coin;

verus! {

/// A decimal with 18 fractional digits, held as its integer atomics
/// (`1.5` is `1_500_000_000_000_000_000`).
#[derive(Clone, Copy, Debug, PartialEq, Eq, Structural)]
pub struct Decimal {
    pub atomics: u128,
}

/// How far the venue may let the realised output fall short of the quote.
#[derive(Clone, Copy, Debug, PartialEq, Eq, Structural)]
pub enum Slipage {
    MaxPriceImpactPercentage(Decimal),
    MinOutputAmount(u128),
}

/// The instruction sent to the venue.
#[derive(Debug, PartialEq, Eq)]
pub enum ExecuteMsg {
    Swap { input_coin: Coin, output_denom: String, slipage: Slipage },
}

/// What the venue reports after a successful swap.
#[derive(Debug, PartialEq, Eq)]
pub struct SwapResponse {
    pub original_sender: String,
    pub token_out_denom: String,
    pub amount: u128,
}

} // verus!
