use vstd::prelude::*;

verus! {

/// Failure of a venue adapter.
#[derive(Debug, Clone, Copy, PartialEq, Eq, Structural)]
pub enum Error {
    Unknown,
}

/// What a venue's market-data stream yields.
#[derive(Debug, Clone, Copy, PartialEq, Eq, Structural)]
pub enum Event {
    Trade,
    OrderBookUpdate,
}

/// Adapter for the Binance venue.
pub struct Binance {}

} // verus!
