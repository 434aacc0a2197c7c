use vstd::prelude::*;

use crate::asset::AssetId;

verus! {

/// A trading pair: the asset bought or sold, and the asset it is priced in.
#[derive(Debug, Clone, Copy, PartialEq, Eq, Structural)]
pub struct Pair {
    pub base: AssetId,
    pub quote: AssetId,
}

/// The aggressor's side of a trade.
#[derive(Debug, Clone, Copy, PartialEq, Eq, Structural)]
pub enum Side {
    Buy,
    Sell,
}

} // verus!
