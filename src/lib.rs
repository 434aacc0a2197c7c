use vstd::prelude::*;

pub mod asset;
pub mod asset_table;
pub mod country;
pub mod currency;
pub mod exchange;
pub mod frame;
pub mod market;
pub mod pump;
pub mod security;
pub mod venue;

verus! {

} // verus!
