use vstd::prelude::*;

use crate::currency::Currency;
use crate::exchange::Exchange;

verus! {

pub enum SecurityType {
    Base,
    Equity,
    Option,
    Commodity,
    Future,
    Forex,
    Cfd,
    Index,
    Crypto,
    CryptoFuture,
}

/// A tradable instrument: its ticker, name, the currency it is quoted in and
/// the venue it trades on.
pub struct Security {
    symbol: String,
    name: String,
    quote: Currency,
    market: Exchange,
}

impl Security {
    pub closed spec fn spec_symbol(&self) -> Seq<char> {
        self.symbol@
    }

    pub closed spec fn spec_name(&self) -> Seq<char> {
        self.name@
    }

    pub closed spec fn spec_quote(&self) -> Currency {
        self.quote
    }

    pub closed spec fn spec_market(&self) -> Exchange {
        self.market
    }

    pub fn new(symbol: &str, name: &str, quote: Currency, market: Exchange) -> (r: Security)
        ensures
            r.spec_symbol() == symbol@,
            r.spec_name() == name@,
            r.spec_quote() == quote,
            r.spec_market() == market,
    {
        Security { symbol: symbol.to_owned(), name: name.to_owned(), quote, market }
    }

    pub fn symbol(&self) -> (r: &String)
        ensures
            r@ == self.spec_symbol(),
    {
        &self.symbol
    }

    pub fn name(&self) -> (r: &String)
        ensures
            r@ == self.spec_name(),
    {
        &self.name
    }

    pub fn quote(&self) -> (r: &Currency)
        ensures
            *r == self.spec_quote(),
    {
        &self.quote
    }

    pub fn market(&self) -> (r: &Exchange)
        ensures
            *r == self.spec_market(),
    {
        &self.market
    }
}

} // verus!
