use vstd::prelude::*;

verus! {

/// Identifier of an asset, valid for the lifetime of the table that gave it.
pub type AssetId = u64;

#[derive(Debug, Clone, Copy, PartialEq, Eq, Structural)]
pub enum AssetClass {
    Equity,
    Currency,
    Cryptocurrency,
}

/// The human-readable name of an asset class.
pub open spec fn class_label(c: AssetClass) -> Seq<char> {
    match c {
        AssetClass::Equity => "Equity"@,
        AssetClass::Currency => "Currencies"@,
        AssetClass::Cryptocurrency => "Cryptocurrencies"@,
    }
}

impl AssetClass {
    pub fn label(&self) -> (r: &'static str)
        ensures
            r@ == class_label(*self),
    {
        match self {
            AssetClass::Equity => "Equity",
            AssetClass::Currency => "Currencies",
            AssetClass::Cryptocurrency => "Cryptocurrencies",
        }
    }
}

#[derive(Debug, Clone)]
pub struct Asset {
    id: AssetId,
    name: String,
    symbol: String,
    class: AssetClass,
}

impl Asset {
    pub closed spec fn spec_id(&self) -> AssetId {
        self.id
    }

    pub closed spec fn spec_name(&self) -> Seq<char> {
        self.name@
    }

    pub closed spec fn spec_symbol(&self) -> Seq<char> {
        self.symbol@
    }

    pub closed spec fn spec_class(&self) -> AssetClass {
        self.class
    }

    pub fn new(id: AssetId, name: String, symbol: String, class: AssetClass) -> (r: Asset)
        ensures
            r.spec_id() == id,
            r.spec_name() == name@,
            r.spec_symbol() == symbol@,
            r.spec_class() == class,
    {
        Asset { id, name, symbol, class }
    }

    pub fn id(&self) -> (r: AssetId)
        ensures
            r == self.spec_id(),
    {
        self.id
    }

    pub fn name(&self) -> (r: &str)
        ensures
            r@ == self.spec_name(),
    {
        self.name.as_str()
    }

    pub fn name_string(&self) -> (r: &String)
        ensures
            r@ == self.spec_name(),
    {
        &self.name
    }

    pub fn symbol(&self) -> (r: &str)
        ensures
            r@ == self.spec_symbol(),
    {
        self.symbol.as_str()
    }

    pub fn class(&self) -> (r: AssetClass)
        ensures
            r == self.spec_class(),
    {
        self.class
    }
}

/// Two assets are the same asset when their identifiers agree.
impl PartialEq for Asset {
    fn eq(&self, other: &Asset) -> (r: bool) {
        self.id == other.id
    }
}

impl vstd::std_specs::cmp::PartialEqSpecImpl for Asset {
    open spec fn obeys_eq_spec() -> bool {
        true
    }

    open spec fn eq_spec(&self, other: &Asset) -> bool {
        self.spec_id() == other.spec_id()
    }
}

} // verus!
