use vstd::prelude::*;

verus! {

/// A currency: its code, full name and sign.
#[derive(Debug, Clone)]
pub struct Currency {
    code: String,
    name: String,
    symbol: String,
}

impl Currency {
    pub closed spec fn spec_code(&self) -> Seq<char> {
        self.code@
    }

    pub closed spec fn spec_name(&self) -> Seq<char> {
        self.name@
    }

    pub closed spec fn spec_symbol(&self) -> Seq<char> {
        self.symbol@
    }

    pub fn new(code: &str, name: &str, symbol: &str) -> (r: Currency)
        ensures
            r.spec_code() == code@,
            r.spec_name() == name@,
            r.spec_symbol() == symbol@,
    {
        Currency { code: code.to_owned(), name: name.to_owned(), symbol: symbol.to_owned() }
    }

    pub fn get_code(&self) -> (r: String)
        ensures
            r@ == self.spec_code(),
    {
        self.code.clone()
    }

    pub fn get_name(&self) -> (r: String)
        ensures
            r@ == self.spec_name(),
    {
        self.name.clone()
    }

    pub fn get_symbol(&self) -> (r: String)
        ensures
            r@ == self.spec_symbol(),
    {
        self.symbol.clone()
    }

    /// The United States dollar.
    #[allow(non_snake_case)]
    pub fn USD() -> (r: Currency)
        ensures
            r.spec_code() == "USD"@,
            r.spec_name() == "United States Dollar"@,
            r.spec_symbol() == "$"@,
    {
        Currency::new("USD", "United States Dollar", "$")
    }

    /// The South Korean won.
    #[allow(non_snake_case)]
    pub fn KRW() -> (r: Currency)
        ensures
            r.spec_code() == "KRW"@,
            r.spec_name() == "South Korean Won"@,
            r.spec_symbol() == "\u{20a9}"@,
    {
        Currency::new("KRW", "South Korean Won", "\u{20a9}")
    }
}

impl PartialEq for Currency {
    fn eq(&self, other: &Currency) -> (r: bool) {
        self.code == other.code && self.name == other.name && self.symbol == other.symbol
    }
}

impl vstd::std_specs::cmp::PartialEqSpecImpl for Currency {
    open spec fn obeys_eq_spec() -> bool {
        true
    }

    open spec fn eq_spec(&self, other: &Currency) -> bool {
        &&& self.spec_code() == other.spec_code()
        &&& self.spec_name() == other.spec_name()
        &&& self.spec_symbol() == other.spec_symbol()
    }
}

impl Eq for Currency {
}

} // verus!
