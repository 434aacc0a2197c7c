use vstd::prelude::*;

verus! {

/// Whether two strings hold the same characters.
pub fn same_text(a: &str, b: &str) -> (r: bool)
    ensures
        r == (a@ == b@),
{
    let n = a.unicode_len();
    if n != b.unicode_len() {
        return false;
    }
    let mut i: usize = 0;
    while i < n
        invariant
            n == a@.len(),
            n == b@.len(),
            i <= n,
            forall|k: int| 0 <= k < i ==> a@[k] == b@[k],
        decreases n - i,
    {
        if a.get_char(i) != b.get_char(i) {
            return false;
        }
        i = i + 1;
    }
    assert(a@ =~= b@);
    true
}

/// A country, by its two-letter code.
#[derive(Debug, Clone, Copy)]
pub struct Country(pub &'static str);

#[allow(non_snake_case)]
pub fn KR() -> (r: Country)
    ensures
        r@ == "KR"@,
{
    Country("KR")
}

#[allow(non_snake_case)]
pub fn US() -> (r: Country)
    ensures
        r@ == "US"@,
{
    Country("US")
}

#[allow(non_snake_case)]
pub fn JP() -> (r: Country)
    ensures
        r@ == "JP"@,
{
    Country("JP")
}

#[allow(non_snake_case)]
pub fn XX() -> (r: Country)
    ensures
        r@ == "XX"@,
{
    Country("XX")
}

impl Country {
    pub open spec fn view(&self) -> Seq<char> {
        self.0@
    }

    /// The country's code as text.
    pub fn code(&self) -> (r: &'static str)
        ensures
            r@ == self@,
    {
        self.0
    }
}

impl From<&'static str> for Country {
    fn from(code: &'static str) -> (r: Country) {
        Country(code)
    }
}

impl vstd::std_specs::convert::FromSpecImpl<&'static str> for Country {
    open spec fn obeys_from_spec() -> bool {
        true
    }

    open spec fn from_spec(code: &'static str) -> Country {
        Country(code)
    }
}

impl PartialEq for Country {
    fn eq(&self, other: &Country) -> (r: bool) {
        same_text(self.0, other.0)
    }
}

impl vstd::std_specs::cmp::PartialEqSpecImpl for Country {
    open spec fn obeys_eq_spec() -> bool {
        true
    }

    open spec fn eq_spec(&self, other: &Country) -> bool {
        self@ == other@
    }
}

impl Eq for Country {
}

} // verus!
