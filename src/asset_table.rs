use vstd::prelude::*;

use crate::asset::{Asset, AssetClass, AssetId};

verus! {

/// Whether an asset is the one registered under the given name and class.
pub open spec fn registered_as(a: Asset, name: Seq<char>, class: AssetClass) -> bool {
    a.spec_name() == name && a.spec_class() == class
}

/// A catalogue of assets. Each asset's identifier is its position, and a
/// name and class are registered at most once.
pub struct AssetTable {
    assets: Vec<Asset>,
}

impl AssetTable {
    pub closed spec fn view(&self) -> Seq<Asset> {
        self.assets@
    }

    pub open spec fn wf(&self) -> bool {
        &&& self@.len() <= u64::MAX
        &&& forall|i: int| 0 <= i < self@.len() ==> (#[trigger] self@[i]).spec_id() == i
        &&& forall|i: int, j: int|
            0 <= i < j < self@.len() ==> !registered_as(
                #[trigger] self@[i],
                self@[j].spec_name(),
                #[trigger] self@[j].spec_class(),
            )
    }

    pub fn new() -> (r: AssetTable)
        ensures
            r.wf(),
            r@.len() == 0,
    {
        AssetTable { assets: Vec::new() }
    }

    /// Registers an asset and returns its identifier. A name and class that
    /// are already registered give the identifier they have, and the table is
    /// left as it was.
    pub fn add(&mut self, name: String, symbol: String, class: AssetClass) -> (r: AssetId)
        requires
            old(self).wf(),
            old(self)@.len() < u64::MAX,
        ensures
            final(self).wf(),
            r <= old(self)@.len(),
            r < final(self)@.len(),
            registered_as(final(self)@[r as int], name@, class),
            final(self)@.take(old(self)@.len() as int) == old(self)@,
            r < old(self)@.len() ==> final(self)@ == old(self)@,
            r == old(self)@.len() ==> {
                &&& final(self)@.len() == old(self)@.len() + 1
                &&& final(self)@[r as int].spec_id() == r
                &&& final(self)@[r as int].spec_symbol() == symbol@
            },
    {
        let n = self.assets.len();
        let mut i: usize = 0;
        while i < n
            invariant
                n == self.assets@.len(),
                self.wf(),
                self@ == old(self)@,
                i <= n,
                forall|k: int| 0 <= k < i ==> !registered_as(#[trigger] self@[k], name@, class),
            decreases n - i,
        {
            let a = &self.assets[i];
            assert(*a == self@[i as int]);
            if a.class() == class && a.name_string().eq(&name) {
                assert(self@.take(n as int) =~= self@);
                return a.id();
            }
            i = i + 1;
        }
        let id = n as u64;
        self.assets.push(Asset::new(id, name, symbol, class));
        assert(self@.take(n as int) =~= old(self)@);
        id
    }

    /// The asset with the given identifier, if there is one.
    pub fn get(&self, id: AssetId) -> (r: Option<&Asset>)
        requires
            self.wf(),
        ensures
            id < self@.len() ==> r == Some(&self@[id as int]),
            id >= self@.len() ==> r is None,
    {
        if id < self.assets.len() as u64 {
            Some(&self.assets[id as usize])
        } else {
            None
        }
    }
}

} // verus!
