//! The asset cache: the local read model that maps contract identifiers to
//! asset records. It is never the source of truth, holds each identifier at
//! most once, and keeps its records in the order in which they arrived.

use vstd::prelude::*;
use crate::asset::{Asset, AssetView};
use crate::error::ServiceErrorDomain;
use crate::types::ContractId;

verus! {

/// Whether some record of `entries` has the identifier `id`.
pub open spec fn holds(entries: Seq<AssetView>, id: Seq<u8>) -> bool {
    exists|i: int| 0 <= i < entries.len() && (#[trigger] entries[i]).id == id
}

/// Whether no two records of `entries` share an identifier.
pub open spec fn distinct_ids(entries: Seq<AssetView>) -> bool {
    forall|i: int, j: int|
        0 <= i < j < entries.len() ==> (#[trigger] entries[i]).id != (#[trigger] entries[j]).id
}

/// Whether adding `asset` to `entries` adds a record.
pub open spec fn is_new(entries: Seq<AssetView>, asset: AssetView) -> bool {
    !holds(entries, asset.id)
}

/// The records after `asset` was added to `entries`: a record whose
/// identifier is already held changes nothing.
pub open spec fn insert_entry(entries: Seq<AssetView>, asset: AssetView) -> Seq<AssetView> {
    if holds(entries, asset.id) {
        entries
    } else {
        entries.push(asset)
    }
}

/// The record of `entries` under `id`, where there is one.
pub open spec fn entry_of(entries: Seq<AssetView>, id: Seq<u8>) -> AssetView {
    entries[choose|i: int| 0 <= i < entries.len() && (#[trigger] entries[i]).id == id]
}

/// The views of a list of asset records.
pub open spec fn asset_views(assets: Seq<Asset>) -> Seq<AssetView> {
    assets.map_values(|asset: Asset| asset@)
}

/// The asset cache.
#[derive(Debug)]
pub struct Cache {
    assets: Vec<Asset>,
}

impl View for Cache {
    type V = Seq<AssetView>;

    /// The records of the cache, oldest first.
    closed spec fn view(&self) -> Seq<AssetView> {
        asset_views(self.assets@)
    }
}

impl Cache {
    #[verifier::type_invariant]
    spec fn no_identifier_twice(self) -> bool {
        distinct_ids(asset_views(self.assets@))
    }

    /// An empty cache.
    pub fn new() -> (cache: Cache)
        ensures
            cache@ == Seq::<AssetView>::empty(),
    {
        let cache = Cache { assets: Vec::new() };
        assert(cache@ =~= Seq::<AssetView>::empty());
        cache
    }

    /// The number of records.
    pub fn len(&self) -> (n: usize)
        ensures
            n == self@.len(),
    {
        self.assets.len()
    }

    /// Computes nothing: hands the caller's proof the invariant of the
    /// cache, that no two of its records share an identifier.
    pub fn known_distinct(&self)
        ensures
            distinct_ids(self@),
    {
        proof {
            use_type_invariant(self);
        }
    }

    /// The place of the record with the identifier `id`.
    fn position(&self, id: &ContractId) -> (place: Option<usize>)
        ensures
            distinct_ids(self@),
            match place {
                Some(i) => i < self@.len() && self@[i as int].id == id@,
                None => !holds(self@, id@),
            },
    {
        proof {
            use_type_invariant(self);
        }
        let mut i: usize = 0;
        while i < self.assets.len()
            invariant
                i <= self.assets.len(),
                distinct_ids(self@),
                forall|j: int| 0 <= j < i ==> (#[trigger] self@[j]).id != id@,
            decreases self.assets.len() - i,
        {
            if self.assets[i].id.same(id) {
                return Some(i);
            }
            i += 1;
        }
        None
    }

    /// Whether the cache holds a record under `id`.
    pub fn has_asset(&self, id: &ContractId) -> (found: bool)
        ensures
            found == holds(self@, id@),
    {
        self.position(id).is_some()
    }

    /// The record under `id`. Fails with a storage error exactly when the
    /// cache holds none.
    pub fn asset(&self, id: &ContractId) -> (out: Result<&Asset, ServiceErrorDomain>)
        ensures
            distinct_ids(self@),
            match out {
                Ok(asset) => holds(self@, id@) && asset@ == entry_of(self@, id@),
                Err(error) => error == ServiceErrorDomain::Storage && !holds(self@, id@),
            },
    {
        match self.position(id) {
            Some(i) => {
                assert(self@[i as int] == self.assets@[i as int]@);
                assert(self@[i as int] == entry_of(self@, id@));
                Ok(&self.assets[i])
            },
            None => Err(ServiceErrorDomain::Storage),
        }
    }

    /// Adds `asset` unless its identifier is already held, and says whether
    /// it was added.
    pub fn add_asset(&mut self, asset: Asset) -> (added: bool)
        ensures
            added == is_new(old(self)@, asset@),
            final(self)@ == insert_entry(old(self)@, asset@),
            distinct_ids(final(self)@),
    {
        proof {
            use_type_invariant(&*self);
        }
        if self.position(&asset.id).is_some() {
            return false;
        }
        let mut assets: Vec<Asset> = Vec::new();
        core::mem::swap(&mut self.assets, &mut assets);
        proof {
            let before = asset_views(assets@);
            let after = asset_views(assets@.push(asset));
            assert(after =~= before.push(asset@));
            assert(distinct_ids(after)) by {
                assert forall|i: int, j: int| 0 <= i < j < after.len() implies (
                #[trigger] after[i]).id != (#[trigger] after[j]).id by {
                    if j < before.len() {
                        assert(before[i].id != before[j].id);
                    } else {
                        assert(before[i].id != asset@.id);
                    }
                }
            }
        }
        assets.push(asset);
        core::mem::swap(&mut self.assets, &mut assets);
        true
    }

    /// The records of the cache, oldest first, for a client to read.
    pub fn export(&self) -> (out: Vec<Asset>)
        ensures
            asset_views(out@) == self@,
            distinct_ids(self@),
    {
        proof {
            use_type_invariant(self);
        }
        let mut out: Vec<Asset> = Vec::new();
        let mut i: usize = 0;
        while i < self.assets.len()
            invariant
                i <= self.assets.len(),
                out@.len() == i,
                asset_views(out@) == self@.take(i as int),
            decreases self.assets.len() - i,
        {
            let ghost before = out@;
            let copy = self.assets[i].duplicate();
            out.push(copy);
            proof {
                let target = self@.take(i + 1);
                assert forall|k: int| 0 <= k < target.len() implies asset_views(out@)[k]
                    == target[k] by {
                    if k < i {
                        assert(asset_views(before)[k] == self@.take(i as int)[k]);
                        assert(out@[k] == before[k]);
                    } else {
                        assert(out@[k] == copy);
                    }
                }
                assert(asset_views(out@) =~= target);
            }
            i += 1;
        }
        assert(self@.take(i as int) =~= self@);
        out
    }
}

/// Adding a record under an identifier a second time changes nothing, and
/// the second call reports that nothing was added.
pub proof fn lemma_add_asset_idempotent(entries: Seq<AssetView>, first: AssetView, again: AssetView)
    requires
        again.id == first.id,
    ensures
        insert_entry(insert_entry(entries, first), again) == insert_entry(entries, first),
        !is_new(insert_entry(entries, first), again),
{
    let once = insert_entry(entries, first);
    if holds(entries, first.id) {
    } else {
        assert(once[entries.len() as int].id == first.id);
    }
    assert(holds(once, again.id));
}

/// A record that was added is held, and every record held before still is.
pub proof fn lemma_insert_entry_holds(entries: Seq<AssetView>, asset: AssetView, id: Seq<u8>)
    ensures
        holds(insert_entry(entries, asset), id) <==> (holds(entries, id) || id == asset.id),
{
    let after = insert_entry(entries, asset);
    if holds(entries, id) {
        let i = choose|i: int| 0 <= i < entries.len() && (#[trigger] entries[i]).id == id;
        assert(after[i].id == id);
    }
    if id == asset.id && !holds(entries, asset.id) {
        assert(after[entries.len() as int].id == id);
    }
    if holds(after, id) {
        let i = choose|i: int| 0 <= i < after.len() && (#[trigger] after[i]).id == id;
        if i < entries.len() {
            assert(entries[i].id == id);
        }
    }
}

} // verus!
