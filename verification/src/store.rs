//! The local store model: entities keyed by `(tenant id, natural key)`,
//! written through an idempotent upsert that preserves the primary storage
//! key, plus the write-back of the external identifier.

use vstd::prelude::*;

use crate::entity::{entity_like, item_like, AssetItem, NewAssetItem};
use crate::errors::SyncError;

verus! {

/// The natural-key match: same tenant and same name content.
pub open spec fn key_matches(it: AssetItem, company: i32, name: Seq<char>) -> bool {
    it.item.cio_company_id == company && it.item.name@ == name
}

/// Store well-formedness: per tenant the natural keys are unique, and no
/// persisted entity has a blank natural key.
pub open spec fn store_wf(items: Seq<AssetItem>) -> bool {
    &&& forall|i: int, j: int| 0 <= i < items.len() && 0 <= j < items.len() && i != j
        ==> !key_matches(#[trigger] items[j], (#[trigger] items[i]).item.cio_company_id, items[i].item.name@)
    &&& forall|i: int| 0 <= i < items.len() ==> (#[trigger] items[i]).item.name@.len() > 0
}

/// In a well-formed store, at most one entity matches a key.
pub proof fn lemma_match_unique(items: Seq<AssetItem>, i: int, j: int, company: i32, name: Seq<char>)
    requires
        store_wf(items),
        0 <= i < items.len(),
        0 <= j < items.len(),
        key_matches(items[i], company, name),
        key_matches(items[j], company, name),
    ensures
        i == j,
{
    if i != j {
        assert(!key_matches(items[j], items[i].item.cio_company_id, items[i].item.name@));
    }
}

/// How one upsert changes the store contents: when a key match exists the
/// matched entity's fields are replaced while its primary key and external
/// reference survive; otherwise the entity is appended under the fresh
/// primary key with no external reference yet.
pub open spec fn upsert_effect(
    pre: Seq<AssetItem>,
    new: NewAssetItem,
    fresh_id: i32,
    post: Seq<AssetItem>,
) -> bool {
    if exists|j: int| 0 <= j < pre.len() && key_matches(#[trigger] pre[j], new.cio_company_id, new.name@) {
        let j = choose|j: int| 0 <= j < pre.len() && key_matches(#[trigger] pre[j], new.cio_company_id, new.name@);
        post == pre.update(j, (AssetItem { item: new, ..pre[j] }))
    } else {
        &&& post.len() == pre.len() + 1
        &&& post.subrange(0, pre.len() as int) == pre
        &&& post.last().id == fresh_id
        &&& post.last().airtable_record_id@ == Seq::<char>::empty()
        &&& post.last().item == new
    }
}

/// Law: a well-formed store stays well-formed under an upsert of an entity
/// with a non-blank natural key — no blank key is ever persisted and no two
/// entities of one tenant come to share a key.
pub proof fn lemma_upsert_preserves_wf(
    pre: Seq<AssetItem>,
    new: NewAssetItem,
    fresh_id: i32,
    post: Seq<AssetItem>,
)
    requires
        store_wf(pre),
        new.name@.len() > 0,
        upsert_effect(pre, new, fresh_id, post),
    ensures
        store_wf(post),
{
    if exists|j: int| 0 <= j < pre.len() && key_matches(#[trigger] pre[j], new.cio_company_id, new.name@) {
        let j = choose|j: int| 0 <= j < pre.len() && key_matches(#[trigger] pre[j], new.cio_company_id, new.name@);
        assert forall|a: int, b: int|
            0 <= a < post.len() && 0 <= b < post.len() && a != b implies !key_matches(
            post[b],
            post[a].item.cio_company_id,
            post[a].item.name@,
        ) by {
            if key_matches(post[b], post[a].item.cio_company_id, post[a].item.name@) {
                if a == j {
                    assert(key_matches(pre[b], pre[j].item.cio_company_id, pre[j].item.name@));
                } else if b == j {
                    assert(key_matches(pre[j], pre[a].item.cio_company_id, pre[a].item.name@));
                } else {
                    assert(key_matches(pre[b], pre[a].item.cio_company_id, pre[a].item.name@));
                }
            }
        }
    } else {
        assert forall|a: int, b: int|
            0 <= a < post.len() && 0 <= b < post.len() && a != b implies !key_matches(
            post[b],
            post[a].item.cio_company_id,
            post[a].item.name@,
        ) by {
            if a < pre.len() && b < pre.len() {
                assert(post[a] == pre[a] && post[b] == pre[b]);
            } else if a < pre.len() {
                assert(post[a] == pre[a]);
                assert(post[b] == post.last());
            } else {
                assert(post[a] == post.last());
                if b < pre.len() {
                    assert(post[b] == pre[b]);
                }
            }
        }
        assert forall|i: int| 0 <= i < post.len() implies (#[trigger] post[i]).item.name@.len()
            > 0 by {
            if i < pre.len() {
                assert(post[i] == pre[i]);
            } else {
                assert(post[i] == post.last());
            }
        }
    }
}

/// Law: the upsert is idempotent. Writing an entity and then writing an
/// entity with the same content again leaves the store with the same number
/// of entities, and every entity unchanged content for content.
pub proof fn lemma_upsert_idempotent(
    pre: Seq<AssetItem>,
    e1: NewAssetItem,
    e2: NewAssetItem,
    id1: i32,
    id2: i32,
    mid: Seq<AssetItem>,
    post: Seq<AssetItem>,
)
    requires
        store_wf(pre),
        e1.name@.len() > 0,
        entity_like(e1, e2),
        upsert_effect(pre, e1, id1, mid),
        upsert_effect(mid, e2, id2, post),
    ensures
        post.len() == mid.len(),
        forall|i: int| 0 <= i < post.len() ==> item_like(#[trigger] post[i], mid[i]),
{
    let company = e1.cio_company_id;
    let name1 = e1.name@;
    lemma_upsert_preserves_wf(pre, e1, id1, mid);

    // The position in `mid` that now holds the content of `e1`.
    let k: int = if exists|j: int| 0 <= j < pre.len() && key_matches(#[trigger] pre[j], company, name1) {
        choose|j: int| 0 <= j < pre.len() && key_matches(#[trigger] pre[j], company, name1)
    } else {
        pre.len() as int
    };
    if !(exists|j: int| 0 <= j < pre.len() && key_matches(#[trigger] pre[j], company, name1)) {
        assert(mid[k] == mid.last());
    }
    assert(0 <= k < mid.len());
    assert(mid[k].item == e1);
    assert(key_matches(mid[k], e2.cio_company_id, e2.name@));

    // The second upsert therefore finds a match, and by uniqueness it is `k`.
    assert(exists|j: int| 0 <= j < mid.len() && key_matches(#[trigger] mid[j], e2.cio_company_id, e2.name@));
    let j2 = choose|j: int| 0 <= j < mid.len() && key_matches(#[trigger] mid[j], e2.cio_company_id, e2.name@);
    lemma_match_unique(mid, j2, k, e2.cio_company_id, e2.name@);
    assert(post == mid.update(k, (AssetItem { item: e2, ..mid[k] })));

    assert forall|i: int| 0 <= i < post.len() implies item_like(#[trigger] post[i], mid[i]) by {
        if i == k {
            assert(post[i].item == e2 && mid[i].item == e1);
        } else {
            assert(post[i] == mid[i]);
        }
    }
}

/// The local store: the persisted entities and the next free primary key.
#[derive(Debug)]
pub struct LocalStore {
    /// The persisted entities.
    pub items: Vec<AssetItem>,
    /// The primary key handed to the next inserted entity.
    pub next_id: i32,
}

impl LocalStore {
    /// The store invariant.
    pub open spec fn wf(self) -> bool {
        store_wf(self.items@)
    }

    /// An empty store.
    pub fn new() -> (s: LocalStore)
        ensures
            s.wf(),
            s.items@.len() == 0,
            s.next_id == 1,
    {
        LocalStore { items: Vec::new(), next_id: 1 }
    }

    /// The first entity matching the natural key of `new`, if any.
    fn find(&self, new: &NewAssetItem) -> (r: Option<usize>)
        ensures
            match r {
                Some(i) => 0 <= i < self.items@.len() && key_matches(
                    self.items@[i as int],
                    new.cio_company_id,
                    new.name@,
                ),
                None => forall|j: int| 0 <= j < self.items@.len() ==> !key_matches(
                    #[trigger] self.items@[j],
                    new.cio_company_id,
                    new.name@,
                ),
            },
    {
        let mut i: usize = 0;
        while i < self.items.len()
            invariant
                i <= self.items@.len(),
                forall|j: int| 0 <= j < i ==> !key_matches(
                    #[trigger] self.items@[j],
                    new.cio_company_id,
                    new.name@,
                ),
            decreases self.items@.len() - i,
        {
            let it = &self.items[i];
            if it.item.cio_company_id == new.cio_company_id && it.item.name == new.name {
                return Some(i);
            }
            i += 1;
        }
        None
    }

    /// Writes `new` into the store keyed by `(cio_company_id, name)`: the
    /// matched entity's fields are replaced (primary key and external
    /// reference preserved), or the entity is inserted under a fresh primary
    /// key. Fails only when the primary key space is exhausted on an insert,
    /// in which case the store is unchanged.
    pub fn upsert(&mut self, new: NewAssetItem) -> (r: Result<usize, SyncError>)
        requires
            old(self).wf(),
            new.name@.len() > 0,
        ensures
            final(self).wf(),
            match r {
                Ok(i) => {
                    &&& upsert_effect(old(self).items@, new, old(self).next_id, final(self).items@)
                    &&& 0 <= i < final(self).items@.len()
                    &&& key_matches(final(self).items@[i as int], new.cio_company_id, new.name@)
                    &&& final(self).items@[i as int].item == new
                    &&& final(self).next_id as int == if exists|j: int|
                        0 <= j < old(self).items@.len() && key_matches(
                            #[trigger] old(self).items@[j],
                            new.cio_company_id,
                            new.name@,
                        ) {
                        old(self).next_id as int
                    } else {
                        old(self).next_id + 1
                    }
                },
                Err(e) => {
                    &&& *final(self) == *old(self)
                    &&& e is Persist
                    &&& old(self).next_id == i32::MAX
                    &&& forall|j: int| 0 <= j < old(self).items@.len() ==> !key_matches(
                        #[trigger] old(self).items@[j],
                        new.cio_company_id,
                        new.name@,
                    )
                },
            },
    {
        match self.find(&new) {
            Some(i) => {
                let prev_id = self.items[i].id;
                let prev_rec = self.items[i].airtable_record_id.clone();
                let ghost pre = self.items@;
                self.items[i] = AssetItem { id: prev_id, airtable_record_id: prev_rec, item: new };
                proof {
                    let company = new.cio_company_id;
                    let name = new.name@;
                    let j = choose|j: int| 0 <= j < pre.len() && key_matches(#[trigger] pre[j], company, name);
                    lemma_match_unique(pre, j, i as int, company, name);
                    assert(self.items@ == pre.update(i as int, (AssetItem { item: new, ..pre[i as int] })));
                    lemma_upsert_preserves_wf(pre, new, self.next_id, self.items@);
                }
                Ok(i)
            },
            None => {
                if self.next_id == i32::MAX {
                    return Err(SyncError::Persist(String::from_str("primary key space exhausted")));
                }
                let id = self.next_id;
                self.next_id = self.next_id + 1;
                let ghost pre = self.items@;
                self.items.push(AssetItem { id, airtable_record_id: String::new(), item: new });
                proof {
                    assert(self.items@.subrange(0, pre.len() as int) =~= pre);
                    lemma_upsert_preserves_wf(pre, new, id, self.items@);
                }
                Ok(self.items.len() - 1)
            },
        }
    }

    /// Writes the external identifier back onto the persisted entity; no
    /// other field changes.
    pub fn set_external_id(&mut self, i: usize, ext: &str)
        requires
            old(self).wf(),
            i < old(self).items@.len(),
        ensures
            final(self).wf(),
            final(self).next_id == old(self).next_id,
            final(self).items@[i as int].airtable_record_id@ == ext@,
            final(self).items@ == old(self).items@.update(
                i as int,
                (AssetItem { airtable_record_id: final(self).items@[i as int].airtable_record_id, ..old(self).items@[i as int] }),
            ),
    {
        let ghost pre = self.items@;
        self.items[i].airtable_record_id = String::from_str(ext);
        proof {
            assert forall|a: int, b: int|
                0 <= a < self.items@.len() && 0 <= b < self.items@.len() && a != b
                implies !key_matches(
                #[trigger] self.items@[b],
                (#[trigger] self.items@[a]).item.cio_company_id,
                self.items@[a].item.name@,
            ) by {
                assert(self.items@[a].item == pre[a].item);
                assert(self.items@[b].item == pre[b].item);
            }
            assert forall|a: int| 0 <= a < self.items@.len()
                implies (#[trigger] self.items@[a]).item.name@.len() > 0 by {
                assert(self.items@[a].item == pre[a].item);
            }
        }
    }
}

} // verus!
