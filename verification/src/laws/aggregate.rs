//! Laws of the product aggregate: upsert and full replacement.
use vstd::prelude::*;
use crate::order::{ascending, holds_keys_below, key_limit, key_order, lemma_key_order};
use crate::product::{keyed, keyed_by_id, listing, owned_by, upsert, Sku};

verus! {

/// Some item among the first `n` of `l` has the id `k`.
pub open spec fn occurs(l: Seq<Sku>, n: int, k: u64) -> bool {
    exists|i: int| 0 <= i < n && #[trigger] l[i].id == k
}

/// Item `i` is among the first `n` of `l`, and none after it there has its id.
pub open spec fn is_last(l: Seq<Sku>, n: int, i: int) -> bool {
    &&& 0 <= i < n
    &&& forall|j: int| i < j < n ==> #[trigger] l[j].id != l[i].id
}

/// Upserting the same SKU a second time changes nothing.
pub proof fn lemma_upsert_idempotent(m: Map<u64, Sku>, s: Sku)
    ensures
        upsert(upsert(m, s), s) == upsert(m, s),
{
    let once = upsert(m, s);
    assert(once.contains_key(s.id));
    assert(once[s.id].refreshed(s) == once[s.id]);
    assert(upsert(once, s) =~= once);
}

/// An upsert touches one key only, and never the identity of what it finds.
pub proof fn lemma_upsert_keeps_identity(m: Map<u64, Sku>, s: Sku)
    ensures
        upsert(m, s).dom() == m.dom().insert(s.id),
        forall|k: u64| k != s.id && m.contains_key(k) ==> upsert(m, s)[k] == m[k],
        m.contains_key(s.id) ==> upsert(m, s)[s.id].id == m[s.id].id && upsert(m, s)[s.id].product_id
            == m[s.id].product_id,
        upsert(m, s)[s.id].detail == s.detail,
        upsert(m, s)[s.id].custom_price == s.custom_price,
{
    assert(upsert(m, s).dom() =~= m.dom().insert(s.id));
}

/// An upsert keeps every SKU under its own id; and where the SKU names the
/// product that all others name, all still name it.
pub proof fn lemma_upsert_consistent(m: Map<u64, Sku>, s: Sku, product_id: u64)
    ensures
        keyed_by_id(m) ==> keyed_by_id(upsert(m, s)),
        owned_by(m, product_id) && s.product_id == product_id ==> owned_by(upsert(m, s), product_id),
{
}

/// A collection that was set from a list holds every SKU under its own id;
/// and where every item names one product, all SKUs name it.
pub proof fn lemma_keyed_consistent(l: Seq<Sku>, product_id: u64)
    ensures
        keyed_by_id(keyed(l, l.len() as int)),
        (forall|i: int| 0 <= i < l.len() ==> (#[trigger] l[i]).product_id == product_id) ==> owned_by(
            keyed(l, l.len() as int),
            product_id,
        ),
{
    let n = l.len() as int;
    lemma_keyed(l, n);
    if forall|i: int| 0 <= i < l.len() ==> (#[trigger] l[i]).product_id == product_id {
        assert forall|k: u64| #[trigger] keyed(l, n).contains_key(k) implies keyed(l, n)[k].product_id
            == product_id by {
            lemma_last_index(l, n, k);
            let j = last_index(l, n, k);
            assert(is_last(l, n, j));
            assert(keyed(l, n)[l[j].id] == l[j]);
        }
    }
}

/// Where every SKU is held under its own id, the listing is ascending by
/// id, and holds each SKU of the collection once.
pub proof fn lemma_listing_by_id(m: Map<u64, Sku>)
    requires
        keyed_by_id(m),
    ensures
        forall|i: int, j: int| 0 <= i < j < listing(m).len() ==> listing(m)[i].id < listing(m)[j].id,
        forall|i: int|
            0 <= i < listing(m).len() ==> m.contains_key((#[trigger] listing(m)[i]).id) && m[listing(
                m,
            )[i].id] == listing(m)[i],
        forall|k: u64| #[trigger] m.contains_key(k) ==> listing(m).contains(m[k]),
{
    let keys = key_order(m.dom());
    let out = listing(m);
    lemma_listing(m);
    assert forall|i: int| 0 <= i < out.len() implies m.contains_key(#[trigger] keys[i]) && out[i].id
        == keys[i] by {
        assert(keys.contains(keys[i]));
    }
    assert forall|i: int, j: int| 0 <= i < j < out.len() implies out[i].id < out[j].id by {
        assert(keys[i] < keys[j]);
    }
    assert forall|i: int| 0 <= i < out.len() implies m.contains_key((#[trigger] out[i]).id) && m[out[i].id]
        == out[i] by {
        assert(m.contains_key(keys[i]));
    }
    assert forall|k: u64| #[trigger] m.contains_key(k) implies out.contains(m[k]) by {
        assert(m.dom().contains(k));
        assert(keys.contains(k));
        let at = choose|at: int| 0 <= at < keys.len() && keys[at] == k;
        assert(out[at] == m[k]);
    }
}

/// What `keyed` holds: the ids of the items, each id with the last item that
/// has it, and every item under its own id.
pub proof fn lemma_keyed(l: Seq<Sku>, n: int)
    requires
        0 <= n <= l.len(),
    ensures
        forall|k: u64| #[trigger] keyed(l, n).contains_key(k) <==> occurs(l, n, k),
        forall|i: int| #[trigger] is_last(l, n, i) ==> keyed(l, n).contains_key(l[i].id) && keyed(l, n)[l[i].id] == l[i],
        forall|k: u64| #[trigger] keyed(l, n).contains_key(k) ==> keyed(l, n)[k].id == k,
        keyed(l, n).dom().finite(),
    decreases n,
{
    if n > 0 {
        lemma_keyed(l, n - 1);
        let before = keyed(l, n - 1);
        let now = keyed(l, n);
        let top = l[n - 1];
        assert(now == before.insert(top.id, top));
        assert forall|k: u64| #[trigger] now.contains_key(k) <==> occurs(l, n, k) by {
            if now.contains_key(k) {
                if k == top.id {
                    assert(l[n - 1].id == k);
                } else {
                    assert(before.contains_key(k));
                    let i = choose|i: int| 0 <= i < n - 1 && #[trigger] l[i].id == k;
                    assert(l[i].id == k);
                }
            }
            if occurs(l, n, k) {
                let i = choose|i: int| 0 <= i < n && #[trigger] l[i].id == k;
                if i < n - 1 {
                    assert(occurs(l, n - 1, k));
                }
            }
        }
        assert forall|i: int| #[trigger] is_last(l, n, i) implies now.contains_key(l[i].id) && now[l[i].id]
            == l[i] by {
            if i < n - 1 {
                assert(l[n - 1].id != l[i].id);
                assert(is_last(l, n - 1, i));
            }
        }
    } else {
        assert forall|k: u64| !occurs(l, n, k) by {}
    }
}

/// The listing of a collection walks its keys in ascending order, each key
/// once, and gives the SKU held under each.
pub proof fn lemma_listing(m: Map<u64, Sku>)
    ensures
        listing(m).len() == key_order(m.dom()).len(),
        ascending(key_order(m.dom())),
        holds_keys_below(key_order(m.dom()), m.dom(), key_limit()),
        forall|i: int| 0 <= i < listing(m).len() ==> #[trigger] listing(m)[i] == m[key_order(m.dom())[i]],
{
    lemma_key_order(m.dom());
}

/// Full replacement: after the collection was set from a list `l`, its
/// listing is ascending by id, holds exactly the ids that occur in `l`, and
/// for each id the last item of `l` that has it.
pub proof fn lemma_listing_of_keyed(l: Seq<Sku>)
    ensures
        ({
            let n = l.len() as int;
            let out = listing(keyed(l, n));
            &&& forall|i: int, j: int| 0 <= i < j < out.len() ==> out[i].id < out[j].id
            &&& forall|k: u64| occurs(l, n, k) <==> occurs(out, out.len() as int, k)
            &&& forall|i: int| #[trigger] is_last(l, n, i) ==> out.contains(l[i])
            &&& forall|i: int| 0 <= i < out.len() ==> exists|j: int| is_last(l, n, j) && l[j] == #[trigger] out[i]
        }),
{
    let n = l.len() as int;
    let m = keyed(l, n);
    let keys = key_order(m.dom());
    let out = listing(m);
    lemma_keyed(l, n);
    lemma_listing(m);
    assert forall|i: int| 0 <= i < out.len() implies m.contains_key(#[trigger] keys[i]) && out[i].id == keys[i] by {
        assert(keys.contains(keys[i]));
    }
    assert forall|i: int, j: int| 0 <= i < j < out.len() implies out[i].id < out[j].id by {
        assert(keys[i] < keys[j]);
    }
    assert forall|k: u64| occurs(l, n, k) <==> occurs(out, out.len() as int, k) by {
        if occurs(l, n, k) {
            assert(m.contains_key(k));
            assert(m.dom().contains(k));
            assert(keys.contains(k));
            let i = choose|i: int| 0 <= i < keys.len() && keys[i] == k;
            assert(out[i].id == k);
        }
        if occurs(out, out.len() as int, k) {
            let i = choose|i: int| 0 <= i < out.len() && #[trigger] out[i].id == k;
            assert(m.contains_key(keys[i]));
        }
    }
    assert forall|i: int| #[trigger] is_last(l, n, i) implies out.contains(l[i]) by {
        let k = l[i].id;
        assert(m.contains_key(k) && m[k] == l[i]);
        assert(m.dom().contains(k));
        assert(keys.contains(k));
        let at = choose|at: int| 0 <= at < keys.len() && keys[at] == k;
        assert(out[at] == l[i]);
    }
    assert forall|i: int| 0 <= i < out.len() implies exists|j: int| is_last(l, n, j) && l[j] == #[trigger] out[i] by {
        let k = keys[i];
        assert(m.contains_key(k));
        assert(occurs(l, n, k));
        let j = last_index(l, n, k);
        lemma_last_index(l, n, k);
        assert(is_last(l, n, j));
        assert(m[l[j].id] == l[j]);
    }
}

/// The largest index under `n` whose item has the id `k`, if there is one.
pub open spec fn last_index(l: Seq<Sku>, n: int, k: u64) -> int
    decreases n,
{
    if n <= 0 {
        -1
    } else if l[n - 1].id == k {
        n - 1
    } else {
        last_index(l, n - 1, k)
    }
}

/// Where an id occurs, `last_index` finds its last occurrence.
pub proof fn lemma_last_index(l: Seq<Sku>, n: int, k: u64)
    requires
        0 <= n <= l.len(),
        occurs(l, n, k),
    ensures
        is_last(l, n, last_index(l, n, k)),
        l[last_index(l, n, k)].id == k,
    decreases n,
{
    if l[n - 1].id != k {
        let i = choose|i: int| 0 <= i < n && #[trigger] l[i].id == k;
        assert(i < n - 1);
        assert(occurs(l, n - 1, k));
        lemma_last_index(l, n - 1, k);
    }
}

} // verus!
