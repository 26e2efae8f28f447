//! Domain records: product header, SKU, and the aggregate that joins them.
use vstd::prelude::*;
use vstd::std_specs::cmp::PartialEqSpecImpl;
use std::collections::BTreeMap;
use vstd::std_specs::iter::IteratorSpec;
use crate::increasing::lemma_increasing_is_ascending;
use crate::order::{holds_keys_below, key_limit, key_order, lemma_key_order_unique};

verus! {

/// Header of a product. Two headers are the same product when their ids agree.
#[derive(Debug)]
pub struct ProductInfo {
    pub productId: u64,
    pub productName: String,
    pub detailDesc: String,
    pub mainUrl: String,
    pub verifiedStatus: i32,
    pub saleStatus: i32,
    pub level_id: i32,
    pub prdt_type_id: i32,
    pub brand_id: i32,
}

impl Clone for ProductInfo {
    fn clone(&self) -> (r: Self)
        ensures
            r == *self,
    {
        ProductInfo {
            productId: self.productId,
            productName: self.productName.clone(),
            detailDesc: self.detailDesc.clone(),
            mainUrl: self.mainUrl.clone(),
            verifiedStatus: self.verifiedStatus,
            saleStatus: self.saleStatus,
            level_id: self.level_id,
            prdt_type_id: self.prdt_type_id,
            brand_id: self.brand_id,
        }
    }
}

impl PartialEq for ProductInfo {
    fn eq(&self, other: &Self) -> (r: bool) {
        self.productId == other.productId
    }
}

impl PartialEqSpecImpl for ProductInfo {
    open spec fn obeys_eq_spec() -> bool {
        true
    }

    open spec fn eq_spec(&self, other: &Self) -> bool {
        self.productId == other.productId
    }
}

impl ProductInfo {
    /// A header that is not yet on sale: `saleStatus` starts at zero, every
    /// other field is the argument given for it.
    pub fn new(
        id: u64,
        name: String,
        desc: String,
        url: String,
        verify: i32,
        lid: i32,
        prdt: i32,
        b_id: i32,
    ) -> (r: ProductInfo)
        ensures
            r == (ProductInfo {
                productId: id,
                productName: name,
                detailDesc: desc,
                mainUrl: url,
                verifiedStatus: verify,
                saleStatus: 0,
                level_id: lid,
                prdt_type_id: prdt,
                brand_id: b_id,
            }),
    {
        ProductInfo {
            productId: id,
            productName: name,
            detailDesc: desc,
            mainUrl: url,
            verifiedStatus: verify,
            saleStatus: 0,
            level_id: lid,
            prdt_type_id: prdt,
            brand_id: b_id,
        }
    }
}

/// One stock-keeping unit of a product. Two values are the same SKU when
/// their ids agree. The price is kept as the bit pattern of the
/// single-precision number that the store holds, so that it is carried
/// without loss.
#[derive(Debug)]
pub struct Sku {
    pub id: u64,
    pub product_id: u64,
    pub sku: String,
    pub detail: String,
    pub custom_price: u32,
}

impl Clone for Sku {
    fn clone(&self) -> (r: Self)
        ensures
            r == *self,
    {
        Sku {
            id: self.id,
            product_id: self.product_id,
            sku: self.sku.clone(),
            detail: self.detail.clone(),
            custom_price: self.custom_price,
        }
    }
}

impl PartialEq for Sku {
    fn eq(&self, other: &Self) -> (r: bool) {
        self.id == other.id
    }
}

impl PartialEqSpecImpl for Sku {
    open spec fn obeys_eq_spec() -> bool {
        true
    }

    open spec fn eq_spec(&self, other: &Self) -> bool {
        self.id == other.id
    }
}

impl Sku {
    /// What `self` becomes when it takes the mutable fields of `other`:
    /// `detail` and `custom_price` come from `other`, the identity fields and
    /// the `sku` code stay.
    pub open spec fn refreshed(self, other: Sku) -> Sku {
        Sku {
            id: self.id,
            product_id: self.product_id,
            sku: self.sku,
            detail: other.detail,
            custom_price: other.custom_price,
        }
    }

    /// Takes `detail` and `custom_price` from `other` and leaves the rest.
    pub fn update(&mut self, other: &Sku)
        ensures
            *final(self) == old(self).refreshed(*other),
    {
        self.detail = other.detail.clone();
        self.custom_price = other.custom_price;
    }
}

/// The SKU collection after `s` has been upserted into `m`: an entry already
/// keyed by `s.id` keeps its identity and takes the mutable fields of `s`;
/// otherwise `s` itself is stored under its id.
pub open spec fn upsert(m: Map<u64, Sku>, s: Sku) -> Map<u64, Sku> {
    if m.contains_key(s.id) {
        m.insert(s.id, m[s.id].refreshed(s))
    } else {
        m.insert(s.id, s)
    }
}

/// The SKU collection that holds the first `n` items of `l`, each under its
/// id, a later item replacing an earlier one with the same id.
pub open spec fn keyed(l: Seq<Sku>, n: int) -> Map<u64, Sku>
    decreases n,
{
    if n <= 0 {
        Map::empty()
    } else {
        keyed(l, n - 1).insert(l[n - 1].id, l[n - 1])
    }
}

/// Every SKU of `m` is held under its own id.
pub open spec fn keyed_by_id(m: Map<u64, Sku>) -> bool {
    forall|k: u64| #[trigger] m.contains_key(k) ==> m[k].id == k
}

/// Every SKU of `m` names `product_id` as its product.
pub open spec fn owned_by(m: Map<u64, Sku>, product_id: u64) -> bool {
    forall|k: u64| #[trigger] m.contains_key(k) ==> m[k].product_id == product_id
}

/// The SKUs of `m` in ascending order of their keys.
pub open spec fn listing(m: Map<u64, Sku>) -> Seq<Sku> {
    key_order(m.dom()).map_values(|k: u64| m[k])
}

/// A product header together with its SKUs, keyed by SKU id.
#[derive(Debug)]
pub struct Product {
    info: ProductInfo,
    skus: BTreeMap<u64, Sku>,
}

/// What an aggregate holds: its header and its SKUs by key.
pub struct ProductView {
    pub info: ProductInfo,
    pub skus: Map<u64, Sku>,
}

impl View for Product {
    type V = ProductView;

    closed spec fn view(&self) -> ProductView {
        ProductView { info: self.info, skus: self.skus@ }
    }
}

impl Product {
    /// The header of the aggregate.
    pub open spec fn info(&self) -> ProductInfo {
        self@.info
    }

    /// The SKUs of the aggregate, by key.
    pub open spec fn skus(&self) -> Map<u64, Sku> {
        self@.skus
    }

    /// Every SKU is held under its own id and names this product as its
    /// own. An aggregate that was loaded is consistent; `new`, `update_sku`
    /// and `set_skus` take what they are given.
    pub open spec fn consistent(&self) -> bool {
        keyed_by_id(self.skus()) && owned_by(self.skus(), self.info().productId)
    }

    /// An aggregate with the given header and no SKU.
    pub fn new_less(i: ProductInfo) -> (r: Product)
        ensures
            r.info() == i,
            r.skus() == Map::<u64, Sku>::empty(),
    {
        Product { info: i, skus: BTreeMap::new() }
    }

    /// An aggregate with the given header and SKUs.
    pub fn new(i: ProductInfo, s: BTreeMap<u64, Sku>) -> (r: Product)
        ensures
            r.info() == i,
            r.skus() == s@,
    {
        Product { info: i, skus: s }
    }

    /// The id of the product, which is that of its header.
    pub fn get_id(&self) -> (r: u64)
        ensures
            r == self.info().productId,
    {
        self.info.productId
    }

    /// A copy of the header.
    pub fn get_info(&self) -> (r: ProductInfo)
        ensures
            r == self.info(),
    {
        self.info.clone()
    }

    /// The header itself; it is always there.
    pub fn get_ref_info(&self) -> (r: Option<&ProductInfo>)
        ensures
            r == Some(&self.info()),
    {
        Some(&self.info)
    }

    /// A snapshot of the SKUs, in ascending order of their keys.
    pub fn get_skus(&self) -> (r: Vec<Sku>)
        ensures
            r@ == listing(self.skus()),
    {
        broadcast use vstd::std_specs::btree::group_btree_axioms;
        broadcast use vstd::laws_cmp::group_laws_cmp;

        let mut out: Vec<Sku> = Vec::new();
        let entries = self.skus.iter();
        let ghost full = entries.remaining();
        let ghost keys = full.map_values(|kv: (&u64, &Sku)| *kv.0);
        for kv in it: entries
            invariant
                it.seq() == full,
                out@.len() == it.index(),
                forall|i: int| 0 <= i < it.index() ==> out@[i] == *full[i].1,
        {
            out.push(kv.1.clone());
        }
        proof {
            let m = self.skus@;
            assert(out@.len() == full.len());
            assert(vstd::std_specs::btree::increasing_seq(keys));
            lemma_increasing_is_ascending(keys);
            assert forall|k: u64| #[trigger] keys.contains(k) implies m.dom().contains(k) by {
                let i = choose|i: int| 0 <= i < keys.len() && keys[i] == k;
                assert(m.contains_key(*full[i].0));
            }
            assert forall|k: u64| #[trigger] m.dom().contains(k) implies keys.contains(k) by {
                assert(m.contains_key(k));
                assert(full.contains((&k, &m[k])));
                let i = choose|i: int| 0 <= i < full.len() && full[i] == (&k, &m[k]);
                assert(keys[i] == k);
            }
            assert(holds_keys_below(keys, m.dom(), key_limit()));
            lemma_key_order_unique(m.dom(), keys);
            assert forall|i: int| 0 <= i < out@.len() implies out@[i] == listing(m)[i] by {
                assert(m.contains_key(*full[i].0));
                assert(m[*full[i].0] == *full[i].1);
                assert(keys[i] == *full[i].0);
            }
            assert(out@ =~= listing(m));
        }
        out
    }

    /// Upserts `sku` by its id: an SKU already held under that id takes the
    /// `detail` and `custom_price` of `sku` and keeps its identity; otherwise
    /// `sku` is added. The header and every other SKU stay as they were.
    pub fn update_sku(&mut self, sku: Sku)
        ensures
            final(self).info() == old(self).info(),
            final(self).skus() == upsert(old(self).skus(), sku),
    {
        broadcast use vstd::std_specs::btree::group_btree_axioms;

        let key: u64 = sku.id;
        let merged = match self.skus.get(&key) {
            Some(held) => {
                let mut m = held.clone();
                m.update(&sku);
                m
            },
            None => sku,
        };
        self.skus.insert(key, merged);
    }

    /// Replaces the whole SKU collection by the items of `list`, each keyed by
    /// its id; of two items with one id the later one stays.
    pub fn set_skus(&mut self, list: Vec<Sku>)
        ensures
            final(self).info() == old(self).info(),
            final(self).skus() == keyed(list@, list@.len() as int),
    {
        self.skus.clear();
        let n: usize = list.len();
        let mut i: usize = 0;
        while i < n
            invariant
                n == list@.len(),
                i <= n,
                self.info == old(self).info,
                self.skus@ == keyed(list@, i as int),
            decreases n - i,
        {
            let sk = list[i].clone();
            self.skus.insert(sk.id, sk);
            i = i + 1;
        }
    }
}

impl Clone for Product {
    fn clone(&self) -> (r: Self)
        ensures
            r@ == self@,
    {
        Product { info: self.info.clone(), skus: self.skus.clone() }
    }
}

impl PartialEq for Product {
    fn eq(&self, other: &Self) -> (r: bool) {
        self.info.productId == other.info.productId
    }
}

impl PartialEqSpecImpl for Product {
    open spec fn obeys_eq_spec() -> bool {
        true
    }

    open spec fn eq_spec(&self, other: &Self) -> bool {
        self.info().productId == other.info().productId
    }
}

} // verus!
