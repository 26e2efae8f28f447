//! The read-through cache over products and sale listings.
//!
//! The store itself is reached only for single map operations. A lookup that
//! misses does not load anything here: it answers with the load that the
//! caller has to perform, and takes the outcome as its next event. Nothing
//! is ever evicted, and of two loads of one id the later one stays.
use vstd::prelude::*;
use std::collections::BTreeMap;
use crate::product::{Product, ProductInfo, ProductView, Sku, listing};
use crate::repository::{assemble, assembled, HeaderRow, SkuRow};
use crate::sale::SaleProductInfo;

verus! {

/// The two keyed stores: aggregates by product id, sale listings by product id.
pub struct CacheStore {
    products: BTreeMap<u64, Product>,
    sales: BTreeMap<u64, SaleProductInfo>,
}

/// What the caller reports to a product lookup.
#[derive(Debug)]
pub enum Event {
    /// Nothing yet: the lookup begins.
    Start,
    /// The header query ended: with the product's line, or without one
    /// (no such product, or the query failed).
    Header(Option<HeaderRow>),
    /// The SKU query for the product with the given header line ended:
    /// with its lines, or with `None` where it failed.
    Skus(HeaderRow, Option<Vec<SkuRow>>),
}

/// What a product lookup answers.
#[derive(Debug)]
pub enum Step<T> {
    /// The lookup is over, with this result.
    Done(T),
    /// The caller has to query the product's header line.
    LoadHeader,
    /// The caller has to query the SKU lines of the product with this header.
    LoadSkus(HeaderRow),
}

/// What the caller reports to a sale-listing lookup.
#[derive(Debug, PartialEq, Eq, Structural)]
pub enum SaleEvent {
    /// Nothing yet: the lookup begins.
    Start,
    /// The listing query ended: `true` where the store has a line for the
    /// product, `false` where it has none or the query failed.
    Listing(bool),
}

/// What a sale-listing lookup answers.
#[derive(Debug, PartialEq, Eq, Structural)]
pub enum SaleStep {
    /// The lookup is over, with this result.
    Done(Option<SaleProductInfo>),
    /// The caller has to query the store for the product's listing.
    LoadListing,
}

/// One step of a product lookup: from the cached aggregates `before` and
/// an event to the answer `step` and the cached aggregates `after`.
pub open spec fn product_step(
    before: Map<u64, ProductView>,
    id: u64,
    event: Event,
    step: Step<Option<Product>>,
    after: Map<u64, ProductView>,
) -> bool {
    match event {
        Event::Start => {
            &&& after == before
            &&& if before.contains_key(id) {
                step matches Step::Done(Some(p)) && p@ == before[id]
            } else {
                step is LoadHeader
            }
        },
        Event::Header(None) => after == before && step == Step::Done(None::<Product>),
        Event::Header(Some(h)) => after == before && step == Step::<Option<Product>>::LoadSkus(h),
        Event::Skus(h, rows) => {
            &&& step matches Step::Done(Some(p))
            &&& assembled(p, id, h, rows)
            &&& after == before.insert(id, p@)
        },
    }
}

/// The answer of a header lookup that goes with the answer `inner` of the
/// product lookup: the header of what was found.
pub open spec fn info_answer(inner: Step<Option<Product>>, step: Step<Option<ProductInfo>>) -> bool {
    match inner {
        Step::Done(Some(p)) => step == Step::Done(Some(p.info())),
        Step::Done(None) => step == Step::Done(None::<ProductInfo>),
        Step::LoadHeader => step is LoadHeader,
        Step::LoadSkus(h) => step == Step::<Option<ProductInfo>>::LoadSkus(h),
    }
}

/// The answer of a SKU lookup that goes with the answer `inner` of the
/// product lookup: the SKUs of what was found in key order, none where
/// nothing was found.
pub open spec fn skus_answer(inner: Step<Option<Product>>, step: Step<Vec<Sku>>) -> bool {
    match inner {
        Step::Done(Some(p)) => step matches Step::Done(v) && v@ == listing(p.skus()),
        Step::Done(None) => step matches Step::Done(v) && v@.len() == 0,
        Step::LoadHeader => step is LoadHeader,
        Step::LoadSkus(h) => step == Step::<Vec<Sku>>::LoadSkus(h),
    }
}

/// The answer of one step of a sale-listing lookup.
pub open spec fn sale_answer(before: Map<u64, SaleProductInfo>, id: u64, event: SaleEvent) -> SaleStep {
    match event {
        SaleEvent::Start => if before.contains_key(id) {
            SaleStep::Done(Some(before[id]))
        } else {
            SaleStep::LoadListing
        },
        SaleEvent::Listing(true) => SaleStep::Done(Some(SaleProductInfo::blank(id))),
        SaleEvent::Listing(false) => SaleStep::Done(None),
    }
}

/// The cached sale listings after one step of a sale-listing lookup.
pub open spec fn sales_after(before: Map<u64, SaleProductInfo>, id: u64, event: SaleEvent) -> Map<
    u64,
    SaleProductInfo,
> {
    match event {
        SaleEvent::Listing(true) => before.insert(id, SaleProductInfo::blank(id)),
        _ => before,
    }
}

/// The cached sale listings after the first `n` of `ids` were listed: each
/// id that had no listing has a blank one, every other listing is as before.
pub open spec fn listed(before: Map<u64, SaleProductInfo>, ids: Seq<u64>, n: int) -> Map<
    u64,
    SaleProductInfo,
>
    decreases n,
{
    if n <= 0 {
        before
    } else {
        let sofar = listed(before, ids, n - 1);
        let id = ids[n - 1];
        if sofar.contains_key(id) {
            sofar
        } else {
            sofar.insert(id, SaleProductInfo::blank(id))
        }
    }
}

impl CacheStore {
    /// The cached aggregates, by product id.
    pub closed spec fn products(&self) -> Map<u64, ProductView> {
        self.products@.map_values(|p: Product| p@)
    }

    /// The cached sale listings, by product id.
    pub closed spec fn sales(&self) -> Map<u64, SaleProductInfo> {
        self.sales@
    }

    /// A store that holds nothing.
    pub fn new() -> (r: CacheStore)
        ensures
            r.products() == Map::<u64, ProductView>::empty(),
            r.sales() == Map::<u64, SaleProductInfo>::empty(),
    {
        let r = CacheStore { products: BTreeMap::new(), sales: BTreeMap::new() };
        assert(r.products() =~= Map::<u64, ProductView>::empty());
        r
    }

    /// The cached aggregate of product `id`, if there is one.
    pub fn cached_product(&self, id: u64) -> (r: Option<Product>)
        ensures
            match r {
                Some(p) => self.products().contains_key(id) && p@ == self.products()[id],
                None => !self.products().contains_key(id),
            },
    {
        broadcast use vstd::std_specs::btree::group_btree_axioms;

        match self.products.get(&id) {
            Some(p) => Some(p.clone()),
            None => None,
        }
    }

    /// The cached sale listing of product `id`, if there is one.
    pub fn cached_sale(&self, id: u64) -> (r: Option<SaleProductInfo>)
        ensures
            r == (if self.sales().contains_key(id) {
                Some(self.sales()[id])
            } else {
                None
            }),
    {
        broadcast use vstd::std_specs::btree::group_btree_axioms;

        match self.sales.get(&id) {
            Some(s) => Some(s.clone()),
            None => None,
        }
    }

    /// Puts `p` under `id`, in place of what was cached there.
    fn put_product(&mut self, id: u64, p: Product)
        ensures
            final(self).products() == old(self).products().insert(id, p@),
            final(self).sales() == old(self).sales(),
    {
        self.products.insert(id, p);
        assert(self.products() =~= old(self).products().insert(id, p@));
    }

    /// Puts `s` under `id`, in place of what was cached there.
    fn put_sale(&mut self, id: u64, s: SaleProductInfo)
        ensures
            final(self).sales() == old(self).sales().insert(id, s),
            final(self).products() == old(self).products(),
    {
        self.sales.insert(id, s);
    }
}

/// One step of the lookup of product `product_id`.
///
/// At the start a cached aggregate ends the lookup; without one the caller
/// is asked for the header line. Without a header line the product is not
/// found; with one the caller is asked for the SKU lines. When those came,
/// the aggregate is assembled, cached in place of whatever is cached under
/// the id by then, and returned. Only that last step changes the store.
pub fn get_product(cache: &mut CacheStore, product_id: &u64, event: Event) -> (step: Step<Option<Product>>)
    ensures
        product_step(old(cache).products(), *product_id, event, step, final(cache).products()),
        final(cache).sales() == old(cache).sales(),
{
    match event {
        Event::Start => match cache.cached_product(*product_id) {
            Some(p) => Step::Done(Some(p)),
            None => Step::LoadHeader,
        },
        Event::Header(None) => Step::Done(None),
        Event::Header(Some(h)) => Step::LoadSkus(h),
        Event::Skus(h, rows) => {
            let p = assemble(*product_id, &h, &rows);
            let copy = p.clone();
            cache.put_product(*product_id, p);
            Step::Done(Some(copy))
        },
    }
}

/// One step of the lookup of the SKUs of product `product_id`: the lookup
/// of the product, with the SKUs of what was found as the result, in
/// ascending key order, and no SKU where the product was not found.
pub fn get_product_skus(cache: &mut CacheStore, product_id: &u64, event: Event) -> (step: Step<Vec<Sku>>)
    ensures
        exists|inner: Step<Option<Product>>|
            #[trigger] product_step(
                old(cache).products(),
                *product_id,
                event,
                inner,
                final(cache).products(),
            ) && skus_answer(inner, step),
        final(cache).sales() == old(cache).sales(),
{
    let inner = get_product(cache, product_id, event);
    let ghost seen = inner;
    let step = match inner {
        Step::Done(Some(p)) => Step::Done(p.get_skus()),
        Step::Done(None) => Step::Done(Vec::new()),
        Step::LoadHeader => Step::LoadHeader,
        Step::LoadSkus(h) => Step::LoadSkus(h),
    };
    assert(product_step(old(cache).products(), *product_id, event, seen, cache.products())
        && skus_answer(seen, step));
    step
}

/// One step of the lookup of the header of product `id`: the lookup of the
/// product, with the header of what was found as the result.
pub fn get_product_info(cache: &mut CacheStore, id: &u64, event: Event) -> (step: Step<Option<ProductInfo>>)
    ensures
        exists|inner: Step<Option<Product>>|
            #[trigger] product_step(old(cache).products(), *id, event, inner, final(cache).products())
                && info_answer(inner, step),
        final(cache).sales() == old(cache).sales(),
{
    let inner = get_product(cache, id, event);
    let ghost seen = inner;
    let step = match inner {
        Step::Done(Some(p)) => Step::Done(Some(p.get_info())),
        Step::Done(None) => Step::Done(None),
        Step::LoadHeader => Step::LoadHeader,
        Step::LoadSkus(h) => Step::LoadSkus(h),
    };
    assert(product_step(old(cache).products(), *id, event, seen, cache.products()) && info_answer(
        seen,
        step,
    ));
    step
}

/// One step of the lookup of the sale listing of product `id`.
///
/// At the start a cached listing ends the lookup; without one the caller is
/// asked whether the store lists the product. If it does, a blank listing
/// is cached in place of whatever is cached under the id by then, and
/// returned; if it does not, nothing is found and nothing changes.
pub fn get_sale_product(cache: &mut CacheStore, id: &u64, event: SaleEvent) -> (step: SaleStep)
    ensures
        step == sale_answer(old(cache).sales(), *id, event),
        final(cache).sales() == sales_after(old(cache).sales(), *id, event),
        final(cache).products() == old(cache).products(),
{
    match event {
        SaleEvent::Start => match cache.cached_sale(*id) {
            Some(s) => SaleStep::Done(Some(s)),
            None => SaleStep::LoadListing,
        },
        SaleEvent::Listing(true) => {
            let s = SaleProductInfo::new(*id, 0, 0, 0, 0, 0);
            cache.put_sale(*id, s.clone());
            SaleStep::Done(Some(s))
        },
        SaleEvent::Listing(false) => SaleStep::Done(None),
    }
}

/// The sale listings of a shop, from the product ids that the query by shop
/// found, or `None` where it failed.
///
/// Every id gives a blank listing, in the order of the query. Each id that
/// has no cached listing yet gets the blank one cached; a cached listing is
/// left as it is. A query that failed gives an empty list and changes nothing.
pub fn get_sale_products(cache: &mut CacheStore, ids: &Option<Vec<u64>>) -> (out: Vec<SaleProductInfo>)
    ensures
        match *ids {
            Some(found) => {
                &&& out@ == found@.map_values(|id: u64| SaleProductInfo::blank(id))
                &&& final(cache).sales() == listed(old(cache).sales(), found@, found@.len() as int)
            },
            None => out@.len() == 0 && final(cache).sales() == old(cache).sales(),
        },
        final(cache).products() == old(cache).products(),
{
    let mut out: Vec<SaleProductInfo> = Vec::new();
    match ids {
        Some(found) => {
            let n: usize = found.len();
            let mut i: usize = 0;
            while i < n
                invariant
                    n == found@.len(),
                    i <= n,
                    out@.len() == i,
                    forall|j: int| 0 <= j < i ==> out@[j] == SaleProductInfo::blank(found@[j]),
                    cache.sales() == listed(old(cache).sales(), found@, i as int),
                    cache.products() == old(cache).products(),
                decreases n - i,
            {
                let id: u64 = found[i];
                let product = SaleProductInfo::new(id, 0, 0, 0, 0, 0);
                if cache.cached_sale(id).is_none() {
                    cache.put_sale(id, product.clone());
                }
                out.push(product);
                i = i + 1;
            }
            assert(out@ =~= found@.map_values(|id: u64| SaleProductInfo::blank(id)));
        },
        None => {},
    }
    out
}

} // verus!
