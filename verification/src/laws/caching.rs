//! Laws of the read-through cache.
use vstd::prelude::*;
use crate::cache::{listed, product_step, sale_answer, sales_after, Event, SaleEvent, SaleStep, Step};
use crate::product::{keyed_by_id, owned_by, Product, ProductView};
use crate::repository::{assembled, lemma_assembled_consistent, HeaderRow, SkuRow};
use crate::sale::SaleProductInfo;

verus! {

/// A step of a product lookup changes nothing but the entry of its own id,
/// and that only when the SKU lines came; no entry ever leaves the store.
pub proof fn lemma_step_frame(
    before: Map<u64, ProductView>,
    id: u64,
    event: Event,
    step: Step<Option<Product>>,
    after: Map<u64, ProductView>,
)
    requires
        product_step(before, id, event, step, after),
    ensures
        forall|k: u64| before.contains_key(k) ==> after.contains_key(k),
        forall|k: u64| k != id ==> (after.contains_key(k) <==> before.contains_key(k)),
        forall|k: u64| k != id && before.contains_key(k) ==> after[k] == before[k],
        !(event is Skus) ==> after == before,
        event is Skus ==> after.contains_key(id),
{
}

/// Every cached aggregate is cached under its own id and is consistent.
pub open spec fn sound(cache: Map<u64, ProductView>) -> bool {
    forall|k: u64| #[trigger]
        cache.contains_key(k) ==> {
            &&& cache[k].info.productId == k
            &&& keyed_by_id(cache[k].skus)
            &&& owned_by(cache[k].skus, k)
        }
}

/// A store that is sound stays sound over every step of a lookup. A new
/// store holds nothing and is sound, so what is cached under an id is
/// always a consistent aggregate of that id.
pub proof fn lemma_step_keeps_sound(
    before: Map<u64, ProductView>,
    id: u64,
    event: Event,
    step: Step<Option<Product>>,
    after: Map<u64, ProductView>,
)
    requires
        sound(before),
        product_step(before, id, event, step, after),
    ensures
        sound(after),
{
    if let Event::Skus(h, rows) = event {
        let p = step->Done_0->Some_0;
        lemma_assembled_consistent(p, id, h, rows);
    }
}

/// A lookup of a cached id ends at once with the cached aggregate: it asks
/// for no load and leaves the store as it is.
pub proof fn lemma_hit(
    before: Map<u64, ProductView>,
    id: u64,
    step: Step<Option<Product>>,
    after: Map<u64, ProductView>,
)
    requires
        before.contains_key(id),
        product_step(before, id, Event::Start, step, after),
    ensures
        step matches Step::Done(Some(p)) && p@ == before[id],
        after == before,
{
}

/// Read-through: the lookup of an id that is not cached asks for the header
/// line once, then for the SKU lines once, then ends with the assembled
/// aggregate and has it cached; the next lookup of the id ends at once with
/// the same aggregate and asks for nothing.
pub proof fn lemma_read_through(
    c0: Map<u64, ProductView>,
    id: u64,
    header: HeaderRow,
    rows: Option<Vec<SkuRow>>,
    s1: Step<Option<Product>>,
    c1: Map<u64, ProductView>,
    s2: Step<Option<Product>>,
    c2: Map<u64, ProductView>,
    s3: Step<Option<Product>>,
    c3: Map<u64, ProductView>,
    s4: Step<Option<Product>>,
    c4: Map<u64, ProductView>,
)
    requires
        !c0.contains_key(id),
        product_step(c0, id, Event::Start, s1, c1),
        product_step(c1, id, Event::Header(Some(header)), s2, c2),
        product_step(c2, id, Event::Skus(header, rows), s3, c3),
        product_step(c3, id, Event::Start, s4, c4),
    ensures
        s1 is LoadHeader,
        s2 == Step::<Option<Product>>::LoadSkus(header),
        s3 matches Step::Done(Some(p)) && assembled(p, id, header, rows) && c3 == c0.insert(id, p@) && (s4 matches Step::Done(
            Some(q),
        ) && q@ == p@),
        c4 == c3,
{
}

/// A product that the store does not have is not found and not cached: the
/// next lookup asks for the header line again.
pub proof fn lemma_absent_is_not_cached(
    c0: Map<u64, ProductView>,
    id: u64,
    s1: Step<Option<Product>>,
    c1: Map<u64, ProductView>,
    s2: Step<Option<Product>>,
    c2: Map<u64, ProductView>,
    s3: Step<Option<Product>>,
    c3: Map<u64, ProductView>,
)
    requires
        !c0.contains_key(id),
        product_step(c0, id, Event::Start, s1, c1),
        product_step(c1, id, Event::Header(None), s2, c2),
        product_step(c2, id, Event::Start, s3, c3),
    ensures
        s1 is LoadHeader,
        s2 == Step::Done(None::<Product>),
        s3 is LoadHeader,
        c3 == c0,
{
}

/// Two lookups of one id that is not cached, both begun before either has
/// its SKU lines: each is asked to load, and what the later one assembled
/// is what stays cached. Every other entry is as it was.
pub proof fn lemma_concurrent_miss(
    c0: Map<u64, ProductView>,
    id: u64,
    header_a: HeaderRow,
    rows_a: Option<Vec<SkuRow>>,
    header_b: HeaderRow,
    rows_b: Option<Vec<SkuRow>>,
    a1: Step<Option<Product>>,
    c1: Map<u64, ProductView>,
    b1: Step<Option<Product>>,
    c2: Map<u64, ProductView>,
    a2: Step<Option<Product>>,
    c3: Map<u64, ProductView>,
    b2: Step<Option<Product>>,
    c4: Map<u64, ProductView>,
    a3: Step<Option<Product>>,
    c5: Map<u64, ProductView>,
    b3: Step<Option<Product>>,
    c6: Map<u64, ProductView>,
)
    requires
        !c0.contains_key(id),
        product_step(c0, id, Event::Start, a1, c1),
        product_step(c1, id, Event::Start, b1, c2),
        product_step(c2, id, Event::Header(Some(header_a)), a2, c3),
        product_step(c3, id, Event::Header(Some(header_b)), b2, c4),
        product_step(c4, id, Event::Skus(header_a, rows_a), a3, c5),
        product_step(c5, id, Event::Skus(header_b, rows_b), b3, c6),
    ensures
        a1 is LoadHeader,
        b1 is LoadHeader,
        a2 == Step::<Option<Product>>::LoadSkus(header_a),
        b2 == Step::<Option<Product>>::LoadSkus(header_b),
        a3 matches Step::Done(Some(pa)) && assembled(pa, id, header_a, rows_a),
        b3 matches Step::Done(Some(pb)) && assembled(pb, id, header_b, rows_b) && c6 == c0.insert(
            id,
            pb@,
        ),
{
    let pa = a3->Done_0->Some_0;
    let pb = b3->Done_0->Some_0;
    assert(c5 == c0.insert(id, pa@));
    assert(c6 =~= c0.insert(id, pb@));
}

/// A sale listing is cached by the first lookup that finds the product
/// listed, and the next lookup ends at once with it.
pub proof fn lemma_sale_read_through(c0: Map<u64, SaleProductInfo>, id: u64)
    requires
        !c0.contains_key(id),
    ensures
        sale_answer(c0, id, SaleEvent::Start) == SaleStep::LoadListing,
        sales_after(c0, id, SaleEvent::Start) == c0,
        sale_answer(c0, id, SaleEvent::Listing(true)) == SaleStep::Done(Some(SaleProductInfo::blank(id))),
        sale_answer(sales_after(c0, id, SaleEvent::Listing(true)), id, SaleEvent::Start) == SaleStep::Done(
            Some(SaleProductInfo::blank(id)),
        ),
        sale_answer(c0, id, SaleEvent::Listing(false)) == SaleStep::Done(None),
        sales_after(c0, id, SaleEvent::Listing(false)) == c0,
{
}

/// What listing the first `n` of `ids` does to the cached sale listings:
/// every listing that was cached stays as it is, each of the ids that had
/// none has a blank one, and nothing else is cached.
pub proof fn lemma_listed(before: Map<u64, SaleProductInfo>, ids: Seq<u64>, n: int)
    requires
        0 <= n <= ids.len(),
    ensures
        forall|k: u64| #[trigger]
            listed(before, ids, n).contains_key(k) <==> before.contains_key(k) || exists|i: int|
                0 <= i < n && ids[i] == k,
        forall|k: u64|
            before.contains_key(k) ==> #[trigger] listed(before, ids, n)[k] == before[k],
        forall|k: u64|
            !before.contains_key(k) && #[trigger] listed(before, ids, n).contains_key(k) ==> listed(
                before,
                ids,
                n,
            )[k] == SaleProductInfo::blank(k),
    decreases n,
{
    if n > 0 {
        lemma_listed(before, ids, n - 1);
        let sofar = listed(before, ids, n - 1);
        let now = listed(before, ids, n);
        let id = ids[n - 1];
        assert forall|k: u64| #[trigger] now.contains_key(k) <==> before.contains_key(k) || exists|i: int|
            0 <= i < n && ids[i] == k by {
            if now.contains_key(k) && !before.contains_key(k) {
                if sofar.contains_key(k) {
                    let i = choose|i: int| 0 <= i < n - 1 && ids[i] == k;
                    assert(0 <= i < n && ids[i] == k);
                } else {
                    assert(ids[n - 1] == k);
                }
            }
            if exists|i: int| 0 <= i < n && ids[i] == k {
                let i = choose|i: int| 0 <= i < n && ids[i] == k;
                if i < n - 1 {
                    assert(sofar.contains_key(k));
                }
            }
        }
    }
}

} // verus!
