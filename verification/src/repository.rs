//! Mapping of store rows to domain records. A row holds what the store
//! returned for one line of a query; text columns may be absent.
use vstd::prelude::*;
use std::collections::BTreeMap;
use crate::product::{keyed_by_id, owned_by, Product, ProductInfo, Sku};

verus! {

/// The text of a column: what it holds, or nothing where it is absent.
pub open spec fn text(column: Option<String>) -> Seq<char> {
    match column {
        Some(s) => s@,
        None => Seq::empty(),
    }
}

/// One line of the product header table, without the product's id.
#[derive(Debug)]
pub struct HeaderRow {
    pub product_name: Option<String>,
    pub detail_title: Option<String>,
    pub main_url: Option<String>,
    pub verified_status: i32,
    pub level_id: i32,
    pub prdt_type_id: i32,
    pub brand_id: i32,
}

/// One line of the SKU table. The price is the bit pattern of the
/// single-precision number in the column.
#[derive(Debug)]
pub struct SkuRow {
    pub id: u64,
    pub sku_id: Option<String>,
    pub custom_price: u32,
    pub detail: Option<String>,
}

/// What a bulk query found for one product: its id, its header line, and
/// the lines of its SKU query, or `None` where that query failed.
#[derive(Debug)]
pub struct LoadedProduct {
    pub id: u64,
    pub header: HeaderRow,
    pub skus: Option<Vec<SkuRow>>,
}

/// `info` is the header of product `id` as `row` gives it: absent text is
/// empty, and the product is not on sale.
pub open spec fn header_matches(info: ProductInfo, id: u64, row: HeaderRow) -> bool {
    &&& info.productId == id
    &&& info.productName@ == text(row.product_name)
    &&& info.detailDesc@ == text(row.detail_title)
    &&& info.mainUrl@ == text(row.main_url)
    &&& info.verifiedStatus == row.verified_status
    &&& info.saleStatus == 0
    &&& info.level_id == row.level_id
    &&& info.prdt_type_id == row.prdt_type_id
    &&& info.brand_id == row.brand_id
}

/// `sku` is the SKU of product `product_id` as `row` gives it.
pub open spec fn sku_matches(sku: Sku, product_id: u64, row: SkuRow) -> bool {
    &&& sku.id == row.id
    &&& sku.product_id == product_id
    &&& sku.sku@ == text(row.sku_id)
    &&& sku.detail@ == text(row.detail)
    &&& sku.custom_price == row.custom_price
}

/// Some line among the first `n` of `rows` has the id `k`.
pub open spec fn row_occurs(rows: Seq<SkuRow>, n: int, k: u64) -> bool {
    exists|i: int| 0 <= i < n && #[trigger] rows[i].id == k
}

/// Line `i` is among the first `n` of `rows`, and none after it there has its id.
pub open spec fn is_last_row(rows: Seq<SkuRow>, n: int, i: int) -> bool {
    &&& 0 <= i < n
    &&& forall|j: int| i < j < n ==> #[trigger] rows[j].id != rows[i].id
}

/// `m` is the SKU collection of product `product_id` that the first `n`
/// lines of `rows` give: one SKU for each id that occurs, made from the last
/// line that has the id.
pub open spec fn skus_match(m: Map<u64, Sku>, product_id: u64, rows: Seq<SkuRow>, n: int) -> bool {
    &&& forall|k: u64| #[trigger] m.contains_key(k) <==> row_occurs(rows, n, k)
    &&& forall|i: int| #[trigger]
        is_last_row(rows, n, i) ==> m.contains_key(rows[i].id) && sku_matches(
            m[rows[i].id],
            product_id,
            rows[i],
        )
}

/// `m` is what a SKU query with the given outcome gives for product
/// `product_id`: nothing where the query failed.
pub open spec fn skus_loaded(m: Map<u64, Sku>, product_id: u64, outcome: Option<Vec<SkuRow>>) -> bool {
    match outcome {
        Some(rows) => skus_match(m, product_id, rows@, rows@.len() as int),
        None => m == Map::<u64, Sku>::empty(),
    }
}

/// The text of a column, empty where the column is absent.
pub fn text_or_empty(column: &Option<String>) -> (r: String)
    ensures
        r@ == text(*column),
{
    match column {
        Some(s) => s.clone(),
        None => String::new(),
    }
}

/// The header of product `id` from its line in the store.
pub fn header_from_row(id: u64, row: &HeaderRow) -> (r: ProductInfo)
    ensures
        header_matches(r, id, *row),
{
    ProductInfo::new(
        id,
        text_or_empty(&row.product_name),
        text_or_empty(&row.detail_title),
        text_or_empty(&row.main_url),
        row.verified_status,
        row.level_id,
        row.prdt_type_id,
        row.brand_id,
    )
}

/// The SKU of product `product_id` from its line in the store.
pub fn sku_from_row(product_id: u64, row: &SkuRow) -> (r: Sku)
    ensures
        sku_matches(r, product_id, *row),
{
    Sku {
        id: row.id,
        product_id,
        sku: text_or_empty(&row.sku_id),
        detail: text_or_empty(&row.detail),
        custom_price: row.custom_price,
    }
}

/// The SKU collection of product `product_id` from the lines of its SKU
/// query, each SKU under its id; of two lines with one id the later stays.
pub fn skus_from_rows(product_id: u64, rows: &Vec<SkuRow>) -> (m: BTreeMap<u64, Sku>)
    ensures
        skus_match(m@, product_id, rows@, rows@.len() as int),
{
    let mut m: BTreeMap<u64, Sku> = BTreeMap::new();
    let n: usize = rows.len();
    let mut i: usize = 0;
    proof {
        assert forall|k: u64| !row_occurs(rows@, 0, k) by {}
    }
    while i < n
        invariant
            n == rows@.len(),
            i <= n,
            skus_match(m@, product_id, rows@, i as int),
        decreases n - i,
    {
        let ghost before = m@;
        let sku = sku_from_row(product_id, &rows[i]);
        m.insert(sku.id, sku);
        proof {
            let now = m@;
            let top = rows@[i as int];
            assert forall|k: u64| #[trigger] now.contains_key(k) <==> row_occurs(rows@, i + 1, k) by {
                if now.contains_key(k) {
                    if k == top.id {
                        assert(rows@[i as int].id == k);
                    } else {
                        assert(before.contains_key(k));
                        let j = choose|j: int| 0 <= j < i && #[trigger] rows@[j].id == k;
                        assert(rows@[j].id == k);
                    }
                }
                if row_occurs(rows@, i + 1, k) {
                    let j = choose|j: int| 0 <= j < i + 1 && #[trigger] rows@[j].id == k;
                    if j < i {
                        assert(row_occurs(rows@, i as int, k));
                    }
                }
            }
            assert forall|j: int| #[trigger] is_last_row(rows@, i + 1, j) implies now.contains_key(
                rows@[j].id,
            ) && sku_matches(now[rows@[j].id], product_id, rows@[j]) by {
                if j < i {
                    assert(rows@[i as int].id != rows@[j].id);
                    assert(is_last_row(rows@, i as int, j));
                }
            }
        }
        i = i + 1;
    }
    m
}

/// The SKU collection of product `product_id` from the outcome of its SKU
/// query. A query that failed gives an empty collection, never an error.
pub fn load_skus(product_id: &u64, outcome: &Option<Vec<SkuRow>>) -> (m: BTreeMap<u64, Sku>)
    ensures
        skus_loaded(m@, *product_id, *outcome),
{
    match outcome {
        Some(rows) => skus_from_rows(*product_id, rows),
        None => BTreeMap::new(),
    }
}

/// `p` is the aggregate of product `id` that the header line and the
/// outcome of the SKU query give.
pub open spec fn assembled(p: Product, id: u64, header: HeaderRow, skus: Option<Vec<SkuRow>>) -> bool {
    &&& header_matches(p.info(), id, header)
    &&& skus_loaded(p.skus(), id, skus)
}

/// The largest index under `n` whose line has the id `k`, if there is one.
pub open spec fn last_row(rows: Seq<SkuRow>, n: int, k: u64) -> int
    decreases n,
{
    if n <= 0 {
        -1
    } else if rows[n - 1].id == k {
        n - 1
    } else {
        last_row(rows, n - 1, k)
    }
}

/// Where an id occurs among the lines, `last_row` finds its last occurrence.
pub proof fn lemma_last_row(rows: Seq<SkuRow>, n: int, k: u64)
    requires
        0 <= n <= rows.len(),
        row_occurs(rows, n, k),
    ensures
        is_last_row(rows, n, last_row(rows, n, k)),
        rows[last_row(rows, n, k)].id == k,
    decreases n,
{
    if rows[n - 1].id != k {
        let i = choose|i: int| 0 <= i < n && #[trigger] rows[i].id == k;
        assert(i < n - 1);
        assert(row_occurs(rows, n - 1, k));
        lemma_last_row(rows, n - 1, k);
    }
}

/// A SKU collection that was loaded holds every SKU under its own id, and
/// every SKU names the product that it was loaded for.
pub proof fn lemma_loaded_consistent(m: Map<u64, Sku>, product_id: u64, outcome: Option<Vec<SkuRow>>)
    requires
        skus_loaded(m, product_id, outcome),
    ensures
        keyed_by_id(m),
        owned_by(m, product_id),
{
    if let Some(rows) = outcome {
        let n = rows@.len() as int;
        assert forall|k: u64| #[trigger] m.contains_key(k) implies m[k].id == k && m[k].product_id
            == product_id by {
            lemma_last_row(rows@, n, k);
            let j = last_row(rows@, n, k);
            assert(is_last_row(rows@, n, j));
            assert(sku_matches(m[rows@[j].id], product_id, rows@[j]));
        }
    }
}

/// An aggregate that was assembled for product `id` has that id and is
/// consistent.
pub proof fn lemma_assembled_consistent(p: Product, id: u64, header: HeaderRow, skus: Option<Vec<SkuRow>>)
    requires
        assembled(p, id, header, skus),
    ensures
        p.info().productId == id,
        p.consistent(),
{
    lemma_loaded_consistent(p.skus(), id, skus);
}

/// The aggregate of product `id` from its header line and the outcome of
/// its SKU query.
pub fn assemble(id: u64, header: &HeaderRow, skus: &Option<Vec<SkuRow>>) -> (p: Product)
    ensures
        assembled(p, id, *header, *skus),
        p.consistent(),
{
    let p = Product::new(header_from_row(id, header), load_skus(&id, skus));
    proof {
        lemma_assembled_consistent(p, id, *header, *skus);
    }
    p
}

/// `out` holds one aggregate for each product that a bulk query found, in
/// the order of the query; nothing where the query failed.
pub open spec fn products_loaded(out: Seq<Product>, loaded: Option<Vec<LoadedProduct>>) -> bool {
    match loaded {
        Some(found) => {
            &&& out.len() == found@.len()
            &&& forall|i: int|
                0 <= i < out.len() ==> assembled(
                    #[trigger] out[i],
                    found@[i].id,
                    found@[i].header,
                    found@[i].skus,
                )
        },
        None => out.len() == 0,
    }
}

/// The aggregates of what a bulk query found, in the order of the query. A
/// query that failed gives an empty list, never an error.
pub fn products_from_loaded(loaded: &Option<Vec<LoadedProduct>>) -> (out: Vec<Product>)
    ensures
        products_loaded(out@, *loaded),
{
    let mut out: Vec<Product> = Vec::new();
    match loaded {
        Some(found) => {
            let n: usize = found.len();
            let mut i: usize = 0;
            while i < n
                invariant
                    n == found@.len(),
                    i <= n,
                    out@.len() == i,
                    forall|j: int|
                        0 <= j < i ==> assembled(
                            #[trigger] out@[j],
                            found@[j].id,
                            found@[j].header,
                            found@[j].skus,
                        ),
                decreases n - i,
            {
                let item = &found[i];
                out.push(assemble(item.id, &item.header, &item.skus));
                i = i + 1;
            }
        },
        None => {},
    }
    out
}

/// The products of a producer, from what the query by producer found. The
/// cache takes no part: the caller owns the result.
pub fn get_producer_products(loaded: &Option<Vec<LoadedProduct>>) -> (out: Vec<Product>)
    ensures
        products_loaded(out@, *loaded),
{
    products_from_loaded(loaded)
}

/// The products of a tenant, from what the query by tenant found. The cache
/// takes no part: the caller owns the result.
pub fn get_tenant_products(loaded: &Option<Vec<LoadedProduct>>) -> (out: Vec<Product>)
    ensures
        products_loaded(out@, *loaded),
{
    products_from_loaded(loaded)
}

} // verus!
