use product_catalog::cache::{
    get_product, get_product_info, get_product_skus, get_sale_product, get_sale_products,
    CacheStore, Event, SaleEvent, SaleStep, Step,
};
use product_catalog::repository::{HeaderRow, SkuRow};
use product_catalog::sale::SaleProductInfo;

fn header(name: &str) -> HeaderRow {
    HeaderRow {
        product_name: Some(name.to_string()),
        detail_title: None,
        main_url: None,
        verified_status: 1,
        level_id: 2,
        prdt_type_id: 3,
        brand_id: 4,
    }
}

fn sku_row(id: u64, code: &str) -> SkuRow {
    SkuRow { id, sku_id: Some(code.to_string()), custom_price: 1.0f32.to_bits(), detail: None }
}

#[test]
fn new_store_holds_nothing() {
    let c = CacheStore::new();
    assert!(c.cached_product(1).is_none());
    assert!(c.cached_sale(1).is_none());
}

#[test]
fn lookup_of_an_unseen_id_loads_header_then_skus_once() {
    let mut c = CacheStore::new();
    assert!(matches!(get_product(&mut c, &42, Event::Start), Step::LoadHeader));
    assert!(c.cached_product(42).is_none());
    let h = match get_product(&mut c, &42, Event::Header(Some(header("Widget")))) {
        Step::LoadSkus(h) => h,
        other => panic!("unexpected step {:?}", other),
    };
    assert_eq!(h.product_name.as_deref(), Some("Widget"));
    assert!(c.cached_product(42).is_none());
    let p = match get_product(&mut c, &42, Event::Skus(h, Some(vec![sku_row(1, "W-1")]))) {
        Step::Done(Some(p)) => p,
        other => panic!("unexpected step {:?}", other),
    };
    assert_eq!(p.get_id(), 42);
    assert_eq!(p.get_info().productName, "Widget");
    assert_eq!(p.get_skus().len(), 1);
    assert_eq!(p.get_skus()[0].sku, "W-1");
    assert_eq!(p.get_skus()[0].product_id, 42);
}

#[test]
fn second_lookup_is_answered_from_the_cache() {
    let mut c = CacheStore::new();
    get_product(&mut c, &42, Event::Skus(header("Widget"), Some(vec![sku_row(1, "W-1")])));
    match get_product(&mut c, &42, Event::Start) {
        Step::Done(Some(p)) => {
            assert_eq!(p.get_id(), 42);
            assert_eq!(p.get_info().productName, "Widget");
            assert_eq!(p.get_skus().len(), 1);
        }
        other => panic!("unexpected step {:?}", other),
    }
    assert!(matches!(get_product(&mut c, &43, Event::Start), Step::LoadHeader));
}

#[test]
fn product_that_the_store_lacks_is_not_found_and_not_cached() {
    let mut c = CacheStore::new();
    assert!(matches!(get_product(&mut c, &5, Event::Header(None)), Step::Done(None)));
    assert!(c.cached_product(5).is_none());
    assert!(matches!(get_product(&mut c, &5, Event::Start), Step::LoadHeader));
}

#[test]
fn failed_sku_query_caches_the_product_without_skus() {
    let mut c = CacheStore::new();
    match get_product(&mut c, &5, Event::Skus(header("n"), None)) {
        Step::Done(Some(p)) => assert!(p.get_skus().is_empty()),
        other => panic!("unexpected step {:?}", other),
    }
    assert!(c.cached_product(5).is_some());
}

#[test]
fn of_two_concurrent_misses_the_later_insert_stays() {
    let mut c = CacheStore::new();
    assert!(matches!(get_product(&mut c, &7, Event::Start), Step::LoadHeader));
    assert!(matches!(get_product(&mut c, &7, Event::Start), Step::LoadHeader));
    let ha = match get_product(&mut c, &7, Event::Header(Some(header("first")))) {
        Step::LoadSkus(h) => h,
        other => panic!("unexpected step {:?}", other),
    };
    let hb = match get_product(&mut c, &7, Event::Header(Some(header("second")))) {
        Step::LoadSkus(h) => h,
        other => panic!("unexpected step {:?}", other),
    };
    match get_product(&mut c, &7, Event::Skus(ha, Some(vec![sku_row(1, "A")]))) {
        Step::Done(Some(p)) => assert_eq!(p.get_info().productName, "first"),
        other => panic!("unexpected step {:?}", other),
    }
    match get_product(&mut c, &7, Event::Skus(hb, Some(vec![sku_row(2, "B")]))) {
        Step::Done(Some(p)) => assert_eq!(p.get_info().productName, "second"),
        other => panic!("unexpected step {:?}", other),
    }
    let kept = c.cached_product(7).unwrap();
    assert_eq!(kept.get_info().productName, "second");
    assert_eq!(kept.get_skus().len(), 1);
    assert_eq!(kept.get_skus()[0].sku, "B");
}

#[test]
fn caching_one_product_leaves_the_others() {
    let mut c = CacheStore::new();
    get_product(&mut c, &1, Event::Skus(header("one"), None));
    get_product(&mut c, &2, Event::Skus(header("two"), None));
    assert_eq!(c.cached_product(1).unwrap().get_info().productName, "one");
    assert_eq!(c.cached_product(2).unwrap().get_info().productName, "two");
    assert!(c.cached_sale(1).is_none());
}

#[test]
fn product_info_lookup_follows_the_product_lookup() {
    let mut c = CacheStore::new();
    assert!(matches!(get_product_info(&mut c, &42, Event::Start), Step::LoadHeader));
    assert!(matches!(get_product_info(&mut c, &42, Event::Header(None)), Step::Done(None)));
    assert!(matches!(
        get_product_info(&mut c, &42, Event::Header(Some(header("Widget")))),
        Step::LoadSkus(_)
    ));
    match get_product_info(&mut c, &42, Event::Skus(header("Widget"), None)) {
        Step::Done(Some(i)) => {
            assert_eq!(i.productId, 42);
            assert_eq!(i.productName, "Widget");
        }
        other => panic!("unexpected step {:?}", other),
    }
    match get_product_info(&mut c, &42, Event::Start) {
        Step::Done(Some(i)) => assert_eq!(i.productName, "Widget"),
        other => panic!("unexpected step {:?}", other),
    }
}

#[test]
fn product_skus_lookup_follows_the_product_lookup() {
    let mut c = CacheStore::new();
    assert!(matches!(get_product_skus(&mut c, &42, Event::Start), Step::LoadHeader));
    match get_product_skus(&mut c, &42, Event::Header(None)) {
        Step::Done(v) => assert!(v.is_empty()),
        other => panic!("unexpected step {:?}", other),
    }
    match get_product_skus(
        &mut c,
        &42,
        Event::Skus(header("Widget"), Some(vec![sku_row(9, "I"), sku_row(3, "C")])),
    ) {
        Step::Done(v) => {
            assert_eq!(v.len(), 2);
            assert_eq!(v[0].id, 3);
            assert_eq!(v[1].id, 9);
        }
        other => panic!("unexpected step {:?}", other),
    }
    match get_product_skus(&mut c, &42, Event::Start) {
        Step::Done(v) => assert_eq!(v.len(), 2),
        other => panic!("unexpected step {:?}", other),
    }
}

#[test]
fn sale_lookup_of_an_unseen_id_asks_the_store() {
    let mut c = CacheStore::new();
    assert_eq!(get_sale_product(&mut c, &5, SaleEvent::Start), SaleStep::LoadListing);
    assert!(c.cached_sale(5).is_none());
}

#[test]
fn sale_lookup_of_an_unlisted_product_finds_nothing() {
    let mut c = CacheStore::new();
    assert_eq!(get_sale_product(&mut c, &5, SaleEvent::Listing(false)), SaleStep::Done(None));
    assert!(c.cached_sale(5).is_none());
    assert_eq!(get_sale_product(&mut c, &5, SaleEvent::Start), SaleStep::LoadListing);
}

#[test]
fn sale_lookup_of_a_listed_product_caches_a_blank_listing() {
    let mut c = CacheStore::new();
    let blank = SaleProductInfo::new(5, 0, 0, 0, 0, 0);
    assert_eq!(
        get_sale_product(&mut c, &5, SaleEvent::Listing(true)),
        SaleStep::Done(Some(blank.clone()))
    );
    assert_eq!(c.cached_sale(5), Some(blank.clone()));
    assert_eq!(get_sale_product(&mut c, &5, SaleEvent::Start), SaleStep::Done(Some(blank)));
    assert!(c.cached_product(5).is_none());
}

#[test]
fn shop_listing_gives_a_blank_listing_for_each_id() {
    let mut c = CacheStore::new();
    let out = get_sale_products(&mut c, &Some(vec![3, 1, 3]));
    assert_eq!(
        out,
        vec![
            SaleProductInfo::new(3, 0, 0, 0, 0, 0),
            SaleProductInfo::new(1, 0, 0, 0, 0, 0),
            SaleProductInfo::new(3, 0, 0, 0, 0, 0),
        ]
    );
    assert_eq!(c.cached_sale(1), Some(SaleProductInfo::new(1, 0, 0, 0, 0, 0)));
    assert_eq!(c.cached_sale(3), Some(SaleProductInfo::new(3, 0, 0, 0, 0, 0)));
    assert!(c.cached_sale(2).is_none());
}

#[test]
fn shop_listing_of_a_failed_query_is_empty_and_caches_nothing() {
    let mut c = CacheStore::new();
    assert!(get_sale_products(&mut c, &None).is_empty());
    assert!(c.cached_sale(1).is_none());
}

#[test]
fn shop_listing_of_no_ids_is_empty() {
    let mut c = CacheStore::new();
    assert!(get_sale_products(&mut c, &Some(Vec::new())).is_empty());
}

#[test]
fn shop_listing_leaves_the_product_cache_alone() {
    let mut c = CacheStore::new();
    get_product(&mut c, &1, Event::Skus(header("one"), None));
    get_sale_products(&mut c, &Some(vec![1, 2]));
    assert_eq!(c.cached_product(1).unwrap().get_info().productName, "one");
    assert!(c.cached_product(2).is_none());
}
