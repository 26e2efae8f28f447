use product_catalog::cache::{get_product, CacheStore, Event, Step};
use product_catalog::import::{import_self_product, HeaderInsert, ImportAction, ProductImportSku, SkuInsert};
use product_catalog::product::Product;
use product_catalog::repository::{HeaderRow, SkuRow};

/// A store in memory: the lines that are visible, and those of the open transaction.
struct Store {
    headers: Vec<HeaderInsert>,
    skus: Vec<SkuInsert>,
    pending_headers: Vec<HeaderInsert>,
    pending_skus: Vec<SkuInsert>,
    refuse_sku: Option<String>,
}

impl Store {
    fn new() -> Store {
        Store {
            headers: Vec::new(),
            skus: Vec::new(),
            pending_headers: Vec::new(),
            pending_skus: Vec::new(),
            refuse_sku: None,
        }
    }

    fn run(&mut self, action: ImportAction) -> bool {
        match action {
            ImportAction::Begin => {
                self.pending_headers.clear();
                self.pending_skus.clear();
                true
            }
            ImportAction::InsertHeader(h) => {
                self.pending_headers.push(h);
                true
            }
            ImportAction::InsertSku(s) => {
                if self.refuse_sku.as_deref() == Some(s.sku.as_str()) {
                    return false;
                }
                self.pending_skus.push(s);
                true
            }
            ImportAction::Commit => {
                self.headers.append(&mut self.pending_headers);
                self.skus.append(&mut self.pending_skus);
                true
            }
            ImportAction::Rollback => {
                self.pending_headers.clear();
                self.pending_skus.clear();
                true
            }
            ImportAction::Report(_) => true,
        }
    }

    fn header_of(&self, id: u64) -> Option<HeaderRow> {
        self.headers.iter().find(|h| h.product_id == id).map(|h| HeaderRow {
            product_name: Some(h.name.clone()),
            detail_title: Some(h.desc.clone()),
            main_url: Some(h.url.clone()),
            verified_status: 0,
            level_id: 0,
            prdt_type_id: 0,
            brand_id: 0,
        })
    }

    fn skus_of(&self, id: u64) -> Vec<SkuRow> {
        let mut rows = Vec::new();
        for (at, s) in self.skus.iter().enumerate() {
            if s.product_id == id {
                rows.push(SkuRow {
                    id: at as u64 + 1,
                    sku_id: Some(s.sku.clone()),
                    custom_price: (s.custom_price as f32).to_bits(),
                    detail: Some(s.detail.clone()),
                });
            }
        }
        rows
    }
}

fn import(store: &mut Store, tid: u64, id: u64, name: &str, skus: &Vec<ProductImportSku>) -> bool {
    let mut run = import_self_product(tid, id, name.to_string(), String::new(), String::new(), skus);
    loop {
        let action = run.action();
        if let ImportAction::Report(b) = action {
            return b;
        }
        let ok = store.run(action);
        run.record(ok);
    }
}

fn lookup(cache: &mut CacheStore, store: &Store, id: u64) -> Option<Product> {
    let mut event = Event::Start;
    loop {
        event = match get_product(cache, &id, event) {
            Step::Done(p) => return p,
            Step::LoadHeader => Event::Header(store.header_of(id)),
            Step::LoadSkus(h) => Event::Skus(h, Some(store.skus_of(id))),
        };
    }
}

fn widget_sku(code: &str) -> ProductImportSku {
    ProductImportSku { sku: code.to_string(), detail: "red".to_string(), custom_price: 100 }
}

#[test]
fn imported_widget_is_found_with_its_one_sku() {
    let mut store = Store::new();
    let mut cache = CacheStore::new();
    assert!(import(&mut store, 7, 42, "Widget", &vec![widget_sku("W-1")]));
    let p = lookup(&mut cache, &store, 42).unwrap();
    assert_eq!(p.get_id(), 42);
    assert_eq!(p.get_info().productName, "Widget");
    let skus = p.get_skus();
    assert_eq!(skus.len(), 1);
    assert_eq!(skus[0].sku, "W-1");
    assert_eq!(skus[0].detail, "red");
    assert_eq!(f32::from_bits(skus[0].custom_price), 100.0);
    assert_eq!(skus[0].product_id, 42);
    assert_eq!(store.headers[0].tent_id, 7);
    assert_eq!(store.headers[0].sources_id, 0);
}

#[test]
fn import_with_a_refused_sku_leaves_nothing_visible() {
    let mut store = Store::new();
    store.refuse_sku = Some("W-2".to_string());
    let mut cache = CacheStore::new();
    let list = vec![widget_sku("W-1"), widget_sku("W-2"), widget_sku("W-3")];
    assert!(!import(&mut store, 7, 42, "Widget", &list));
    assert!(store.headers.is_empty());
    assert!(store.skus.is_empty());
    assert!(lookup(&mut cache, &store, 42).is_none());
}

#[test]
fn import_that_succeeds_leaves_every_line_visible() {
    let mut store = Store::new();
    let list = vec![widget_sku("W-1"), widget_sku("W-2"), widget_sku("W-3")];
    assert!(import(&mut store, 7, 42, "Widget", &list));
    assert_eq!(store.headers.len(), 1);
    let codes: Vec<&str> = store.skus.iter().map(|s| s.sku.as_str()).collect();
    assert_eq!(codes, vec!["W-1", "W-2", "W-3"]);
}

#[test]
fn product_cached_before_a_later_import_stays_as_it_was_cached() {
    let mut store = Store::new();
    let mut cache = CacheStore::new();
    assert!(import(&mut store, 7, 42, "Widget", &vec![widget_sku("W-1")]));
    assert_eq!(lookup(&mut cache, &store, 42).unwrap().get_skus().len(), 1);
    store.skus.push(SkuInsert {
        product_id: 42,
        sku: "W-9".to_string(),
        detail: String::new(),
        custom_price: 1,
    });
    assert_eq!(lookup(&mut cache, &store, 42).unwrap().get_skus().len(), 1);
}
