use product_catalog::import::{
    import_producer_product, import_self_product, Import, ImportAction, ProductImportSku,
};

fn skus(n: usize) -> Vec<ProductImportSku> {
    (0..n)
        .map(|i| ProductImportSku {
            detail: format!("detail{}", i),
            sku: format!("S-{}", i),
            custom_price: 100 + i as i32,
        })
        .collect()
}

fn kind(a: &ImportAction) -> String {
    match a {
        ImportAction::Begin => "begin".to_string(),
        ImportAction::InsertHeader(h) => format!("header:{}", h.product_id),
        ImportAction::InsertSku(s) => format!("sku:{}", s.sku),
        ImportAction::Commit => "commit".to_string(),
        ImportAction::Rollback => "rollback".to_string(),
        ImportAction::Report(b) => format!("report:{}", b),
    }
}

/// Runs the import to its report; statement number `fail_at` fails, counted from zero.
fn drive(mut import: Import, fail_at: Option<usize>) -> (Vec<String>, bool) {
    let mut trace = Vec::new();
    let mut at = 0;
    loop {
        let action = import.action();
        trace.push(kind(&action));
        if let ImportAction::Report(b) = action {
            assert_eq!(import.result(), Some(b));
            return (trace, b);
        }
        assert_eq!(import.result(), None);
        import.record(fail_at != Some(at));
        at += 1;
    }
}

fn self_import(n: usize) -> Import {
    import_self_product(7, 42, "Widget".to_string(), "desc".to_string(), "url".to_string(), &skus(n))
}

#[test]
fn self_import_header_names_the_tenant() {
    let mut i = self_import(1);
    assert!(matches!(i.action(), ImportAction::Begin));
    i.record(true);
    match i.action() {
        ImportAction::InsertHeader(h) => {
            assert_eq!(h.tent_id, 7);
            assert_eq!(h.sources_id, 0);
            assert_eq!(h.product_id, 42);
            assert_eq!(h.name, "Widget");
            assert_eq!(h.desc, "desc");
            assert_eq!(h.url, "url");
        }
        other => panic!("unexpected action {:?}", other),
    }
}

#[test]
fn producer_import_header_names_the_producer() {
    let mut i = import_producer_product(
        9,
        42,
        "Widget".to_string(),
        "desc".to_string(),
        "url".to_string(),
        &skus(1),
    );
    i.record(true);
    match i.action() {
        ImportAction::InsertHeader(h) => {
            assert_eq!(h.tent_id, 0);
            assert_eq!(h.sources_id, 9);
            assert_eq!(h.product_id, 42);
            assert_eq!(h.name, "Widget");
        }
        other => panic!("unexpected action {:?}", other),
    }
}

#[test]
fn sku_insert_carries_the_product_id_and_the_sku_fields() {
    let mut i = self_import(2);
    i.record(true);
    i.record(true);
    match i.action() {
        ImportAction::InsertSku(s) => {
            assert_eq!(s.product_id, 42);
            assert_eq!(s.sku, "S-0");
            assert_eq!(s.detail, "detail0");
            assert_eq!(s.custom_price, 100);
        }
        other => panic!("unexpected action {:?}", other),
    }
    i.record(true);
    match i.action() {
        ImportAction::InsertSku(s) => {
            assert_eq!(s.sku, "S-1");
            assert_eq!(s.detail, "detail1");
            assert_eq!(s.custom_price, 101);
        }
        other => panic!("unexpected action {:?}", other),
    }
}

#[test]
fn import_that_succeeds_commits_and_reports_true() {
    let (trace, ok) = drive(self_import(3), None);
    assert_eq!(
        trace,
        vec!["begin", "header:42", "sku:S-0", "sku:S-1", "sku:S-2", "commit", "report:true"]
    );
    assert!(ok);
}

#[test]
fn import_without_skus_inserts_the_header_and_commits() {
    let (trace, ok) = drive(self_import(0), None);
    assert_eq!(trace, vec!["begin", "header:42", "commit", "report:true"]);
    assert!(ok);
}

#[test]
fn failed_begin_reports_false_without_any_statement() {
    let (trace, ok) = drive(self_import(2), Some(0));
    assert_eq!(trace, vec!["begin", "report:false"]);
    assert!(!ok);
}

#[test]
fn failed_header_insert_rolls_back() {
    let (trace, ok) = drive(self_import(2), Some(1));
    assert_eq!(trace, vec!["begin", "header:42", "rollback", "report:false"]);
    assert!(!ok);
}

#[test]
fn failed_sku_insert_stops_at_once_and_rolls_back() {
    let (trace, ok) = drive(self_import(3), Some(3));
    assert_eq!(
        trace,
        vec!["begin", "header:42", "sku:S-0", "sku:S-1", "rollback", "report:false"]
    );
    assert!(!ok);
}

#[test]
fn failed_last_sku_insert_rolls_back() {
    let (trace, ok) = drive(self_import(2), Some(3));
    assert_eq!(
        trace,
        vec!["begin", "header:42", "sku:S-0", "sku:S-1", "rollback", "report:false"]
    );
    assert!(!ok);
}

#[test]
fn failed_commit_reports_false() {
    let (trace, ok) = drive(self_import(1), Some(3));
    assert_eq!(trace, vec!["begin", "header:42", "sku:S-0", "commit", "report:false"]);
    assert!(!ok);
}

#[test]
fn failed_rollback_reports_false() {
    let mut i = self_import(1);
    i.record(true);
    i.record(false);
    assert!(matches!(i.action(), ImportAction::Rollback));
    i.record(false);
    assert!(matches!(i.action(), ImportAction::Report(false)));
    assert_eq!(i.result(), Some(false));
}

#[test]
fn finished_import_stays_finished() {
    let mut i = self_import(0);
    i.record(true);
    i.record(true);
    i.record(true);
    assert_eq!(i.result(), Some(true));
    i.record(false);
    assert_eq!(i.result(), Some(true));
    assert!(matches!(i.action(), ImportAction::Report(true)));
}

#[test]
fn import_keeps_its_own_copy_of_the_skus() {
    let mut list = skus(1);
    let mut i = self_import(1);
    list[0].sku = "CHANGED".to_string();
    i.record(true);
    i.record(true);
    match i.action() {
        ImportAction::InsertSku(s) => assert_eq!(s.sku, "S-0"),
        other => panic!("unexpected action {:?}", other),
    }
}

#[test]
fn import_sku_clone_is_a_copy() {
    let s = ProductImportSku { detail: "d".to_string(), sku: "s".to_string(), custom_price: -3 };
    let c = s.clone();
    assert_eq!(c.detail, "d");
    assert_eq!(c.sku, "s");
    assert_eq!(c.custom_price, -3);
}
