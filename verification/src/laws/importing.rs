//! Laws of the import: what a whole run leaves in a transactional store.
use vstd::prelude::*;
use crate::import::{action_of, next_stage, sku_line, HeaderInsert, ImportAction, ProductImportSku, SkuInsert, Stage};

verus! {

/// A line that an import inserts.
pub enum Line {
    Header(HeaderInsert),
    Sku(SkuInsert),
}

/// A store with transactions, as far as an import meets it: the lines that
/// readers see, and those that the open transaction has inserted.
pub struct Ledger {
    pub visible: Seq<Line>,
    pub pending: Seq<Line>,
}

/// What a statement that ended with `ok` does to the store. An insert that
/// succeeds adds its line to the open transaction; a commit that succeeds
/// makes the lines of the transaction visible; everything else that ends a
/// transaction drops them.
pub open spec fn applied(ledger: Ledger, action: ImportAction, ok: bool) -> Ledger {
    match action {
        ImportAction::Begin => Ledger { visible: ledger.visible, pending: Seq::empty() },
        ImportAction::InsertHeader(h) => if ok {
            Ledger { visible: ledger.visible, pending: ledger.pending.push(Line::Header(h)) }
        } else {
            ledger
        },
        ImportAction::InsertSku(s) => if ok {
            Ledger { visible: ledger.visible, pending: ledger.pending.push(Line::Sku(s)) }
        } else {
            ledger
        },
        ImportAction::Commit => if ok {
            Ledger { visible: ledger.visible + ledger.pending, pending: Seq::empty() }
        } else {
            Ledger { visible: ledger.visible, pending: Seq::empty() }
        },
        ImportAction::Rollback => Ledger { visible: ledger.visible, pending: Seq::empty() },
        ImportAction::Report(_) => ledger,
    }
}

/// How many statements an import of `n` SKUs has before it at most.
pub open spec fn rank(stage: Stage, n: nat) -> nat {
    match stage {
        Stage::Begin => n + 4,
        Stage::Header => n + 3,
        Stage::Sku(i) => if i < n {
            (n - i + 2) as nat
        } else {
            2
        },
        Stage::Commit => 1,
        Stage::Rollback => 1,
        Stage::Finished(_) => 0,
    }
}

/// The report of the import and the store at its end, when the import
/// stands at `stage` with the store `ledger` and the statement of each
/// stage ends as `outcome` says.
pub open spec fn run(
    header: HeaderInsert,
    skus: Seq<ProductImportSku>,
    stage: Stage,
    ledger: Ledger,
    outcome: spec_fn(Stage) -> bool,
) -> (bool, Ledger)
    decreases rank(stage, skus.len()),
{
    match stage {
        Stage::Finished(b) => (b, ledger),
        _ => run(
            header,
            skus,
            next_stage(stage, skus.len(), outcome(stage)),
            applied(ledger, action_of(header, skus, stage), outcome(stage)),
            outcome,
        ),
    }
}

/// The lines of the first `n` SKUs of an import, in order.
pub open spec fn sku_lines(product_id: u64, skus: Seq<ProductImportSku>, n: int) -> Seq<Line>
    decreases n,
{
    if n <= 0 {
        Seq::empty()
    } else {
        sku_lines(product_id, skus, n - 1).push(Line::Sku(sku_line(product_id, skus[n - 1])))
    }
}

/// All lines of an import: the header line, then one for each SKU.
pub open spec fn all_lines(header: HeaderInsert, skus: Seq<ProductImportSku>) -> Seq<Line> {
    seq![Line::Header(header)] + sku_lines(header.product_id, skus, skus.len() as int)
}

/// Every insert from SKU `from` on succeeds.
pub open spec fn skus_ok(outcome: spec_fn(Stage) -> bool, from: int, n: int) -> bool {
    forall|i: int| from <= i < n ==> #[trigger] outcome(Stage::Sku(i as usize))
}

/// Every statement of an import of `n` SKUs succeeds.
pub open spec fn all_ok(outcome: spec_fn(Stage) -> bool, n: int) -> bool {
    &&& outcome(Stage::Begin)
    &&& outcome(Stage::Header)
    &&& skus_ok(outcome, 0, n)
    &&& outcome(Stage::Commit)
}

/// The run from before SKU `i` on, with the header line and the first `i`
/// SKU lines inserted: it reports success and shows all lines if the
/// remaining statements succeed, and else reports failure and shows none.
proof fn lemma_run_from_sku(
    header: HeaderInsert,
    skus: Seq<ProductImportSku>,
    visible: Seq<Line>,
    i: int,
    outcome: spec_fn(Stage) -> bool,
)
    requires
        skus.len() <= usize::MAX,
        0 <= i <= skus.len(),
    ensures
        ({
            let pending = seq![Line::Header(header)] + sku_lines(header.product_id, skus, i);
            let start = if i < skus.len() {
                Stage::Sku(i as usize)
            } else {
                Stage::Commit
            };
            let (report, end) = run(header, skus, start, Ledger { visible, pending }, outcome);
            let good = skus_ok(outcome, i, skus.len() as int) && outcome(Stage::Commit);
            &&& report == good
            &&& end.pending.len() == 0
            &&& end.visible == if good {
                visible + all_lines(header, skus)
            } else {
                visible
            }
        }),
    decreases skus.len() - i,
{
    let n = skus.len() as int;
    let pending = seq![Line::Header(header)] + sku_lines(header.product_id, skus, i);
    let ledger = Ledger { visible, pending };
    reveal_with_fuel(run, 3);
    if i < n {
        let stage = Stage::Sku(i as usize);
        if outcome(stage) {
            let line = Line::Sku(sku_line(header.product_id, skus[i]));
            assert(pending.push(line) =~= seq![Line::Header(header)] + sku_lines(
                header.product_id,
                skus,
                i + 1,
            ));
            lemma_run_from_sku(header, skus, visible, i + 1, outcome);
            assert(skus_ok(outcome, i, n) <==> skus_ok(outcome, i + 1, n)) by {
                if skus_ok(outcome, i + 1, n) {
                    assert forall|j: int| i <= j < n implies #[trigger] outcome(Stage::Sku(j as usize)) by {
                        if j == i {
                        }
                    }
                }
            }
        } else {
            assert(!skus_ok(outcome, i, n));
        }
    } else {
        assert(pending == all_lines(header, skus));
    }
}

/// Atomicity: an import that begins on a store that shows `visible` ends
/// with a report that is `true` exactly if every statement succeeded. Then
/// the store shows the header line and every SKU line of the import after
/// what it showed before. In every other case it shows what it showed
/// before, and no line of the import.
pub proof fn lemma_import_atomic(
    header: HeaderInsert,
    skus: Seq<ProductImportSku>,
    ledger: Ledger,
    outcome: spec_fn(Stage) -> bool,
)
    requires
        skus.len() <= usize::MAX,
    ensures
        ({
            let (report, end) = run(header, skus, Stage::Begin, ledger, outcome);
            let good = all_ok(outcome, skus.len() as int);
            &&& report == good
            &&& end.visible == if good {
                ledger.visible + all_lines(header, skus)
            } else {
                ledger.visible
            }
        }),
{
    let n = skus.len() as int;
    reveal_with_fuel(run, 4);
    if outcome(Stage::Begin) && outcome(Stage::Header) {
        assert(Seq::<Line>::empty().push(Line::Header(header)) =~= seq![Line::Header(header)] + sku_lines(
            header.product_id,
            skus,
            0,
        ));
        lemma_run_from_sku(header, skus, ledger.visible, 0, outcome);
    }
}

} // verus!
