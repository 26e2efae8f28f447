//! The atomic import of a product with its SKUs.
//!
//! An import is a run of statements inside one transaction of the store:
//! one header line, then one line for each SKU, then a commit if every
//! statement succeeded and a rollback if one failed. The statements run
//! elsewhere; an `Import` decides which one is next and what the run
//! reports, from the outcome of each statement so far.
use vstd::prelude::*;

verus! {

/// One SKU of a product that is being imported.
#[derive(Debug)]
pub struct ProductImportSku {
    pub detail: String,
    pub sku: String,
    pub custom_price: i32,
}

impl Clone for ProductImportSku {
    fn clone(&self) -> (r: Self)
        ensures
            r == *self,
    {
        ProductImportSku {
            detail: self.detail.clone(),
            sku: self.sku.clone(),
            custom_price: self.custom_price,
        }
    }
}

/// The header line that an import inserts. A product that a tenant owns
/// has the tenant in `tent_id` and zero in `sources_id`; one that a
/// producer owns has the producer in `sources_id` and zero in `tent_id`.
#[derive(Debug)]
pub struct HeaderInsert {
    pub tent_id: u64,
    pub sources_id: u64,
    pub product_id: u64,
    pub name: String,
    pub desc: String,
    pub url: String,
}

impl Clone for HeaderInsert {
    fn clone(&self) -> (r: Self)
        ensures
            r == *self,
    {
        HeaderInsert {
            tent_id: self.tent_id,
            sources_id: self.sources_id,
            product_id: self.product_id,
            name: self.name.clone(),
            desc: self.desc.clone(),
            url: self.url.clone(),
        }
    }
}

/// One SKU line that an import inserts.
#[derive(Debug)]
pub struct SkuInsert {
    pub product_id: u64,
    pub sku: String,
    pub detail: String,
    pub custom_price: i32,
}

/// The statement that an import asks for next, or its report.
#[derive(Debug)]
pub enum ImportAction {
    /// Begin a transaction.
    Begin,
    /// Insert the header line.
    InsertHeader(HeaderInsert),
    /// Insert one SKU line.
    InsertSku(SkuInsert),
    /// Commit the transaction.
    Commit,
    /// Roll the transaction back.
    Rollback,
    /// The import is over: `true` if all of it is in the store, `false` if
    /// none of it is.
    Report(bool),
}

/// How far an import has come. `Sku(i)` stands before the insert of SKU `i`.
#[derive(Debug, Clone, Copy, PartialEq, Eq, Structural)]
pub enum Stage {
    Begin,
    Header,
    Sku(usize),
    Commit,
    Rollback,
    Finished(bool),
}

/// The stage that follows `stage` in an import of `n` SKUs, when the
/// statement of `stage` ended with `ok`. A failed insert leads to the
/// rollback at once; the commit is reached only over every insert.
pub open spec fn next_stage(stage: Stage, n: nat, ok: bool) -> Stage {
    match stage {
        Stage::Begin => if ok {
            Stage::Header
        } else {
            Stage::Finished(false)
        },
        Stage::Header => if !ok {
            Stage::Rollback
        } else if n == 0 {
            Stage::Commit
        } else {
            Stage::Sku(0)
        },
        Stage::Sku(i) => if !ok {
            Stage::Rollback
        } else if i + 1 < n && i < usize::MAX {
            Stage::Sku((i + 1) as usize)
        } else {
            Stage::Commit
        },
        Stage::Commit => Stage::Finished(ok),
        Stage::Rollback => Stage::Finished(false),
        Stage::Finished(b) => Stage::Finished(b),
    }
}

/// The SKU line of product `product_id` for the imported SKU `s`.
pub open spec fn sku_line(product_id: u64, s: ProductImportSku) -> SkuInsert {
    SkuInsert { product_id, sku: s.sku, detail: s.detail, custom_price: s.custom_price }
}

/// The statement of `stage` in the import of `header` with `skus`.
pub open spec fn action_of(header: HeaderInsert, skus: Seq<ProductImportSku>, stage: Stage) -> ImportAction {
    match stage {
        Stage::Begin => ImportAction::Begin,
        Stage::Header => ImportAction::InsertHeader(header),
        Stage::Sku(i) => ImportAction::InsertSku(sku_line(header.product_id, skus[i as int])),
        Stage::Commit => ImportAction::Commit,
        Stage::Rollback => ImportAction::Rollback,
        Stage::Finished(b) => ImportAction::Report(b),
    }
}

/// A running import: what is to be inserted, and how far the run has come.
#[derive(Debug)]
pub struct Import {
    header: HeaderInsert,
    skus: Vec<ProductImportSku>,
    stage: Stage,
}

impl Import {
    /// The header line of the import.
    pub closed spec fn header(&self) -> HeaderInsert {
        self.header
    }

    /// The SKUs of the import, in the order in which they are inserted.
    pub closed spec fn skus(&self) -> Seq<ProductImportSku> {
        self.skus@
    }

    /// How far the import has come.
    pub closed spec fn stage(&self) -> Stage {
        self.stage
    }

    /// An import never stands before a SKU that it does not have.
    #[verifier::type_invariant]
    closed spec fn in_range(&self) -> bool {
        self.stage matches Stage::Sku(i) ==> i < self.skus@.len()
    }

    /// An import of `header` with a copy of `sku`, before its first statement.
    fn begin(header: HeaderInsert, sku: &Vec<ProductImportSku>) -> (r: Import)
        ensures
            r.header() == header,
            r.skus() == sku@,
            r.stage() == Stage::Begin,
    {
        let mut skus: Vec<ProductImportSku> = Vec::new();
        let n: usize = sku.len();
        let mut i: usize = 0;
        while i < n
            invariant
                n == sku@.len(),
                i <= n,
                skus@ == sku@.subrange(0, i as int),
            decreases n - i,
        {
            skus.push(sku[i].clone());
            assert(skus@ =~= sku@.subrange(0, i + 1));
            i = i + 1;
        }
        assert(skus@ =~= sku@);
        Import { header, skus, stage: Stage::Begin }
    }

    /// The statement to run now, or the report once the import is over.
    pub fn action(&self) -> (r: ImportAction)
        ensures
            r == action_of(self.header(), self.skus(), self.stage()),
    {
        proof {
            use_type_invariant(self);
        }
        match self.stage {
            Stage::Begin => ImportAction::Begin,
            Stage::Header => ImportAction::InsertHeader(self.header.clone()),
            Stage::Sku(i) => {
                let s = &self.skus[i];
                ImportAction::InsertSku(
                    SkuInsert {
                        product_id: self.header.product_id,
                        sku: s.sku.clone(),
                        detail: s.detail.clone(),
                        custom_price: s.custom_price,
                    },
                )
            },
            Stage::Commit => ImportAction::Commit,
            Stage::Rollback => ImportAction::Rollback,
            Stage::Finished(b) => ImportAction::Report(b),
        }
    }

    /// Takes the outcome of the statement that `action` asked for and moves
    /// to the next stage. Once the import is over nothing changes any more.
    pub fn record(&mut self, ok: bool)
        ensures
            final(self).header() == old(self).header(),
            final(self).skus() == old(self).skus(),
            final(self).stage() == next_stage(old(self).stage(), old(self).skus().len(), ok),
    {
        proof {
            use_type_invariant(&*self);
        }
        let n: usize = self.skus.len();
        let next = match self.stage {
            Stage::Begin => if ok {
                Stage::Header
            } else {
                Stage::Finished(false)
            },
            Stage::Header => if !ok {
                Stage::Rollback
            } else if n == 0 {
                Stage::Commit
            } else {
                Stage::Sku(0)
            },
            Stage::Sku(i) => if !ok {
                Stage::Rollback
            } else if i + 1 < n {
                Stage::Sku(i + 1)
            } else {
                Stage::Commit
            },
            Stage::Commit => Stage::Finished(ok),
            Stage::Rollback => Stage::Finished(false),
            Stage::Finished(b) => Stage::Finished(b),
        };
        self.stage = next;
    }

    /// The report of the import once it is over, `None` while it runs.
    pub fn result(&self) -> (r: Option<bool>)
        ensures
            r == (match self.stage() {
                Stage::Finished(b) => Some(b),
                _ => None,
            }),
    {
        match self.stage {
            Stage::Finished(b) => Some(b),
            _ => None,
        }
    }
}

/// The import of a product that tenant `tid` owns: the header line names
/// the tenant and no producer.
pub fn import_self_product(
    tid: u64,
    product_id: u64,
    name: String,
    desc: String,
    url: String,
    sku: &Vec<ProductImportSku>,
) -> (r: Import)
    ensures
        r.header() == (HeaderInsert { tent_id: tid, sources_id: 0, product_id, name, desc, url }),
        r.skus() == sku@,
        r.stage() == Stage::Begin,
{
    Import::begin(HeaderInsert { tent_id: tid, sources_id: 0, product_id, name, desc, url }, sku)
}

/// The import of a product that producer `pid` owns: the header line names
/// the producer and no tenant.
pub fn import_producer_product(
    pid: u64,
    product_id: u64,
    name: String,
    desc: String,
    url: String,
    sku: &Vec<ProductImportSku>,
) -> (r: Import)
    ensures
        r.header() == (HeaderInsert { tent_id: 0, sources_id: pid, product_id, name, desc, url }),
        r.skus() == sku@,
        r.stage() == Stage::Begin,
{
    Import::begin(HeaderInsert { tent_id: 0, sources_id: pid, product_id, name, desc, url }, sku)
}

} // verus!
