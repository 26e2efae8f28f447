//! Sale listings: the stats of a product that is on sale, and the record
//! that joins them with the product's header for presentation.
use vstd::prelude::*;
use crate::product::ProductInfo;

verus! {

/// The stats of a product that a shop has listed for sale. Two values are
/// equal when every field agrees.
#[derive(Debug, PartialEq, Eq, Structural)]
pub struct SaleProductInfo {
    pub productId: u64,
    pub monthBeforeIncome: i32,
    pub monthBeforeCharge: i32,
    pub saleCount: i32,
    pub selectionType: i32,
    pub stockTotal: i32,
}

impl Clone for SaleProductInfo {
    fn clone(&self) -> (r: Self)
        ensures
            r == *self,
    {
        SaleProductInfo {
            productId: self.productId,
            monthBeforeIncome: self.monthBeforeIncome,
            monthBeforeCharge: self.monthBeforeCharge,
            saleCount: self.saleCount,
            selectionType: self.selectionType,
            stockTotal: self.stockTotal,
        }
    }
}

impl SaleProductInfo {
    /// The listing of product `id` with the given stats.
    pub fn new(id: u64, mbi: i32, mbc: i32, sc: i32, _type: i32, st: i32) -> (r: SaleProductInfo)
        ensures
            r == (SaleProductInfo {
                productId: id,
                monthBeforeIncome: mbi,
                monthBeforeCharge: mbc,
                saleCount: sc,
                selectionType: _type,
                stockTotal: st,
            }),
    {
        SaleProductInfo {
            productId: id,
            monthBeforeIncome: mbi,
            monthBeforeCharge: mbc,
            saleCount: sc,
            selectionType: _type,
            stockTotal: st,
        }
    }

    /// The listing of product `id` before any stat is known: all zero.
    pub open spec fn blank(id: u64) -> SaleProductInfo {
        SaleProductInfo {
            productId: id,
            monthBeforeIncome: 0,
            monthBeforeCharge: 0,
            saleCount: 0,
            selectionType: 0,
            stockTotal: 0,
        }
    }

    /// Whether `other` describes the same product, which is what `update`
    /// asks of its argument.
    pub fn same_product(&self, other: &SaleProductInfo) -> (r: bool)
        ensures
            r == (self.productId == other.productId),
    {
        self.productId == other.productId
    }

    /// Takes every stat from `other`, which must describe the same product.
    /// Afterwards the two are equal.
    pub fn update(&mut self, other: &SaleProductInfo)
        requires
            old(self).productId == other.productId,
        ensures
            *final(self) == *other,
    {
        self.monthBeforeCharge = other.monthBeforeCharge;
        self.monthBeforeIncome = other.monthBeforeIncome;
        self.saleCount = other.saleCount;
        self.selectionType = other.selectionType;
        self.stockTotal = other.stockTotal;
    }
}

/// A product header together with the stats of its sale listing.
#[derive(Debug)]
pub struct SaleProductData {
    pub product: ProductInfo,
    pub monthBeforeIncome: i32,
    pub monthBeforeCharge: i32,
    pub saleCount: i32,
    pub selectionType: i32,
    pub stockTotal: i32,
}

impl Clone for SaleProductData {
    fn clone(&self) -> (r: Self)
        ensures
            r == *self,
    {
        SaleProductData {
            product: self.product.clone(),
            monthBeforeIncome: self.monthBeforeIncome,
            monthBeforeCharge: self.monthBeforeCharge,
            saleCount: self.saleCount,
            selectionType: self.selectionType,
            stockTotal: self.stockTotal,
        }
    }
}

impl SaleProductData {
    /// Joins the header `prod` with the stats of `sale_info`. The id of
    /// `sale_info` is not carried over: the header names the product.
    pub fn new(prod: ProductInfo, sale_info: SaleProductInfo) -> (r: SaleProductData)
        ensures
            r == (SaleProductData {
                product: prod,
                monthBeforeIncome: sale_info.monthBeforeIncome,
                monthBeforeCharge: sale_info.monthBeforeCharge,
                saleCount: sale_info.saleCount,
                selectionType: sale_info.selectionType,
                stockTotal: sale_info.stockTotal,
            }),
    {
        SaleProductData {
            product: prod,
            monthBeforeIncome: sale_info.monthBeforeIncome,
            monthBeforeCharge: sale_info.monthBeforeCharge,
            saleCount: sale_info.saleCount,
            selectionType: sale_info.selectionType,
            stockTotal: sale_info.stockTotal,
        }
    }
}

} // verus!
