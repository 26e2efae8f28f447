//! Product catalog: the domain records of a multi-tenant catalog, the product
//! aggregate with its keyed SKU collection, the read-through cache over
//! products and sale listings, and the decision logic of the atomic import.
#![allow(non_snake_case)]

pub mod cache;
pub mod config;
pub mod import;
pub mod increasing;
pub mod laws;
pub mod order;
pub mod product;
pub mod repository;
pub mod sale;
pub mod utils;
