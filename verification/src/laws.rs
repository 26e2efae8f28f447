//! Laws that relate several operations of the library.

pub mod aggregate;
pub mod caching;
pub mod importing;
