//! Yuan conversion against a table of scraped exchange rates.
//!
//! The table lives in a [`store::RateStore`]; a cache load seeds it only while
//! it is empty, a network fetch always replaces it.  Rates are carried as the
//! bit pattern of an IEEE-754 double, so the table is plain integer data.

pub mod info;
pub mod store;
pub mod fetch;
pub mod cache;
pub mod report;
pub mod orchestrator;
