//! The verified core of a product catalog: exact prices, search criteria
//! turned into bound query predicates, the meaning of each catalog query over
//! a snapshot of the catalog, and the outward records.

pub mod decimal;
pub mod dto;
pub mod error;
pub mod laws;
pub mod model;
pub mod predicate;
pub mod query;
pub mod repository;
pub mod service;
pub mod sql;
pub mod store;
pub mod text;
pub mod user;
