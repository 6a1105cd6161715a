//! A waste-disposal report tracker built around a dual-indexed record store:
//! a primary map from report identifier to record, plus a secondary index
//! partitioned by lifecycle status. The two are kept in agreement by the
//! operation layer, and that agreement is stated and proved as an invariant.

pub mod types;
pub mod store;
pub mod index;
pub mod ops;
