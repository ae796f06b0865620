//! A catalog of films kept in a key-value table: the films and their items,
//! the table's lifecycle, and the bulk load of a dataset in batches.
//!
//! The library decides and computes; it makes no call to the store. Whoever
//! drives it makes the calls and hands back what the store answered.
pub mod attribute;
pub mod ddb;
pub mod decimal;
pub mod handlers;
pub mod models;
