//! Verified core of a to-do list kept in a Datomic-style store: the data model of
//! items, labels and categories, the text of every transaction and query the list
//! sends to the store, and the decoding of what the store answers.

pub mod categories;
pub mod ids;
pub mod items;
pub mod labels;
pub mod laws;
pub mod queries;
pub mod text;
pub mod timespec;
pub mod transactions;
pub mod values;
