//! A static reflection registry: from the field layout of a record type it
//! builds, once, an immutable table that maps each field name to a typed
//! accessor, looked up in constant time through a perfect hash table.

pub mod value;
pub mod perfect_hash;
pub mod accessor;
pub mod registry;
