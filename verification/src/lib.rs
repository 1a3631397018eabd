//! A verified, in-memory subscription-billing ledger.
//!
//! The ledger keeps two families of records, billing plans and subscriptions,
//! each keyed by a 256-bit identifier handed out by a counter. Every stored
//! field can be read back through a total accessor: an identifier that was
//! never handed out reads as the zero value of the field's type.

pub mod laws;
pub mod ledger;
pub mod primitives;
