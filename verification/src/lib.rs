//! Verified core of a condominium administration store: a declarative
//! schema catalog, a forward-only versioned migration ledger with an
//! atomic runner, and the cross-entity business invariants enforced on
//! every write (uniqueness, referential actions, enumerated domains,
//! credit-payment consistency, split allocation, single default account).

pub mod catalog;
pub mod domain;
pub mod ledger;
pub mod records;
pub mod runner;
pub mod writes;
