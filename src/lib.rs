//! A token presale engine: bonding-curve pricing, a project ledger,
//! a fee-gated token issuer and a time-lock escrow, each stated and proved
//! with Verus.

pub mod types;
pub mod pricing;
pub mod token_lock;
pub mod token_factory;
pub mod presale;
