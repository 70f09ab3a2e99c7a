//! Issuance and redemption controller for a fiat-pegged token.
//!
//! The library is the logic of the controller: the configuration record with
//! its pause flag and metadata budgets, the price adapter that validates an
//! oracle sample, the conversion engine that turns a fiat amount into a
//! token-unit count by exact fixed-point arithmetic, the authority guard, and
//! the issuance state machine composing them.
//!
//! The hosting ledger (account persistence, signature checks, derivation of
//! the mint authority) and the fungible-token primitive it calls are external
//! collaborators: they hand this library plain values and carry out the
//! actions it decides.  Their effect on supply and balances is modeled in
//! [`ledger`] so that the controller's promises about them can be stated and
//! proved.

pub mod account;
pub mod config;
pub mod controller;
pub mod conversion;
pub mod errors;
pub mod laws;
pub mod ledger;
pub mod oracle;
