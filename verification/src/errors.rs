//! Error taxonomy of the issuance controller.

use vstd::prelude::*;

verus! {

/// A labeled failure of the issuance controller.  Every failure aborts the
/// whole operation with no state mutation and is surfaced verbatim to the
/// caller; none is retriable with the same input.
#[derive(Clone, Copy, Debug, PartialEq, Eq, Structural)]
pub enum StablecoinError {
    /// A supply-changing action was attempted while the record is paused.
    ProgramPaused,
    /// An administrative action was attempted by a caller other than the
    /// configured authority.
    Unauthorized,
    /// The oracle sample is present but cannot be represented as a usable
    /// rate.
    InvalidOracleData,
    /// The converted rate is zero or negative.
    InvalidOraclePrice,
    /// The computed token amount would be zero.
    InvalidTokenAmount,
    /// The oracle has no confirmed round yet.
    OracleNotInitialized,
}

/// A failure of configuration-record creation, raised before any record is
/// persisted.
#[derive(Clone, Copy, Debug, PartialEq, Eq, Structural)]
pub enum InitError {
    /// A metadata string exceeds its serialized byte budget.
    MetadataOversized,
}

/// A failure reported by the external fungible-token primitive when asked to
/// change supply or a balance.
#[derive(Clone, Copy, Debug, PartialEq, Eq, Structural)]
pub enum TokenError {
    /// The source balance is smaller than the amount to burn.
    InsufficientFunds,
    /// A supply or balance counter would leave the representable range.
    Overflow,
}

/// The outcome label of a supply-changing operation: either the controller
/// itself refused, or the token primitive it invoked failed.
#[derive(Clone, Copy, Debug, PartialEq, Eq, Structural)]
pub enum IssuanceError {
    /// The controller refused the operation before touching supply.
    Program(StablecoinError),
    /// The invoked token primitive failed; nothing was changed.
    Token(TokenError),
}

} // verus!
