//! Model of the external fungible-token primitive: the mint's supply
//! counter, per-holder balances, and the `mint_to` and `burn` operations the
//! controller invokes on them.  The hosting ledger owns the real objects;
//! this module states their documented effect on plain counters so the
//! controller's promises about supply and balances can be proved.

use crate::errors::TokenError;
use vstd::prelude::*;

verus! {

/// The supply counter of the fungible-token mint.
#[derive(Clone, Copy, Debug, PartialEq, Eq, Structural)]
pub struct MintState {
    /// Token units in existence.
    pub supply: u64,
}

/// One holder's balance object.
#[derive(Clone, Copy, Debug, PartialEq, Eq, Structural)]
pub struct TokenAccountState {
    /// Token units held.
    pub balance: u64,
}

/// Whether minting `amount` keeps both counters representable.
pub open spec fn mint_fits(mint: MintState, dest: TokenAccountState, amount: u64) -> bool {
    &&& mint.supply + amount <= u64::MAX
    &&& dest.balance + amount <= u64::MAX
}

/// The counters after a successful mint of `amount`.
pub open spec fn after_mint(mint: MintState, dest: TokenAccountState, amount: u64) -> (
    MintState,
    TokenAccountState,
) {
    (
        MintState { supply: (mint.supply + amount) as u64 },
        TokenAccountState { balance: (dest.balance + amount) as u64 },
    )
}

/// Whether burning `amount` is covered by the source balance and the supply.
pub open spec fn burn_allowed(mint: MintState, source: TokenAccountState, amount: u64) -> bool {
    &&& source.balance >= amount
    &&& mint.supply >= amount
}

/// The counters after a successful burn of `amount`.
pub open spec fn after_burn(mint: MintState, source: TokenAccountState, amount: u64) -> (
    MintState,
    TokenAccountState,
) {
    (
        MintState { supply: (mint.supply - amount) as u64 },
        TokenAccountState { balance: (source.balance - amount) as u64 },
    )
}

/// Mints `amount` fresh units into `dest`, growing the supply by the same
/// count; fails without effect when either counter would leave the
/// representable range.
pub fn mint_to(mint: &mut MintState, dest: &mut TokenAccountState, amount: u64) -> (r: Result<
    (),
    TokenError,
>)
    ensures
        mint_fits(*old(mint), *old(dest), amount) ==> r == Ok::<(), TokenError>(())
            && (*final(mint), *final(dest)) == after_mint(*old(mint), *old(dest), amount),
        !mint_fits(*old(mint), *old(dest), amount) ==> r == Err::<(), TokenError>(
            TokenError::Overflow,
        ) && *final(mint) == *old(mint) && *final(dest) == *old(dest),
{
    let new_supply = mint.supply.checked_add(amount);
    let new_balance = dest.balance.checked_add(amount);
    match (new_supply, new_balance) {
        (Some(s), Some(b)) => {
            mint.supply = s;
            dest.balance = b;
            Ok(())
        },
        _ => Err(TokenError::Overflow),
    }
}

/// Burns `amount` units out of `source`, shrinking the supply by the same
/// count; fails without effect when the balance cannot cover the amount
/// (`InsufficientFunds`) or the supply cannot (`Overflow`).
pub fn burn(mint: &mut MintState, source: &mut TokenAccountState, amount: u64) -> (r: Result<
    (),
    TokenError,
>)
    ensures
        burn_allowed(*old(mint), *old(source), amount) ==> r == Ok::<(), TokenError>(())
            && (*final(mint), *final(source)) == after_burn(*old(mint), *old(source), amount),
        old(source).balance < amount ==> r == Err::<(), TokenError>(TokenError::InsufficientFunds)
            && *final(mint) == *old(mint) && *final(source) == *old(source),
        old(source).balance >= amount && old(mint).supply < amount ==> r == Err::<(), TokenError>(
            TokenError::Overflow,
        ) && *final(mint) == *old(mint) && *final(source) == *old(source),
{
    if source.balance < amount {
        return Err(TokenError::InsufficientFunds);
    }
    match mint.supply.checked_sub(amount) {
        Some(s) => {
            source.balance = source.balance - amount;
            mint.supply = s;
            Ok(())
        },
        None => Err(TokenError::Overflow),
    }
}

/// Law: a mint of `amount` raises the destination balance by exactly
/// `amount`, a burn of the same `amount` is then covered, and it brings both
/// the supply and the balance back to where they started.
pub proof fn lemma_mint_then_burn_round_trip(
    mint: MintState,
    dest: TokenAccountState,
    amount: u64,
)
    requires
        mint_fits(mint, dest, amount),
    ensures
        ({
            let (m1, d1) = after_mint(mint, dest, amount);
            &&& d1.balance == dest.balance + amount
            &&& m1.supply == mint.supply + amount
            &&& burn_allowed(m1, d1, amount)
            &&& after_burn(m1, d1, amount) == (mint, dest)
        }),
{
}

} // verus!
