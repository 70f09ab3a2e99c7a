//! The issuance controller: the state machine over the configuration
//! record, composing the authority guard, the price adapter, the conversion
//! engine and the token primitive.

use crate::account::{account_id_eq, AccountId};
use crate::config::StablecoinConfig;
use crate::conversion::{convert, token_amount_of, token_units};
use crate::errors::{IssuanceError, StablecoinError, TokenError};
use crate::ledger::{
    after_burn, after_mint, burn, burn_allowed, mint_fits, mint_to, MintState, TokenAccountState,
};
use crate::oracle::{adapt_spec, read_rate, OracleReading};
use vstd::prelude::*;

verus! {

/// The two states of a configuration record: supply changes permitted, or
/// paused.
#[derive(Clone, Copy, Debug, PartialEq, Eq, Structural)]
pub enum ConfigState {
    /// `paused` is clear: `mint_tokens` and `redeem_tokens` may run.
    Active,
    /// `paused` is set: supply-changing operations are refused.
    Paused,
}

/// The state a configuration record is in.
pub open spec fn state_of(c: StablecoinConfig) -> ConfigState {
    if c.paused {
        ConfigState::Paused
    } else {
        ConfigState::Active
    }
}

/// The record after a `pause` request by `caller`: paused when the caller
/// is the configured authority, untouched otherwise.
pub open spec fn pause_result(c: StablecoinConfig, caller: AccountId) -> StablecoinConfig {
    if caller@ == c.authority@ {
        StablecoinConfig {
            authority: c.authority,
            mint_ref: c.mint_ref,
            name: c.name,
            symbol: c.symbol,
            icon_uri: c.icon_uri,
            target_currency: c.target_currency,
            paused: true,
        }
    } else {
        c
    }
}

/// The record after an `unpause` request by `caller`: active when the
/// caller is the configured authority, untouched otherwise.
pub open spec fn unpause_result(c: StablecoinConfig, caller: AccountId) -> StablecoinConfig {
    if caller@ == c.authority@ {
        StablecoinConfig {
            authority: c.authority,
            mint_ref: c.mint_ref,
            name: c.name,
            symbol: c.symbol,
            icon_uri: c.icon_uri,
            target_currency: c.target_currency,
            paused: false,
        }
    } else {
        c
    }
}

/// Pauses supply changes.  Only the configured authority may do so; any
/// other caller is refused with `Unauthorized` and the record is left
/// untouched.  The request is accepted whatever state the record is in.
pub fn pause(config: &mut StablecoinConfig, caller: &AccountId) -> (r: Result<
    (),
    StablecoinError,
>)
    ensures
        *final(config) == pause_result(*old(config), *caller),
        r == Ok::<(), StablecoinError>(()) <==> caller@ == old(config).authority@,
        r is Err ==> r == Err::<(), StablecoinError>(StablecoinError::Unauthorized),
{
    if account_id_eq(caller, &config.authority) {
        config.paused = true;
        Ok(())
    } else {
        Err(StablecoinError::Unauthorized)
    }
}

/// Resumes supply changes.  Only the configured authority may do so; any
/// other caller is refused with `Unauthorized` and the record is left
/// untouched.  The request is accepted whatever state the record is in.
pub fn unpause(config: &mut StablecoinConfig, caller: &AccountId) -> (r: Result<
    (),
    StablecoinError,
>)
    ensures
        *final(config) == unpause_result(*old(config), *caller),
        r == Ok::<(), StablecoinError>(()) <==> caller@ == old(config).authority@,
        r is Err ==> r == Err::<(), StablecoinError>(StablecoinError::Unauthorized),
{
    if account_id_eq(caller, &config.authority) {
        config.paused = false;
        Ok(())
    } else {
        Err(StablecoinError::Unauthorized)
    }
}

/// The token amount a `mint_tokens` request is owed, or the exact error it
/// is refused with: the pause gate first, then the price adapter's verdict,
/// then the conversion engine's.
pub open spec fn mint_decision_spec(
    c: StablecoinConfig,
    reading: OracleReading,
    amount_fiat: u64,
) -> Result<u64, StablecoinError> {
    if c.paused {
        Err(StablecoinError::ProgramPaused)
    } else {
        match adapt_spec(reading) {
            Err(e) => Err(e),
            Ok(rate) => if token_units(amount_fiat, rate) == 0 {
                Err(StablecoinError::InvalidTokenAmount)
            } else {
                Ok(token_amount_of(amount_fiat, rate))
            },
        }
    }
}

/// Decides a `mint_tokens` request: the token amount to mint at the freshly
/// read rate, or the error refusing it.  Reads nothing but the record's
/// pause flag and the given oracle reading, and changes nothing.
pub fn mint_decision(
    config: &StablecoinConfig,
    reading: &OracleReading,
    amount_fiat: u64,
) -> (r: Result<u64, StablecoinError>)
    ensures
        r == mint_decision_spec(*config, *reading, amount_fiat),
{
    if config.paused {
        return Err(StablecoinError::ProgramPaused);
    }
    let rate = match read_rate(reading) {
        Ok(rate) => rate,
        Err(e) => { return Err(e); },
    };
    convert(amount_fiat, &rate)
}

/// Converts a fiat deposit into freshly minted token units on the caller's
/// account: pause gate, price adapter, conversion engine, then the token
/// primitive's `mint_to`, signed by the derived mint authority.  On any
/// refusal neither the supply nor the balance moves.
pub fn mint_tokens(
    config: &StablecoinConfig,
    reading: &OracleReading,
    amount_fiat: u64,
    mint: &mut MintState,
    dest: &mut TokenAccountState,
) -> (r: Result<u64, IssuanceError>)
    ensures
        mint_decision_spec(*config, *reading, amount_fiat) matches Err(e) ==> r
            == Err::<u64, IssuanceError>(IssuanceError::Program(e)) && *final(mint) == *old(mint)
            && *final(dest) == *old(dest),
        mint_decision_spec(*config, *reading, amount_fiat) matches Ok(t) ==> ({
            &&& mint_fits(*old(mint), *old(dest), t) ==> r == Ok::<u64, IssuanceError>(t) && (
            *final(mint),
            *final(dest),
            ) == after_mint(*old(mint), *old(dest), t)
            &&& !mint_fits(*old(mint), *old(dest), t) ==> r == Err::<u64, IssuanceError>(
                IssuanceError::Token(TokenError::Overflow),
            ) && *final(mint) == *old(mint) && *final(dest) == *old(dest)
        }),
{
    let token_amount = match mint_decision(config, reading, amount_fiat) {
        Ok(t) => t,
        Err(e) => { return Err(IssuanceError::Program(e)); },
    };
    match mint_to(mint, dest, token_amount) {
        Ok(()) => Ok(token_amount),
        Err(e) => Err(IssuanceError::Token(e)),
    }
}

/// Burns `token_amount` units from the caller's own account: the pause gate
/// first, then the token primitive's `burn`, authorized by the caller as the
/// account's owner.  No authority check and no oracle read: redeeming is
/// open to every holder.  On any refusal neither counter moves.
pub fn redeem_tokens(
    config: &StablecoinConfig,
    token_amount: u64,
    mint: &mut MintState,
    source: &mut TokenAccountState,
) -> (r: Result<(), IssuanceError>)
    ensures
        config.paused ==> r == Err::<(), IssuanceError>(
            IssuanceError::Program(StablecoinError::ProgramPaused),
        ) && *final(mint) == *old(mint) && *final(source) == *old(source),
        !config.paused && burn_allowed(*old(mint), *old(source), token_amount) ==> r == Ok::<
            (),
            IssuanceError,
        >(()) && (*final(mint), *final(source)) == after_burn(
            *old(mint),
            *old(source),
            token_amount,
        ),
        !config.paused && old(source).balance < token_amount ==> r == Err::<(), IssuanceError>(
            IssuanceError::Token(TokenError::InsufficientFunds),
        ) && *final(mint) == *old(mint) && *final(source) == *old(source),
        !config.paused && old(source).balance >= token_amount && old(mint).supply < token_amount
            ==> r == Err::<(), IssuanceError>(IssuanceError::Token(TokenError::Overflow))
            && *final(mint) == *old(mint) && *final(source) == *old(source),
{
    if config.paused {
        return Err(IssuanceError::Program(StablecoinError::ProgramPaused));
    }
    match burn(mint, source, token_amount) {
        Ok(()) => Ok(()),
        Err(e) => Err(IssuanceError::Token(e)),
    }
}

} // verus!
