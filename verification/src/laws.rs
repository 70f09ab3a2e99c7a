//! Laws of the issuance state machine, proved once and for all inputs.

use crate::config::StablecoinConfig;
use crate::account::AccountId;
use crate::controller::{mint_decision_spec, pause_result, state_of, unpause_result, ConfigState};
use crate::conversion::{pow10, token_amount_of, token_units};
use crate::errors::StablecoinError;
use crate::ledger::{
    after_burn, after_mint, burn_allowed, mint_fits, MintState, TokenAccountState,
};
use crate::oracle::{sample_representable, OracleReading, OracleSample, Rate};
use vstd::arithmetic::div_mod::lemma_div_pos_is_pos;
use vstd::arithmetic::mul::{lemma_mul_nonnegative, lemma_mul_strictly_positive};
use vstd::arithmetic::power::lemma_pow_positive;
use vstd::prelude::*;

verus! {

/// Law: pausing twice in a row is the same as pausing once; for the
/// configured authority one `pause` already leaves the record `Paused`.
pub proof fn lemma_pause_idempotent(c: StablecoinConfig, caller: AccountId)
    ensures
        pause_result(pause_result(c, caller), caller) == pause_result(c, caller),
        caller@ == c.authority@ ==> state_of(pause_result(c, caller)) == ConfigState::Paused,
{
}

/// Law: unpausing twice in a row is the same as unpausing once; for the
/// configured authority one `unpause` already leaves the record `Active`.
pub proof fn lemma_unpause_idempotent(c: StablecoinConfig, caller: AccountId)
    ensures
        unpause_result(unpause_result(c, caller), caller) == unpause_result(c, caller),
        caller@ == c.authority@ ==> state_of(unpause_result(c, caller)) == ConfigState::Active,
{
}

/// Law: a `pause` or `unpause` request by anyone but the configured
/// authority leaves the record exactly as it was.
pub proof fn lemma_unauthorized_admin_changes_nothing(c: StablecoinConfig, caller: AccountId)
    requires
        caller@ != c.authority@,
    ensures
        pause_result(c, caller) == c,
        unpause_result(c, caller) == c,
{
}

/// Law: while the record is paused, every `mint_tokens` request is refused
/// with `ProgramPaused`, whatever the oracle says and whatever the amount.
pub proof fn lemma_paused_blocks_minting(
    c: StablecoinConfig,
    reading: OracleReading,
    amount_fiat: u64,
)
    requires
        c.paused,
    ensures
        mint_decision_spec(c, reading, amount_fiat) == Err::<u64, StablecoinError>(
            StablecoinError::ProgramPaused,
        ),
{
}

/// Law: while the record is active and the oracle has never confirmed a
/// round, every `mint_tokens` request is refused with
/// `OracleNotInitialized`, whatever the amount.
pub proof fn lemma_uninitialized_oracle_blocks_minting(c: StablecoinConfig, amount_fiat: u64)
    requires
        !c.paused,
    ensures
        mint_decision_spec(
            c,
            OracleReading { latest_confirmed_round: None },
            amount_fiat,
        ) == Err::<u64, StablecoinError>(StablecoinError::OracleNotInitialized),
{
}

/// Law: while the record is active, a representable sample whose rate is
/// zero or negative is refused with `InvalidOraclePrice`, whatever the
/// amount.
pub proof fn lemma_nonpositive_rate_blocks_minting(
    c: StablecoinConfig,
    s: OracleSample,
    amount_fiat: u64,
)
    requires
        !c.paused,
        sample_representable(s),
        s.mantissa <= 0,
    ensures
        mint_decision_spec(
            c,
            OracleReading { latest_confirmed_round: Some(s) },
            amount_fiat,
        ) == Err::<u64, StablecoinError>(StablecoinError::InvalidOraclePrice),
{
}

/// Law: while the record is active and the oracle hands out a
/// representable, strictly positive rate, a `mint_tokens` request is
/// granted exactly when the fiat amount buys at least one whole token unit
/// at that rate, and the granted amount is that unit count.
pub proof fn lemma_mint_succeeds_iff_whole_unit(
    c: StablecoinConfig,
    s: OracleSample,
    amount_fiat: u64,
)
    requires
        !c.paused,
        sample_representable(s),
        s.mantissa > 0,
    ensures
        ({
            let reading = OracleReading { latest_confirmed_round: Some(s) };
            let rate = Rate { mantissa: s.mantissa as u128, scale_exponent: s.scale_exponent };
            &&& (mint_decision_spec(c, reading, amount_fiat) is Ok <==> token_units(
                amount_fiat,
                rate,
            ) > 0)
            &&& (mint_decision_spec(c, reading, amount_fiat) matches Ok(t) ==> t
                == token_amount_of(amount_fiat, rate))
            &&& (token_units(amount_fiat, rate) == 0 ==> mint_decision_spec(
                c,
                reading,
                amount_fiat,
            ) == Err::<u64, StablecoinError>(StablecoinError::InvalidTokenAmount))
        }),
{
    let rate = Rate { mantissa: s.mantissa as u128, scale_exponent: s.scale_exponent };
    let e = rate.scale_exponent as int;
    if e < 0 {
        lemma_pow_positive(10, (-e) as nat);
        lemma_mul_nonnegative(amount_fiat as int, pow10((-e) as nat));
    }
    if e > 0 {
        lemma_pow_positive(10, e as nat);
        lemma_mul_strictly_positive(rate.mantissa as int, pow10(e as nat));
    }
    lemma_div_pos_is_pos(
        crate::conversion::scaled_fiat(amount_fiat, e),
        crate::conversion::scaled_rate(rate.mantissa, e),
    );
}

/// Law: a granted mint raises the destination balance by exactly the
/// granted amount; a redeem of that amount from the same account is then
/// covered, and it nets both the balance and the supply back to where they
/// started.  A rate change between the two calls changes neither fact,
/// since the redeemed amount is the token count itself, not its fiat worth.
pub proof fn lemma_mint_then_redeem_round_trip(
    c: StablecoinConfig,
    reading: OracleReading,
    amount_fiat: u64,
    t: u64,
    mint: MintState,
    holder: TokenAccountState,
)
    requires
        mint_decision_spec(c, reading, amount_fiat) == Ok::<u64, StablecoinError>(t),
        mint_fits(mint, holder, t),
    ensures
        !c.paused,
        ({
            let (m1, h1) = after_mint(mint, holder, t);
            &&& h1.balance == holder.balance + t
            &&& m1.supply == mint.supply + t
            &&& burn_allowed(m1, h1, t)
            &&& after_burn(m1, h1, t) == (mint, holder)
        }),
{
    crate::ledger::lemma_mint_then_burn_round_trip(mint, holder, t);
}

} // verus!
