use stablecoin::account::{account_id_eq, AccountId};
use stablecoin::config::{initialize, StablecoinConfig};
use stablecoin::controller::{mint_decision, mint_tokens, pause, redeem_tokens, unpause};
use stablecoin::errors::{InitError, IssuanceError, StablecoinError, TokenError};
use stablecoin::conversion::convert;
use stablecoin::ledger::{MintState, TokenAccountState};
use stablecoin::oracle::{read_rate, OracleReading, OracleSample, Rate};

fn authority() -> AccountId {
    AccountId([7u8; 32])
}

fn mint_ref() -> AccountId {
    AccountId([9u8; 32])
}

fn fresh_config() -> StablecoinConfig {
    match initialize(
        authority(),
        mint_ref(),
        b"Example Dollar".to_vec(),
        b"EXD".to_vec(),
        b"https://example.org/icon.png".to_vec(),
        b"USD".to_vec(),
    ) {
        Ok(c) => c,
        Err(_) => panic!("creation with small metadata must succeed"),
    }
}

fn sample(mantissa: i128, scale_exponent: i32) -> OracleReading {
    OracleReading { latest_confirmed_round: Some(OracleSample { mantissa, scale_exponent }) }
}

#[test]
fn initialize_sets_fields_and_starts_active() {
    let c = fresh_config();
    assert_eq!(c.authority.0, [7u8; 32]);
    assert_eq!(c.mint_ref.0, [9u8; 32]);
    assert_eq!(c.name, b"Example Dollar".to_vec());
    assert_eq!(c.symbol, b"EXD".to_vec());
    assert_eq!(c.icon_uri, b"https://example.org/icon.png".to_vec());
    assert_eq!(c.target_currency, b"USD".to_vec());
    assert!(!c.paused);
}

#[test]
fn initialize_accepts_maximal_metadata() {
    let r = initialize(
        authority(),
        mint_ref(),
        vec![b'n'; 60],
        vec![b's'; 12],
        vec![b'u'; 124],
        vec![b'c'; 12],
    );
    assert!(r.is_ok());
}

#[test]
fn initialize_accepts_empty_metadata() {
    let r = initialize(
        authority(),
        mint_ref(),
        Vec::new(),
        Vec::new(),
        Vec::new(),
        Vec::new(),
    );
    match r {
        Ok(c) => {
            assert!(c.name.is_empty());
            assert!(!c.paused);
        }
        Err(_) => panic!("empty metadata fits every budget"),
    }
}

#[test]
fn initialize_rejects_oversized_name() {
    let r = initialize(
        authority(),
        mint_ref(),
        vec![b'n'; 61],
        vec![b's'; 3],
        vec![b'u'; 10],
        vec![b'c'; 3],
    );
    assert_eq!(r.err(), Some(InitError::MetadataOversized));
}

#[test]
fn initialize_rejects_oversized_symbol() {
    let r = initialize(
        authority(),
        mint_ref(),
        vec![b'n'; 10],
        vec![b's'; 13],
        vec![b'u'; 10],
        vec![b'c'; 3],
    );
    assert_eq!(r.err(), Some(InitError::MetadataOversized));
}

#[test]
fn initialize_rejects_oversized_icon_uri() {
    let r = initialize(
        authority(),
        mint_ref(),
        vec![b'n'; 10],
        vec![b's'; 3],
        vec![b'u'; 125],
        vec![b'c'; 3],
    );
    assert_eq!(r.err(), Some(InitError::MetadataOversized));
}

#[test]
fn initialize_rejects_oversized_target_currency() {
    let r = initialize(
        authority(),
        mint_ref(),
        vec![b'n'; 10],
        vec![b's'; 3],
        vec![b'u'; 10],
        vec![b'c'; 13],
    );
    assert_eq!(r.err(), Some(InitError::MetadataOversized));
}

#[test]
fn record_width_matches_fixed_budget() {
    assert_eq!(StablecoinConfig::LEN, 297);
}

#[test]
fn pause_requires_authority() {
    let mut c = fresh_config();
    let stranger = AccountId([8u8; 32]);
    let r = pause(&mut c, &stranger);
    assert_eq!(r, Err(StablecoinError::Unauthorized));
    assert!(!c.paused);
}

#[test]
fn unpause_requires_authority() {
    let mut c = fresh_config();
    let a = authority();
    assert_eq!(pause(&mut c, &a), Ok(()));
    let stranger = AccountId([0u8; 32]);
    let r = unpause(&mut c, &stranger);
    assert_eq!(r, Err(StablecoinError::Unauthorized));
    assert!(c.paused);
}

#[test]
fn pause_twice_stays_paused() {
    let mut c = fresh_config();
    let a = authority();
    assert_eq!(pause(&mut c, &a), Ok(()));
    assert!(c.paused);
    assert_eq!(pause(&mut c, &a), Ok(()));
    assert!(c.paused);
}

#[test]
fn unpause_twice_stays_active() {
    let mut c = fresh_config();
    let a = authority();
    assert_eq!(unpause(&mut c, &a), Ok(()));
    assert!(!c.paused);
    assert_eq!(unpause(&mut c, &a), Ok(()));
    assert!(!c.paused);
}

#[test]
fn pause_then_unpause_restores_active() {
    let mut c = fresh_config();
    let a = authority();
    assert_eq!(pause(&mut c, &a), Ok(()));
    assert!(c.paused);
    assert_eq!(unpause(&mut c, &a), Ok(()));
    assert!(!c.paused);
}

#[test]
fn paused_blocks_minting_for_any_input() {
    let mut c = fresh_config();
    let a = authority();
    assert_eq!(pause(&mut c, &a), Ok(()));
    for fiat in [0u64, 1, 100, u64::MAX] {
        assert_eq!(
            mint_decision(&c, &sample(5, -1), fiat),
            Err(StablecoinError::ProgramPaused)
        );
        assert_eq!(
            mint_decision(&c, &OracleReading { latest_confirmed_round: None }, fiat),
            Err(StablecoinError::ProgramPaused)
        );
    }
}

#[test]
fn paused_blocks_redeeming() {
    let mut c = fresh_config();
    let a = authority();
    assert_eq!(pause(&mut c, &a), Ok(()));
    let mut mint = MintState { supply: 500 };
    let mut holder = TokenAccountState { balance: 500 };
    let r = redeem_tokens(&c, 100, &mut mint, &mut holder);
    assert_eq!(r, Err(IssuanceError::Program(StablecoinError::ProgramPaused)));
    assert_eq!(mint.supply, 500);
    assert_eq!(holder.balance, 500);
}

#[test]
fn uninitialized_oracle_blocks_minting_for_any_amount() {
    let c = fresh_config();
    let none = OracleReading { latest_confirmed_round: None };
    for fiat in [0u64, 1, 12345, u64::MAX] {
        assert_eq!(
            mint_decision(&c, &none, fiat),
            Err(StablecoinError::OracleNotInitialized)
        );
    }
}

#[test]
fn zero_rate_is_invalid_price() {
    let c = fresh_config();
    assert_eq!(
        mint_decision(&c, &sample(0, 0), 100),
        Err(StablecoinError::InvalidOraclePrice)
    );
}

#[test]
fn negative_rate_is_invalid_price() {
    let c = fresh_config();
    assert_eq!(
        mint_decision(&c, &sample(-5, -1), 100),
        Err(StablecoinError::InvalidOraclePrice)
    );
}

#[test]
fn oversized_exponent_is_invalid_data() {
    let c = fresh_config();
    assert_eq!(
        mint_decision(&c, &sample(5, 29), 100),
        Err(StablecoinError::InvalidOracleData)
    );
    assert_eq!(
        mint_decision(&c, &sample(5, -29), 100),
        Err(StablecoinError::InvalidOracleData)
    );
}

#[test]
fn oversized_mantissa_is_invalid_data() {
    let c = fresh_config();
    let too_wide: i128 = 1i128 << 96;
    assert_eq!(
        mint_decision(&c, &sample(too_wide, 0), 100),
        Err(StablecoinError::InvalidOracleData)
    );
    assert_eq!(
        mint_decision(&c, &sample(-too_wide, 0), 100),
        Err(StablecoinError::InvalidOracleData)
    );
}

#[test]
fn half_rate_doubles_the_amount() {
    // rate 0.5 fiat units per token unit: 100 fiat buys 200 units
    let c = fresh_config();
    assert_eq!(mint_decision(&c, &sample(5, -1), 100), Ok(200));
}

#[test]
fn amount_below_one_unit_is_rejected() {
    // rate 10: one fiat unit buys no whole token unit
    let c = fresh_config();
    assert_eq!(
        mint_decision(&c, &sample(10, 0), 1),
        Err(StablecoinError::InvalidTokenAmount)
    );
}

#[test]
fn zero_amount_is_rejected() {
    let c = fresh_config();
    assert_eq!(
        mint_decision(&c, &sample(5, -1), 0),
        Err(StablecoinError::InvalidTokenAmount)
    );
}

#[test]
fn conversion_rounds_down() {
    // rate 1.23: floor(1000 / 1.23) == floor(100000 / 123) == 813
    let c = fresh_config();
    assert_eq!(mint_decision(&c, &sample(123, -2), 1000), Ok(813));
}

#[test]
fn positive_exponent_rate_divides() {
    // rate 250 (mantissa 25, exponent 1): 1000 fiat buys 4 units
    let c = fresh_config();
    assert_eq!(mint_decision(&c, &sample(25, 1), 1000), Ok(4));
}

#[test]
fn huge_rate_rejects_any_representable_amount() {
    // rate 10^28 towers over every representable fiat amount
    let c = fresh_config();
    assert_eq!(
        mint_decision(&c, &sample(1, 28), u64::MAX),
        Err(StablecoinError::InvalidTokenAmount)
    );
}

#[test]
fn tiny_rate_clamps_to_widest_amount() {
    // rate 10^-28: the exact unit count exceeds the representable range
    let c = fresh_config();
    assert_eq!(mint_decision(&c, &sample(1, -28), u64::MAX), Ok(u64::MAX));
}

#[test]
fn mint_then_redeem_nets_zero_balance_change() {
    let c = fresh_config();
    let mut mint = MintState { supply: 1_000 };
    let mut holder = TokenAccountState { balance: 40 };
    let minted = mint_tokens(&c, &sample(5, -1), 100, &mut mint, &mut holder);
    assert_eq!(minted, Ok(200));
    assert_eq!(holder.balance, 240);
    assert_eq!(mint.supply, 1_200);
    let redeemed = redeem_tokens(&c, 200, &mut mint, &mut holder);
    assert_eq!(redeemed, Ok(()));
    assert_eq!(holder.balance, 40);
    assert_eq!(mint.supply, 1_000);
}

#[test]
fn mint_overflow_changes_nothing() {
    let c = fresh_config();
    let mut mint = MintState { supply: u64::MAX - 10 };
    let mut holder = TokenAccountState { balance: 0 };
    let r = mint_tokens(&c, &sample(5, -1), 100, &mut mint, &mut holder);
    assert_eq!(r, Err(IssuanceError::Token(TokenError::Overflow)));
    assert_eq!(mint.supply, u64::MAX - 10);
    assert_eq!(holder.balance, 0);
}

#[test]
fn redeem_more_than_balance_is_insufficient_funds() {
    let c = fresh_config();
    let mut mint = MintState { supply: 1_000 };
    let mut holder = TokenAccountState { balance: 10 };
    let r = redeem_tokens(&c, 11, &mut mint, &mut holder);
    assert_eq!(r, Err(IssuanceError::Token(TokenError::InsufficientFunds)));
    assert_eq!(mint.supply, 1_000);
    assert_eq!(holder.balance, 10);
}

#[test]
fn redeem_beyond_supply_changes_nothing() {
    let c = fresh_config();
    let mut mint = MintState { supply: 5 };
    let mut holder = TokenAccountState { balance: 10 };
    let r = redeem_tokens(&c, 10, &mut mint, &mut holder);
    assert_eq!(r, Err(IssuanceError::Token(TokenError::Overflow)));
    assert_eq!(mint.supply, 5);
    assert_eq!(holder.balance, 10);
}

#[test]
fn adapter_accepts_positive_representable_sample() {
    let r = read_rate(&sample(123, -2));
    assert_eq!(r, Ok(Rate { mantissa: 123, scale_exponent: -2 }));
}

#[test]
fn adapter_reports_missing_round_before_anything_else() {
    let r = read_rate(&OracleReading { latest_confirmed_round: None });
    assert_eq!(r, Err(StablecoinError::OracleNotInitialized));
}

#[test]
fn conversion_engine_matches_exact_division() {
    // rate 2.5 (mantissa 25, exponent -1): floor(1001 / 2.5) == 400
    let r = convert(1001, &Rate { mantissa: 25, scale_exponent: -1 });
    assert_eq!(r, Ok(400));
}

#[test]
fn account_identity_compares_by_bytes() {
    let a = AccountId([3u8; 32]);
    let b = AccountId([3u8; 32]);
    let mut other_bytes = [3u8; 32];
    other_bytes[31] = 4;
    let other = AccountId(other_bytes);
    assert!(account_id_eq(&a, &b));
    assert!(!account_id_eq(&a, &other));
}
