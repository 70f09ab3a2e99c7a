//! The price adapter: validation of an oracle sample into a usable rate.

use crate::errors::StablecoinError;
use vstd::prelude::*;

verus! {

/// Magnitude bound on the decimal exponent the adapter can represent.
pub const MAX_SCALE_MAGNITUDE: i32 = 28;

/// Exclusive magnitude bound on a representable mantissa (a 96-bit value,
/// the widest the adapter's fixed-point form carries).
pub const MANTISSA_LIMIT: i128 = 0x1000000000000000000000000;

/// The latest confirmed price sample of the external oracle: a scaled
/// fixed-point number worth `mantissa * 10^scale_exponent` fiat units per
/// token unit.
#[derive(Clone, Copy, Debug, PartialEq, Eq, Structural)]
pub struct OracleSample {
    /// Scaled integer mantissa.
    pub mantissa: i128,
    /// Decimal exponent applied to the mantissa.
    pub scale_exponent: i32,
}

/// What one read of the oracle account exposes: the latest confirmed price
/// sample, if any round has been confirmed yet.
#[derive(Clone, Copy, Debug)]
pub struct OracleReading {
    /// The latest confirmed sample, or `None` while the oracle has never
    /// confirmed a round.
    pub latest_confirmed_round: Option<OracleSample>,
}

/// Whether a sample can be represented as a rate at all: its exponent within
/// the supported decimal range and its mantissa within 96 bits.
pub open spec fn sample_representable(s: OracleSample) -> bool {
    &&& -MANTISSA_LIMIT < s.mantissa < MANTISSA_LIMIT
    &&& -MAX_SCALE_MAGNITUDE <= s.scale_exponent <= MAX_SCALE_MAGNITUDE
}

/// A validated, strictly positive exchange rate of
/// `mantissa * 10^scale_exponent` fiat units per token unit.
#[derive(Clone, Copy, Debug, PartialEq, Eq, Structural)]
pub struct Rate {
    /// Positive mantissa of the rate.
    pub mantissa: u128,
    /// Decimal exponent applied to the mantissa.
    pub scale_exponent: i32,
}

impl Rate {
    /// What validation guarantees of every rate it hands out.
    pub open spec fn wf(&self) -> bool {
        &&& 0 < self.mantissa < MANTISSA_LIMIT
        &&& -MAX_SCALE_MAGNITUDE <= self.scale_exponent <= MAX_SCALE_MAGNITUDE
    }
}

/// The outcome the adapter owes for a given reading: the validated rate, or
/// the exact error among `OracleNotInitialized`, `InvalidOracleData` and
/// `InvalidOraclePrice`.
pub open spec fn adapt_spec(reading: OracleReading) -> Result<Rate, StablecoinError> {
    match reading.latest_confirmed_round {
        None => Err(StablecoinError::OracleNotInitialized),
        Some(s) => if !sample_representable(s) {
            Err(StablecoinError::InvalidOracleData)
        } else if s.mantissa <= 0 {
            Err(StablecoinError::InvalidOraclePrice)
        } else {
            Ok(Rate { mantissa: s.mantissa as u128, scale_exponent: s.scale_exponent })
        },
    }
}

/// Reads the rate out of an oracle reading.
///
/// Requires a confirmed round to be present (`OracleNotInitialized`
/// otherwise), the sample to be representable (`InvalidOracleData`
/// otherwise), and the rate to be strictly positive (`InvalidOraclePrice`
/// otherwise).
pub fn read_rate(reading: &OracleReading) -> (r: Result<Rate, StablecoinError>)
    ensures
        r == adapt_spec(*reading),
        r matches Ok(rate) ==> rate.wf(),
{
    match reading.latest_confirmed_round {
        None => Err(StablecoinError::OracleNotInitialized),
        Some(s) => {
            if s.mantissa <= -MANTISSA_LIMIT || s.mantissa >= MANTISSA_LIMIT
                || s.scale_exponent < -MAX_SCALE_MAGNITUDE
                || s.scale_exponent > MAX_SCALE_MAGNITUDE
            {
                Err(StablecoinError::InvalidOracleData)
            } else if s.mantissa <= 0 {
                Err(StablecoinError::InvalidOraclePrice)
            } else {
                Ok(Rate { mantissa: s.mantissa as u128, scale_exponent: s.scale_exponent })
            }
        },
    }
}

} // verus!
