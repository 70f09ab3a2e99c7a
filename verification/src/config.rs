//! The persistent configuration record of one deployed stablecoin.

use crate::account::AccountId;
use crate::errors::InitError;
use vstd::prelude::*;

verus! {

/// Bytes of the serialization format's record discriminator.
pub const RECORD_TAG_BYTES: usize = 8;

/// Bytes of one serialized account identity.
pub const ACCOUNT_ID_BYTES: usize = 32;

/// Bytes of the length prefix the persistence format puts before a string.
pub const LEN_PREFIX_BYTES: usize = 4;

/// Serialized budget of the `name` field, length prefix included.
pub const NAME_FIELD_BYTES: usize = 64;

/// Serialized budget of the `symbol` field, length prefix included.
pub const SYMBOL_FIELD_BYTES: usize = 16;

/// Serialized budget of the `icon_uri` field, length prefix included.
pub const ICON_URI_FIELD_BYTES: usize = 128;

/// Serialized budget of the `target_currency` field, length prefix included.
pub const TARGET_CURRENCY_FIELD_BYTES: usize = 16;

/// Bytes of the serialized pause flag.
pub const PAUSED_FLAG_BYTES: usize = 1;

/// Largest `name` payload that fits its budget.
pub const MAX_NAME_BYTES: usize = NAME_FIELD_BYTES - LEN_PREFIX_BYTES;

/// Largest `symbol` payload that fits its budget.
pub const MAX_SYMBOL_BYTES: usize = SYMBOL_FIELD_BYTES - LEN_PREFIX_BYTES;

/// Largest `icon_uri` payload that fits its budget.
pub const MAX_ICON_URI_BYTES: usize = ICON_URI_FIELD_BYTES - LEN_PREFIX_BYTES;

/// Largest `target_currency` payload that fits its budget.
pub const MAX_TARGET_CURRENCY_BYTES: usize = TARGET_CURRENCY_FIELD_BYTES - LEN_PREFIX_BYTES;

/// The single persistent record of one deployed stablecoin: who may
/// administer it, which mint it issues, its display metadata (stored as the
/// bytes of each string's encoding), and whether supply changes are paused.
pub struct StablecoinConfig {
    /// Identity permitted to perform administrative actions; set at creation
    /// and never rotated.
    pub authority: AccountId,
    /// Identity of the linked fungible-token mint; set at creation, never
    /// changed.
    pub mint_ref: AccountId,
    /// Display name, at most [`MAX_NAME_BYTES`] bytes.
    pub name: Vec<u8>,
    /// Display symbol, at most [`MAX_SYMBOL_BYTES`] bytes.
    pub symbol: Vec<u8>,
    /// Icon location, at most [`MAX_ICON_URI_BYTES`] bytes.
    pub icon_uri: Vec<u8>,
    /// Pegged currency label, at most [`MAX_TARGET_CURRENCY_BYTES`] bytes.
    pub target_currency: Vec<u8>,
    /// Gates `mint_tokens` and `redeem_tokens`; mutable only through
    /// `pause` and `unpause`.
    pub paused: bool,
}

impl StablecoinConfig {
    /// Fixed serialized width of the record.
    pub const LEN: usize = RECORD_TAG_BYTES + ACCOUNT_ID_BYTES + ACCOUNT_ID_BYTES
        + NAME_FIELD_BYTES + SYMBOL_FIELD_BYTES + ICON_URI_FIELD_BYTES
        + TARGET_CURRENCY_FIELD_BYTES + PAUSED_FLAG_BYTES;

    /// Every metadata field fits its serialized budget.
    pub open spec fn wf(&self) -> bool {
        metadata_within_budget(self.name@, self.symbol@, self.icon_uri@, self.target_currency@)
    }
}

/// Whether the four metadata payloads each fit their serialized budget.
pub open spec fn metadata_within_budget(
    name: Seq<u8>,
    symbol: Seq<u8>,
    icon_uri: Seq<u8>,
    target_currency: Seq<u8>,
) -> bool {
    &&& name.len() <= MAX_NAME_BYTES
    &&& symbol.len() <= MAX_SYMBOL_BYTES
    &&& icon_uri.len() <= MAX_ICON_URI_BYTES
    &&& target_currency.len() <= MAX_TARGET_CURRENCY_BYTES
}

/// Creates the configuration record of a new stablecoin, initially active.
///
/// Succeeds exactly when every metadata field fits its serialized budget;
/// an oversized field is rejected before any record exists.  Duplicate
/// creation at the same location is refused by the hosting ledger itself and
/// is not re-checked here.
pub fn initialize(
    authority: AccountId,
    mint_ref: AccountId,
    name: Vec<u8>,
    symbol: Vec<u8>,
    icon_uri: Vec<u8>,
    target_currency: Vec<u8>,
) -> (r: Result<StablecoinConfig, InitError>)
    ensures
        r is Ok <==> metadata_within_budget(name@, symbol@, icon_uri@, target_currency@),
        r matches Ok(c) ==> {
            &&& c.authority@ == authority@
            &&& c.mint_ref@ == mint_ref@
            &&& c.name@ == name@
            &&& c.symbol@ == symbol@
            &&& c.icon_uri@ == icon_uri@
            &&& c.target_currency@ == target_currency@
            &&& c.paused == false
            &&& c.wf()
        },
        r is Err ==> r == Err::<StablecoinConfig, InitError>(InitError::MetadataOversized),
{
    if name.len() > MAX_NAME_BYTES
        || symbol.len() > MAX_SYMBOL_BYTES
        || icon_uri.len() > MAX_ICON_URI_BYTES
        || target_currency.len() > MAX_TARGET_CURRENCY_BYTES
    {
        return Err(InitError::MetadataOversized);
    }
    Ok(StablecoinConfig {
        authority,
        mint_ref,
        name,
        symbol,
        icon_uri,
        target_currency,
        paused: false,
    })
}

} // verus!
