use vstd::prelude::*;

use crate::keys::Key;

verus! {

/// Serialized size of a bank account: an 8-byte discriminator before a
/// 424-byte record.
pub const BANK_ACCOUNT_LEN: usize = 432;

/// Serialized size of an oracle account: an 8-byte discriminator before a
/// 1088-byte record.
pub const ORACLE_ACCOUNT_LEN: usize = 1096;

/// Serialized size of a vault account: an 8-byte discriminator before a
/// 976-byte record.
pub const VAULT_ACCOUNT_LEN: usize = 984;

/// The fields of a bank record that quoting reads: the reserve mint's
/// fixed-scale price and its decimal count.
#[derive(Clone, Copy, Debug, PartialEq, Eq, Structural)]
pub struct BankSnapshot {
    pub price: u64,
    pub decimals: u8,
}

/// The field of an oracle record that quoting reads: the yield token's
/// fixed-scale price.
#[derive(Clone, Copy, Debug, PartialEq, Eq, Structural)]
pub struct OracleSnapshot {
    pub yielding_token_price: u64,
}

/// The fields of a vault record that quoting and assembly read: the yield
/// token's mint, its decimal count, and the two fee schedules.
#[derive(Clone, Copy, Debug)]
pub struct VaultConfig {
    pub yielding_token_mint: Key,
    pub yielding_mint_decimals: u8,
    pub minting_fee_bps: u16,
    pub burning_fee_bps: u16,
}

} // verus!
