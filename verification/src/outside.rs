use vstd::prelude::*;

use crate::errors::CalcError;
use crate::keys::Key;
use crate::state::{BankSnapshot, OracleSnapshot, VaultConfig, BANK_ACCOUNT_LEN, ORACLE_ACCOUNT_LEN, VAULT_ACCOUNT_LEN};

verus! {

/// The program-derived address for (seed, owner, program), when one exists.
pub uninterp spec fn pda_of(seed: Seq<u8>, owner: Seq<u8>, program: Seq<u8>) -> Option<Seq<u8>>;

/// The canonical associated-token-account address for (owner, mint) under
/// the standard token program.
pub uninterp spec fn ata_of(owner: Seq<u8>, mint: Seq<u8>) -> Seq<u8>;

/// The (reserve-mint price, reserve-mint decimals) fields of the bank
/// record serialized in `data`: fixed-offset reads of the buffer, so a
/// function of the bytes alone whenever the record parses.
pub uninterp spec fn bank_fields_of(data: Seq<u8>) -> (u64, u8);

/// The yield-token price field of the oracle record serialized in `data`.
pub uninterp spec fn oracle_price_of(data: Seq<u8>) -> u64;

/// The (yield mint, yield-mint decimals, minting fee, burning fee) fields
/// of the vault record serialized in `data`.
pub uninterp spec fn vault_fields_of(data: Seq<u8>) -> (Seq<u8>, u8, u16, u16);

/// What the forward pricing evaluator returns for a yield-to-reserve leg:
/// (net output, fee in yield units, gross output before conversion), or
/// nothing when an internal checked step fails.
pub uninterp spec fn mint_calc_of(
    yielding_mint_decimals: u8,
    minting_fee_bps: u16,
    amount_yielding: u64,
    bank_mint_price: u64,
    bank_mint_decimals: u8,
    yielding_mint_price: u64,
) -> Option<(u64, u64, u64)>;

/// What the forward pricing evaluator returns for a reserve-to-yield leg:
/// (net output, fee in yield units, gross output before the fee), or
/// nothing when an internal checked step fails.
pub uninterp spec fn burn_calc_of(
    yielding_mint_decimals: u8,
    burning_fee_bps: u16,
    amount_to_burn: u64,
    bank_mint_price: u64,
    bank_mint_decimals: u8,
    yielding_mint_price: u64,
) -> Option<(u64, u64, u64)>;

/// Relies on solana_pubkey::Pubkey::try_find_program_address: the derived
/// address is a function of the seeds and the program id alone, and None
/// comes back exactly when no bump seed yields a valid derivation.
#[verifier::external_body]
pub(crate) fn derive_program_address(seed: &[u8], owner: &Key, program: &Key) -> (r: Option<Key>)
    ensures
        r is Some <==> pda_of(seed@, owner@, program@) is Some,
        r is Some ==> r.unwrap()@ == pda_of(seed@, owner@, program@).unwrap(),
{
    let owner_pk = solana_pubkey::Pubkey::new_from_array(owner.bytes);
    let program_pk = solana_pubkey::Pubkey::new_from_array(program.bytes);
    solana_pubkey::Pubkey::try_find_program_address(&[seed, owner_pk.as_ref()], &program_pk)
        .map(|(pk, _bump)| Key { bytes: pk.to_bytes() })
}

/// Relies on anchor_spl::associated_token::get_associated_token_address:
/// the associated-token address is a function of owner and mint alone. The
/// call aborts in the statistically improbable case that no derivation
/// exists, exactly as the underlying routine does.
#[verifier::external_body]
pub(crate) fn derive_associated_token_address(owner: &Key, mint: &Key) -> (r: Key)
    ensures
        r@ == ata_of(owner@, mint@),
{
    let pk = anchor_spl::associated_token::get_associated_token_address(
        &owner.bytes.into(),
        &mint.bytes.into(),
    );
    Key { bytes: pk.to_bytes() }
}

/// Relies on bankineco_helpers::bank::BankState::from_data, which rejects
/// buffers shorter than its 8-byte discriminator plus 424-byte record; the
/// snapshot copies the record's reserve-mint price and decimal count.
#[verifier::external_body]
pub(crate) fn parse_bank(data: &[u8]) -> (r: Option<BankSnapshot>)
    ensures
        r is Some ==> data@.len() >= BANK_ACCOUNT_LEN,
        r is Some ==> r.unwrap().price == bank_fields_of(data@).0,
        r is Some ==> r.unwrap().decimals == bank_fields_of(data@).1,
{
    bankineco_helpers::bank::BankState::from_data(data).ok().map(
        |b|
            BankSnapshot { price: b.mint.price, decimals: b.mint.decimals },
    )
}

/// Relies on bankineco_helpers::oracle::OracleGenState::from_data, which
/// slices bytes 8..1096 of the buffer without a length check, so shorter
/// buffers are excluded here; the snapshot copies the record's yield-token
/// price.
#[verifier::external_body]
pub(crate) fn parse_oracle(data: &[u8]) -> (r: Option<OracleSnapshot>)
    requires
        data@.len() >= ORACLE_ACCOUNT_LEN,
    ensures
        r is Some ==> r.unwrap().yielding_token_price == oracle_price_of(data@),
{
    bankineco_helpers::oracle::OracleGenState::from_data(data).ok().map(
        |o|
            OracleSnapshot { yielding_token_price: o.result.yielding_token_price },
    )
}

/// Relies on bankineco_helpers::vault::VaultGenState::from_data, which
/// slices bytes 8..984 of the buffer without a length check, so shorter
/// buffers are excluded here; the snapshot copies the mint, decimal and
/// fee fields of the record's configuration.
#[verifier::external_body]
pub(crate) fn parse_vault(data: &[u8]) -> (r: Option<VaultConfig>)
    requires
        data@.len() >= VAULT_ACCOUNT_LEN,
    ensures
        r is Some ==> r.unwrap().yielding_token_mint@ == vault_fields_of(data@).0,
        r is Some ==> r.unwrap().yielding_mint_decimals == vault_fields_of(data@).1,
        r is Some ==> r.unwrap().minting_fee_bps == vault_fields_of(data@).2,
        r is Some ==> r.unwrap().burning_fee_bps == vault_fields_of(data@).3,
{
    bankineco_helpers::vault::VaultGenState::from_data(data).ok().map(
        |v|
            VaultConfig {
                yielding_token_mint: Key { bytes: v.config.yielding_token_mint },
                yielding_mint_decimals: v.config.yielding_mint_decimals,
                minting_fee_bps: v.config.minting_fee_bps,
                burning_fee_bps: v.config.burning_fee_bps,
            },
    )
}

/// Relies on bankineco_helpers::vault::VaultGenState::calc_yielding_to_bank_mint,
/// which reads nothing of the vault record but its yield-mint decimal count
/// and minting fee, so its result is a function of those two fields and the
/// four amounts alone. Decimal counts of 20 or more would overflow its
/// power-of-ten tables and are excluded.
#[verifier::external_body]
pub(crate) fn calc_yielding_to_bank_mint(
    yielding_mint_decimals: u8,
    minting_fee_bps: u16,
    amount_yielding: u64,
    bank_mint_price: u64,
    bank_mint_decimals: u8,
    yielding_mint_price: u64,
) -> (r: Result<(u64, u64, u64), CalcError>)
    requires
        yielding_mint_decimals < 20,
        bank_mint_decimals < 20,
    ensures
        r is Ok <==> mint_calc_of(
            yielding_mint_decimals,
            minting_fee_bps,
            amount_yielding,
            bank_mint_price,
            bank_mint_decimals,
            yielding_mint_price,
        ) is Some,
        r is Ok ==> r.unwrap() == mint_calc_of(
            yielding_mint_decimals,
            minting_fee_bps,
            amount_yielding,
            bank_mint_price,
            bank_mint_decimals,
            yielding_mint_price,
        ).unwrap(),
{
    let mut vault: bankineco_helpers::vault::VaultGenState = bytemuck::Zeroable::zeroed();
    vault.config.yielding_mint_decimals = yielding_mint_decimals;
    vault.config.minting_fee_bps = minting_fee_bps;
    vault.calc_yielding_to_bank_mint(
        amount_yielding,
        bank_mint_price,
        bank_mint_decimals,
        yielding_mint_price,
    ).map_err(|e| match e {
        bankineco_helpers::errors::ErrorCode::InvalidAccountData => CalcError::InvalidData,
        bankineco_helpers::errors::ErrorCode::ConversionOverflow => CalcError::ConversionOverflow,
        bankineco_helpers::errors::ErrorCode::MathOverflow => CalcError::MathOverflow,
    })
}

/// Relies on bankineco_helpers::vault::VaultGenState::calc_bank_mint_to_yielding,
/// which reads nothing of the vault record but its yield-mint decimal count
/// and burning fee, so its result is a function of those two fields and the
/// four amounts alone. Decimal counts of 20 or more would overflow its
/// power-of-ten tables and are excluded.
#[verifier::external_body]
pub(crate) fn calc_bank_mint_to_yielding(
    yielding_mint_decimals: u8,
    burning_fee_bps: u16,
    amount_to_burn: u64,
    bank_mint_price: u64,
    bank_mint_decimals: u8,
    yielding_mint_price: u64,
) -> (r: Result<(u64, u64, u64), CalcError>)
    requires
        yielding_mint_decimals < 20,
        bank_mint_decimals < 20,
    ensures
        r is Ok <==> burn_calc_of(
            yielding_mint_decimals,
            burning_fee_bps,
            amount_to_burn,
            bank_mint_price,
            bank_mint_decimals,
            yielding_mint_price,
        ) is Some,
        r is Ok ==> r.unwrap() == burn_calc_of(
            yielding_mint_decimals,
            burning_fee_bps,
            amount_to_burn,
            bank_mint_price,
            bank_mint_decimals,
            yielding_mint_price,
        ).unwrap(),
{
    let mut vault: bankineco_helpers::vault::VaultGenState = bytemuck::Zeroable::zeroed();
    vault.config.yielding_mint_decimals = yielding_mint_decimals;
    vault.config.burning_fee_bps = burning_fee_bps;
    vault.calc_bank_mint_to_yielding(
        amount_to_burn,
        bank_mint_price,
        bank_mint_decimals,
        yielding_mint_price,
    ).map_err(|e| match e {
        bankineco_helpers::errors::ErrorCode::InvalidAccountData => CalcError::InvalidData,
        bankineco_helpers::errors::ErrorCode::ConversionOverflow => CalcError::ConversionOverflow,
        bankineco_helpers::errors::ErrorCode::MathOverflow => CalcError::MathOverflow,
    })
}

} // verus!
