use vstd::prelude::*;

use crate::accounts::{spec_swap_account_metas, AccountEntry, BankinecoSwapAction};
use crate::errors::{DeriveError, LoadError, MathError, QuoteError, UpdateError};
use crate::keys::{key_eq, Key, PROGRAM_ID, TOKEN_PROGRAM_ID, USDC_MINT, USD_STAR_BANK, USD_STAR_MINT};
use crate::outside::{
    bank_fields_of, burn_calc_of, calc_bank_mint_to_yielding, calc_yielding_to_bank_mint,
    derive_program_address, mint_calc_of, oracle_price_of, parse_bank, parse_oracle, parse_vault,
    pda_of, vault_fields_of,
};
use crate::quote::{
    required_input_amount_u128, spec_denominator, spec_numerator, spec_price_in, spec_price_out,
    spec_required_in, BPS_DENOM,
};
use crate::state::{
    BankSnapshot, OracleSnapshot, VaultConfig, BANK_ACCOUNT_LEN, ORACLE_ACCOUNT_LEN,
    VAULT_ACCOUNT_LEN,
};

verus! {

broadcast use vstd::string::to_string_from_display_ensures_for_str;

/// Seed of the oracle program-derived address: the ASCII bytes "VORACLEA".
pub const VORACLE_SEED: [u8; 8] = [86, 79, 82, 65, 67, 76, 69, 65];

/// Seed of the fee-recipient program-derived address: the ASCII bytes "VTEAMA".
pub const VTEAM_SEED: [u8; 6] = [86, 84, 69, 65, 77, 65];

/// Largest decimal count the forward pricing evaluator's power-of-ten
/// tables can hold.
pub const MAX_DECIMALS: u8 = 20;

/// Which leg of the swap the requested amount fixes.
#[derive(Clone, Copy, Debug, PartialEq, Eq, Structural)]
pub enum SwapMode {
    ExactIn,
    ExactOut,
}

/// One quote request: the amount, the mint it is denominated in when it is
/// the input leg, and which leg the amount fixes.
#[derive(Clone, Copy, Debug)]
pub struct QuoteParams {
    pub amount: u64,
    pub input_mint: Key,
    pub swap_mode: SwapMode,
}

/// One quote: both leg amounts, the fee (always charged in yield-token
/// units), and the fee rate in basis points (a fraction with denominator
/// 10_000).
#[derive(Clone, Copy, Debug)]
pub struct QuoteResult {
    pub in_amount: u64,
    pub out_amount: u64,
    pub fee_amount: u64,
    pub fee_mint: Key,
    pub fee_bps: u16,
}

/// One vault instance: its identity keys, its immutable configuration, and
/// the refreshable bank and oracle snapshots, absent until the first
/// successful refresh.
#[derive(Clone, Copy, Debug)]
pub struct BankinecoAmm {
    pub bank: Key,
    pub bank_state: Option<BankSnapshot>,
    pub vault: Key,
    pub vault_config: VaultConfig,
    pub oracle: Key,
    pub oracle_state: Option<OracleSnapshot>,
    pub team: Key,
    pub yielding_mint_program: Key,
}

impl BankinecoAmm {
    /// Both external records have been refreshed.
    pub open spec fn loaded(&self) -> bool {
        self.bank_state is Some && self.oracle_state is Some
    }

    /// The swap is a mint exactly when the given mint is the vault's
    /// yield-token mint.
    pub open spec fn spec_is_mint(&self, mint: Key) -> bool {
        mint@ == self.vault_config.yielding_token_mint@
    }

    /// The fee schedule of the resolved direction.
    pub open spec fn spec_fee_bps(&self, is_mint: bool) -> u16 {
        if is_mint {
            self.vault_config.minting_fee_bps
        } else {
            self.vault_config.burning_fee_bps
        }
    }

    /// Both decimal counts fit the forward evaluator.
    pub open spec fn spec_decimals_ok(&self) -> bool {
        self.vault_config.yielding_mint_decimals < MAX_DECIMALS
            && self.bank_state.unwrap().decimals < MAX_DECIMALS
    }

    /// What the forward pricing evaluator returns for `in_amount` input
    /// units in the resolved direction, against the loaded snapshots.
    pub open spec fn spec_calc(&self, is_mint: bool, in_amount: u64) -> Option<(u64, u64, u64)> {
        if is_mint {
            mint_calc_of(
                self.vault_config.yielding_mint_decimals,
                self.vault_config.minting_fee_bps,
                in_amount,
                self.bank_state.unwrap().price,
                self.bank_state.unwrap().decimals,
                self.oracle_state.unwrap().yielding_token_price,
            )
        } else {
            burn_calc_of(
                self.vault_config.yielding_mint_decimals,
                self.vault_config.burning_fee_bps,
                in_amount,
                self.bank_state.unwrap().price,
                self.bank_state.unwrap().decimals,
                self.oracle_state.unwrap().yielding_token_price,
            )
        }
    }

    /// Builds an instance for one vault: the bank key is the global
    /// singleton, the oracle and fee-recipient keys are derived from the
    /// vault key and the two fixed seeds, and both snapshots start absent.
    pub fn new(vault: Key, vault_config: VaultConfig) -> (r: Result<BankinecoAmm, DeriveError>)
        ensures
            ({
                let oracle = pda_of(VORACLE_SEED@, vault@, PROGRAM_ID@);
                let team = pda_of(VTEAM_SEED@, vault@, PROGRAM_ID@);
                match r {
                    Ok(amm) => {
                        &&& oracle is Some
                        &&& team is Some
                        &&& amm.oracle@ == oracle.unwrap()
                        &&& amm.team@ == team.unwrap()
                        &&& amm.vault == vault
                        &&& amm.vault_config == vault_config
                        &&& amm.bank.bytes == USD_STAR_BANK
                        &&& amm.yielding_mint_program.bytes == TOKEN_PROGRAM_ID
                        &&& amm.bank_state is None
                        &&& amm.oracle_state is None
                    },
                    Err(DeriveError::Oracle) => oracle is None,
                    Err(DeriveError::FeeRecipient) => oracle is Some && team is None,
                }
            }),
    {
        let program = Key { bytes: PROGRAM_ID };
        let oracle = match derive_program_address(VORACLE_SEED.as_slice(), &vault, &program) {
            Some(k) => k,
            None => {
                return Err(DeriveError::Oracle);
            },
        };
        let team = match derive_program_address(VTEAM_SEED.as_slice(), &vault, &program) {
            Some(k) => k,
            None => {
                return Err(DeriveError::FeeRecipient);
            },
        };
        Ok(
            BankinecoAmm {
                bank: Key { bytes: USD_STAR_BANK },
                bank_state: None,
                vault,
                vault_config,
                oracle,
                oracle_state: None,
                team,
                yielding_mint_program: Key { bytes: TOKEN_PROGRAM_ID },
            },
        )
    }

    /// Builds an instance from a vault account's key and raw data, as
    /// fetched by the host.
    pub fn from_keyed_account(key: Key, data: &[u8]) -> (r: Result<BankinecoAmm, LoadError>)
        ensures
            data@.len() < VAULT_ACCOUNT_LEN <==> r == Err::<BankinecoAmm, LoadError>(
                LoadError::VaultDataTooShort,
            ),
            r matches Ok(amm) ==> {
                &&& amm.vault == key
                &&& amm.bank.bytes == USD_STAR_BANK
                &&& amm.yielding_mint_program.bytes == TOKEN_PROGRAM_ID
                &&& amm.bank_state is None
                &&& amm.oracle_state is None
                &&& amm.vault_config.yielding_token_mint@ == vault_fields_of(data@).0
                &&& amm.vault_config.yielding_mint_decimals == vault_fields_of(data@).1
                &&& amm.vault_config.minting_fee_bps == vault_fields_of(data@).2
                &&& amm.vault_config.burning_fee_bps == vault_fields_of(data@).3
                &&& pda_of(VORACLE_SEED@, key@, PROGRAM_ID@) is Some
                &&& amm.oracle@ == pda_of(VORACLE_SEED@, key@, PROGRAM_ID@).unwrap()
                &&& pda_of(VTEAM_SEED@, key@, PROGRAM_ID@) is Some
                &&& amm.team@ == pda_of(VTEAM_SEED@, key@, PROGRAM_ID@).unwrap()
            },
            r == Err::<BankinecoAmm, LoadError>(LoadError::VaultInvalid) ==> data@.len()
                >= VAULT_ACCOUNT_LEN,
            r matches Err(LoadError::Derive(DeriveError::Oracle)) ==> pda_of(
                VORACLE_SEED@,
                key@,
                PROGRAM_ID@,
            ) is None,
            r matches Err(LoadError::Derive(DeriveError::FeeRecipient)) ==> pda_of(
                VORACLE_SEED@,
                key@,
                PROGRAM_ID@,
            ) is Some && pda_of(VTEAM_SEED@, key@, PROGRAM_ID@) is None,
    {
        if data.len() < VAULT_ACCOUNT_LEN {
            return Err(LoadError::VaultDataTooShort);
        }
        let vault_config = match parse_vault(data) {
            Some(c) => c,
            None => {
                return Err(LoadError::VaultInvalid);
            },
        };
        match BankinecoAmm::new(key, vault_config) {
            Ok(amm) => Ok(amm),
            Err(e) => Err(LoadError::Derive(e)),
        }
    }

    /// A human-readable label of the venue.
    pub fn label(&self) -> (r: String)
        ensures
            r@ == "PerenaBankinecoAmm"@,
    {
        "PerenaBankinecoAmm".to_string()
    }

    /// The on-chain program this instance builds instructions for.
    pub fn program_id(&self) -> (r: Key)
        ensures
            r.bytes == PROGRAM_ID,
    {
        Key { bytes: PROGRAM_ID }
    }

    /// The instance's identity: the vault account's key.
    pub fn key(&self) -> (r: Key)
        ensures
            r == self.vault,
    {
        self.vault
    }

    /// The two tradable mints.
    pub fn get_reserve_mints(&self) -> (r: Vec<Key>)
        ensures
            r@.len() == 2,
            r@[0].bytes == USD_STAR_MINT,
            r@[1].bytes == USDC_MINT,
    {
        let mut v: Vec<Key> = Vec::new();
        v.push(Key { bytes: USD_STAR_MINT });
        v.push(Key { bytes: USDC_MINT });
        v
    }

    /// The accounts whose data a refresh needs: the bank and the oracle.
    pub fn get_accounts_to_update(&self) -> (r: Vec<Key>)
        ensures
            r@.len() == 2,
            r@[0] == self.bank,
            r@[1] == self.oracle,
    {
        let mut v: Vec<Key> = Vec::new();
        v.push(self.bank);
        v.push(self.oracle);
        v
    }

    /// Refreshes both snapshots from the two raw account buffers. The
    /// replacement is atomic: when either buffer is rejected, the error
    /// names the offending record and the instance is left exactly as it
    /// was.
    pub fn update(&mut self, bank_data: &[u8], oracle_data: &[u8]) -> (r: Result<(), UpdateError>)
        ensures
            r is Err ==> *final(self) == *old(self),
            r is Ok ==> {
                &&& final(self).bank_state == Some(
                    (BankSnapshot {
                        price: bank_fields_of(bank_data@).0,
                        decimals: bank_fields_of(bank_data@).1,
                    }),
                )
                &&& final(self).oracle_state == Some(
                    (OracleSnapshot { yielding_token_price: oracle_price_of(oracle_data@) }),
                )
                &&& final(self).bank == old(self).bank
                &&& final(self).vault == old(self).vault
                &&& final(self).vault_config == old(self).vault_config
                &&& final(self).oracle == old(self).oracle
                &&& final(self).team == old(self).team
                &&& final(self).yielding_mint_program == old(self).yielding_mint_program
            },
            bank_data@.len() < BANK_ACCOUNT_LEN <==> r == Err::<(), UpdateError>(
                UpdateError::BankDataTooShort,
            ),
            oracle_data@.len() < ORACLE_ACCOUNT_LEN ==> r is Err,
            r is Err ==> (r == Err::<(), UpdateError>(UpdateError::BankDataTooShort) || r
                == Err::<(), UpdateError>(UpdateError::BankInvalid) || r == Err::<(), UpdateError>(
                UpdateError::OracleDataTooShort,
            ) || r == Err::<(), UpdateError>(UpdateError::OracleInvalid)),
            r == Err::<(), UpdateError>(UpdateError::BankInvalid) ==> bank_data@.len()
                >= BANK_ACCOUNT_LEN,
            r == Err::<(), UpdateError>(UpdateError::OracleDataTooShort) ==> oracle_data@.len()
                < ORACLE_ACCOUNT_LEN && bank_data@.len() >= BANK_ACCOUNT_LEN,
            r == Err::<(), UpdateError>(UpdateError::OracleInvalid) ==> oracle_data@.len()
                >= ORACLE_ACCOUNT_LEN && bank_data@.len() >= BANK_ACCOUNT_LEN,
    {
        if bank_data.len() < BANK_ACCOUNT_LEN {
            return Err(UpdateError::BankDataTooShort);
        }
        let bank = match parse_bank(bank_data) {
            Some(b) => b,
            None => {
                return Err(UpdateError::BankInvalid);
            },
        };
        if oracle_data.len() < ORACLE_ACCOUNT_LEN {
            return Err(UpdateError::OracleDataTooShort);
        }
        let oracle = match parse_oracle(oracle_data) {
            Some(o) => o,
            None => {
                return Err(UpdateError::OracleInvalid);
            },
        };
        self.bank_state = Some(bank);
        self.oracle_state = Some(oracle);
        Ok(())
    }

    /// Computes one quote. ExactIn takes the amount verbatim as the input
    /// leg; ExactOut inverts the pricing formula with ceiling rounding to
    /// find the required input. Either way the forward evaluator then
    /// yields the output and fee, so both modes report self-consistent
    /// numbers.
    pub fn quote(&self, params: &QuoteParams) -> (r: Result<QuoteResult, QuoteError>)
        ensures
            ({
                let is_mint = self.spec_is_mint(params.input_mint);
                let fee_bps = self.spec_fee_bps(is_mint);
                let oracle_price = self.oracle_state.unwrap().yielding_token_price;
                let bank_price = self.bank_state.unwrap().price;
                let price_in = spec_price_in(is_mint, oracle_price, bank_price);
                let price_out = spec_price_out(is_mint, oracle_price, bank_price);
                let num = spec_numerator(params.amount as int, price_out);
                let den = spec_denominator(price_in, fee_bps as int);
                let exact_out = params.swap_mode == SwapMode::ExactOut;
                if !self.loaded() {
                    r == Err::<QuoteResult, QuoteError>(QuoteError::StateNotLoaded)
                } else if !self.spec_decimals_ok() {
                    r == Err::<QuoteResult, QuoteError>(QuoteError::DecimalsTooLarge)
                } else if exact_out && fee_bps >= BPS_DENOM {
                    r == Err::<QuoteResult, QuoteError>(QuoteError::Math(MathError::FeeTooHigh))
                } else if exact_out && price_in == 0 {
                    r == Err::<QuoteResult, QuoteError>(QuoteError::Math(MathError::ZeroPrice))
                } else if exact_out && num + den - 1 > u128::MAX {
                    r == Err::<QuoteResult, QuoteError>(QuoteError::Math(MathError::Overflow))
                } else {
                    let ia: int = if exact_out {
                        spec_required_in(params.amount as int, price_in, price_out, fee_bps as int)
                    } else {
                        params.amount as int
                    };
                    if ia > u64::MAX {
                        r == Err::<QuoteResult, QuoteError>(QuoteError::AmountTooLarge)
                    } else {
                        match self.spec_calc(is_mint, ia as u64) {
                            Some(t) => r == Ok::<QuoteResult, QuoteError>(
                                (QuoteResult {
                                    in_amount: ia as u64,
                                    out_amount: t.0,
                                    fee_amount: t.1,
                                    fee_mint: self.vault_config.yielding_token_mint,
                                    fee_bps: fee_bps,
                                }),
                            ),
                            None => r matches Err(QuoteError::Calc(_)),
                        }
                    }
                }
            }),
    {
        let yielding_mint = self.vault_config.yielding_token_mint;
        let is_mint = key_eq(&params.input_mint, &yielding_mint);
        let fee_bps = if is_mint {
            self.vault_config.minting_fee_bps
        } else {
            self.vault_config.burning_fee_bps
        };

        let bank = match &self.bank_state {
            Some(b) => *b,
            None => {
                return Err(QuoteError::StateNotLoaded);
            },
        };
        let oracle = match &self.oracle_state {
            Some(o) => *o,
            None => {
                return Err(QuoteError::StateNotLoaded);
            },
        };
        if self.vault_config.yielding_mint_decimals >= MAX_DECIMALS || bank.decimals
            >= MAX_DECIMALS {
            return Err(QuoteError::DecimalsTooLarge);
        }

        let in_amount: u64 = if params.swap_mode == SwapMode::ExactIn {
            params.amount
        } else {
            let wide = match required_input_amount_u128(
                is_mint,
                params.amount,
                oracle.yielding_token_price,
                bank.price,
                fee_bps,
            ) {
                Ok(v) => v,
                Err(e) => {
                    return Err(QuoteError::Math(e));
                },
            };
            if wide > u64::MAX as u128 {
                return Err(QuoteError::AmountTooLarge);
            }
            wide as u64
        };

        let (out_amount, fee_amount) = if is_mint {
            match calc_yielding_to_bank_mint(
                self.vault_config.yielding_mint_decimals,
                self.vault_config.minting_fee_bps,
                in_amount,
                bank.price,
                bank.decimals,
                oracle.yielding_token_price,
            ) {
                Ok((out, fee, _)) => (out, fee),
                Err(e) => {
                    return Err(QuoteError::Calc(e));
                },
            }
        } else {
            match calc_bank_mint_to_yielding(
                self.vault_config.yielding_mint_decimals,
                self.vault_config.burning_fee_bps,
                in_amount,
                bank.price,
                bank.decimals,
                oracle.yielding_token_price,
            ) {
                Ok((out, fee, _)) => (out, fee),
                Err(e) => {
                    return Err(QuoteError::Calc(e));
                },
            }
        };

        Ok(
            QuoteResult {
                in_amount,
                out_amount,
                fee_amount,
                fee_mint: yielding_mint,
                fee_bps,
            },
        )
    }

    /// Assembles the swap instruction's account list for the resolved
    /// direction: the direction is a mint exactly when the source mint is
    /// the vault's yield-token mint.
    pub fn get_swap_and_account_metas(
        &self,
        source_mint: &Key,
        destination_mint: &Key,
        token_transfer_authority: &Key,
    ) -> (r: Vec<AccountEntry>)
        ensures
            ({
                let is_mint = self.spec_is_mint(*source_mint);
                let action = (BankinecoSwapAction {
                    user: *token_transfer_authority,
                    bank: self.bank,
                    vault: self.vault,
                    oracle: self.oracle,
                    yielding_mint: if is_mint {
                        *source_mint
                    } else {
                        *destination_mint
                    },
                    bank_mint: if is_mint {
                        *destination_mint
                    } else {
                        *source_mint
                    },
                    team: self.team,
                    yielding_mint_program: self.yielding_mint_program,
                });
                r@.map_values(|e: AccountEntry| e@) == spec_swap_account_metas(action, is_mint)
            }),
    {
        let is_mint = key_eq(source_mint, &self.vault_config.yielding_token_mint);
        let (yielding_mint, bank_mint) = if is_mint {
            (*source_mint, *destination_mint)
        } else {
            (*destination_mint, *source_mint)
        };
        let action = BankinecoSwapAction {
            user: *token_transfer_authority,
            bank: self.bank,
            vault: self.vault,
            oracle: self.oracle,
            yielding_mint,
            bank_mint,
            team: self.team,
            yielding_mint_program: self.yielding_mint_program,
        };
        BankinecoSwapAction::to_account_metas(&action, is_mint)
    }

    /// The account list is the same fixed shape on every call.
    pub fn has_dynamic_accounts(&self) -> (r: bool)
        ensures
            r == false,
    {
        false
    }

    /// The tradable mints are known without a refresh.
    pub fn requires_update_for_reserve_mints(&self) -> (r: bool)
        ensures
            r == false,
    {
        false
    }

    /// ExactOut quoting is supported.
    pub fn supports_exact_out(&self) -> (r: bool)
        ensures
            r == true,
    {
        true
    }

    /// Both directions can be traded.
    pub fn unidirectional(&self) -> (r: bool)
        ensures
            r == false,
    {
        false
    }

    /// No dependent programs to report.
    pub fn program_dependencies(&self) -> (r: Vec<(Key, String)>)
        ensures
            r@.len() == 0,
    {
        Vec::new()
    }

    /// Upper bound on the account list's length.
    pub fn get_accounts_len(&self) -> (r: usize)
        ensures
            r == 32,
    {
        32
    }

    /// The market is always quotable.
    pub fn is_active(&self) -> (r: bool)
        ensures
            r == true,
    {
        true
    }
}

} // verus!
