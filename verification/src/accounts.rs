use vstd::prelude::*;

use crate::keys::{
    key_eq, Key, ASSOCIATED_TOKEN_PROGRAM_ID, MAIN_MARGINFI_ACCOUNT, MAIN_MARGINFI_BANK,
    MAIN_MARGINFI_GROUP, MAIN_MARGINFI_LIQUIDITY_VAULT, MAIN_MARGINFI_LIQUIDITY_VAULT_AUTH,
    MAIN_MARGINFI_ORACLE, MAIN_USDC_VAULT, MARGINFI_PROGRAM_ID, SYSTEM_PROGRAM_ID,
    TOKEN_PROGRAM_ID,
};
use crate::outside::{ata_of, derive_associated_token_address};

verus! {

/// One entry of a swap instruction's account list.
#[derive(Clone, Copy, Debug)]
pub struct AccountEntry {
    pub key: Key,
    pub is_writable: bool,
    pub is_signer: bool,
}

impl View for AccountEntry {
    type V = (Seq<u8>, bool, bool);

    open spec fn view(&self) -> (Seq<u8>, bool, bool) {
        (self.key@, self.is_writable, self.is_signer)
    }
}

/// The identity keys a swap instruction is assembled from.
#[derive(Clone, Copy, Debug)]
pub struct BankinecoSwapAction {
    pub user: Key,
    pub bank: Key,
    pub vault: Key,
    pub oracle: Key,
    pub yielding_mint: Key,
    pub bank_mint: Key,
    pub team: Key,
    pub yielding_mint_program: Key,
}

/// The fifteen-entry fixed prefix of every swap's account list, in
/// instruction order, with its writable and signer flags.
pub open spec fn spec_fixed_prefix(a: BankinecoSwapAction) -> Seq<(Seq<u8>, bool, bool)> {
    seq![
        (a.user@, true, true),
        (a.bank@, true, false),
        (a.vault@, true, false),
        (a.oracle@, false, false),
        (a.yielding_mint@, false, false),
        (a.bank_mint@, true, false),
        (ata_of(a.user@, a.yielding_mint@), true, false),
        (ata_of(a.user@, a.bank_mint@), true, false),
        (ata_of(a.vault@, a.yielding_mint@), true, false),
        (a.team@, true, false),
        (ata_of(a.team@, a.yielding_mint@), true, false),
        (SYSTEM_PROGRAM_ID@, false, false),
        (TOKEN_PROGRAM_ID@, false, false),
        (a.yielding_mint_program@, false, false),
        (ASSOCIATED_TOKEN_PROGRAM_ID@, false, false),
    ]
}

/// The lending-protocol suffix appended only for the flagship vault:
/// five entries when minting, nine when burning (the burn leg borrows, so
/// it also needs the liquidity-vault authority and a read-only repeat of
/// the lending bank and its oracle).
pub open spec fn spec_lending_suffix(is_mint: bool) -> Seq<(Seq<u8>, bool, bool)> {
    if is_mint {
        seq![
            (MARGINFI_PROGRAM_ID@, false, false),
            (MAIN_MARGINFI_GROUP@, false, false),
            (MAIN_MARGINFI_ACCOUNT@, true, false),
            (MAIN_MARGINFI_BANK@, true, false),
            (MAIN_MARGINFI_LIQUIDITY_VAULT@, true, false),
        ]
    } else {
        seq![
            (MARGINFI_PROGRAM_ID@, false, false),
            (MAIN_MARGINFI_GROUP@, false, false),
            (MAIN_MARGINFI_ACCOUNT@, true, false),
            (MAIN_MARGINFI_BANK@, true, false),
            (MAIN_MARGINFI_LIQUIDITY_VAULT_AUTH@, false, false),
            (MAIN_MARGINFI_LIQUIDITY_VAULT@, true, false),
            (MAIN_MARGINFI_BANK@, false, false),
            (MAIN_MARGINFI_ORACLE@, false, false),
        ]
    }
}

/// The full account list: the fixed prefix, extended by the lending
/// suffix exactly when the vault is the flagship instance.
pub open spec fn spec_swap_account_metas(
    a: BankinecoSwapAction,
    is_mint: bool,
) -> Seq<(Seq<u8>, bool, bool)> {
    if a.vault@ == MAIN_USDC_VAULT@ {
        spec_fixed_prefix(a) + spec_lending_suffix(is_mint)
    } else {
        spec_fixed_prefix(a)
    }
}

impl BankinecoSwapAction {
    /// Assembles the ordered, access-flagged account list for one swap
    /// instruction. The four token-account entries are derived from
    /// (owner, mint), never supplied by the caller.
    pub fn to_account_metas(accounts: &BankinecoSwapAction, is_mint: bool) -> (r: Vec<AccountEntry>)
        ensures
            r@.map_values(|e: AccountEntry| e@) == spec_swap_account_metas(*accounts, is_mint),
    {
        let yielding_user_ta = derive_associated_token_address(
            &accounts.user,
            &accounts.yielding_mint,
        );
        let bank_mint_user_ta = derive_associated_token_address(&accounts.user, &accounts.bank_mint);
        let yielding_vault_ta = derive_associated_token_address(
            &accounts.vault,
            &accounts.yielding_mint,
        );
        let fee_team_ta = derive_associated_token_address(&accounts.team, &accounts.yielding_mint);

        let mut v: Vec<AccountEntry> = Vec::new();
        v.push(AccountEntry { key: accounts.user, is_writable: true, is_signer: true });
        v.push(AccountEntry { key: accounts.bank, is_writable: true, is_signer: false });
        v.push(AccountEntry { key: accounts.vault, is_writable: true, is_signer: false });
        v.push(AccountEntry { key: accounts.oracle, is_writable: false, is_signer: false });
        v.push(AccountEntry { key: accounts.yielding_mint, is_writable: false, is_signer: false });
        v.push(AccountEntry { key: accounts.bank_mint, is_writable: true, is_signer: false });
        v.push(AccountEntry { key: yielding_user_ta, is_writable: true, is_signer: false });
        v.push(AccountEntry { key: bank_mint_user_ta, is_writable: true, is_signer: false });
        v.push(AccountEntry { key: yielding_vault_ta, is_writable: true, is_signer: false });
        v.push(AccountEntry { key: accounts.team, is_writable: true, is_signer: false });
        v.push(AccountEntry { key: fee_team_ta, is_writable: true, is_signer: false });
        v.push(AccountEntry { key: Key { bytes: SYSTEM_PROGRAM_ID }, is_writable: false, is_signer: false });
        v.push(AccountEntry { key: Key { bytes: TOKEN_PROGRAM_ID }, is_writable: false, is_signer: false });
        v.push(
            AccountEntry { key: accounts.yielding_mint_program, is_writable: false, is_signer: false },
        );
        v.push(
            AccountEntry {
                key: Key { bytes: ASSOCIATED_TOKEN_PROGRAM_ID },
                is_writable: false,
                is_signer: false,
            },
        );

        let flagship = Key { bytes: MAIN_USDC_VAULT };
        if key_eq(&accounts.vault, &flagship) {
            v.push(
                AccountEntry { key: Key { bytes: MARGINFI_PROGRAM_ID }, is_writable: false, is_signer: false },
            );
            v.push(
                AccountEntry { key: Key { bytes: MAIN_MARGINFI_GROUP }, is_writable: false, is_signer: false },
            );
            v.push(
                AccountEntry { key: Key { bytes: MAIN_MARGINFI_ACCOUNT }, is_writable: true, is_signer: false },
            );
            v.push(
                AccountEntry { key: Key { bytes: MAIN_MARGINFI_BANK }, is_writable: true, is_signer: false },
            );

            if !is_mint {
                v.push(
                    AccountEntry {
                        key: Key { bytes: MAIN_MARGINFI_LIQUIDITY_VAULT_AUTH },
                        is_writable: false,
                        is_signer: false,
                    },
                );
            }

            v.push(
                AccountEntry {
                    key: Key { bytes: MAIN_MARGINFI_LIQUIDITY_VAULT },
                    is_writable: true,
                    is_signer: false,
                },
            );

            if !is_mint {
                v.push(
                    AccountEntry { key: Key { bytes: MAIN_MARGINFI_BANK }, is_writable: false, is_signer: false },
                );
                v.push(
                    AccountEntry { key: Key { bytes: MAIN_MARGINFI_ORACLE }, is_writable: false, is_signer: false },
                );
            }
        }

        proof {
            assert(v@.map_values(|e: AccountEntry| e@) =~~= spec_swap_account_metas(
                *accounts,
                is_mint,
            ));
        }
        v
    }
}

} // verus!
