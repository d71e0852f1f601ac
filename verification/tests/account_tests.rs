use bankineco_amm::accounts::{AccountEntry, BankinecoSwapAction};
use bankineco_amm::keys::{
    Key, ASSOCIATED_TOKEN_PROGRAM_ID, MAIN_MARGINFI_ACCOUNT, MAIN_MARGINFI_BANK,
    MAIN_MARGINFI_GROUP, MAIN_MARGINFI_LIQUIDITY_VAULT, MAIN_MARGINFI_LIQUIDITY_VAULT_AUTH,
    MAIN_MARGINFI_ORACLE, MAIN_USDC_VAULT, MARGINFI_PROGRAM_ID, SYSTEM_PROGRAM_ID,
    TOKEN_PROGRAM_ID,
};

fn action(vault: [u8; 32]) -> BankinecoSwapAction {
    BankinecoSwapAction {
        user: Key::new([1; 32]),
        bank: Key::new([2; 32]),
        vault: Key::new(vault),
        oracle: Key::new([4; 32]),
        yielding_mint: Key::new([5; 32]),
        bank_mint: Key::new([6; 32]),
        team: Key::new([7; 32]),
        yielding_mint_program: Key::new([8; 32]),
    }
}

fn ata(owner: &Key, mint: &Key) -> [u8; 32] {
    anchor_spl::associated_token::get_associated_token_address(
        &owner.bytes.into(),
        &mint.bytes.into(),
    )
    .to_bytes()
}

fn check_prefix(a: &BankinecoSwapAction, v: &[AccountEntry]) {
    let expected: [([u8; 32], bool, bool); 15] = [
        (a.user.bytes, true, true),
        (a.bank.bytes, true, false),
        (a.vault.bytes, true, false),
        (a.oracle.bytes, false, false),
        (a.yielding_mint.bytes, false, false),
        (a.bank_mint.bytes, true, false),
        (ata(&a.user, &a.yielding_mint), true, false),
        (ata(&a.user, &a.bank_mint), true, false),
        (ata(&a.vault, &a.yielding_mint), true, false),
        (a.team.bytes, true, false),
        (ata(&a.team, &a.yielding_mint), true, false),
        (SYSTEM_PROGRAM_ID, false, false),
        (TOKEN_PROGRAM_ID, false, false),
        (a.yielding_mint_program.bytes, false, false),
        (ASSOCIATED_TOKEN_PROGRAM_ID, false, false),
    ];
    for (i, (key, writable, signer)) in expected.iter().enumerate() {
        assert_eq!(v[i].key.bytes, *key, "prefix key {}", i);
        assert_eq!(v[i].is_writable, *writable, "prefix writable {}", i);
        assert_eq!(v[i].is_signer, *signer, "prefix signer {}", i);
    }
}

#[test]
fn non_flagship_vault_gets_fifteen_entries() {
    let a = action([3; 32]);
    for is_mint in [true, false] {
        let v = BankinecoSwapAction::to_account_metas(&a, is_mint);
        assert_eq!(v.len(), 15);
        check_prefix(&a, &v);
    }
}

#[test]
fn flagship_vault_minting_gets_twenty_entries() {
    let a = action(MAIN_USDC_VAULT);
    let v = BankinecoSwapAction::to_account_metas(&a, true);
    assert_eq!(v.len(), 20);
    check_prefix(&a, &v);
    let suffix: [([u8; 32], bool); 5] = [
        (MARGINFI_PROGRAM_ID, false),
        (MAIN_MARGINFI_GROUP, false),
        (MAIN_MARGINFI_ACCOUNT, true),
        (MAIN_MARGINFI_BANK, true),
        (MAIN_MARGINFI_LIQUIDITY_VAULT, true),
    ];
    for (i, (key, writable)) in suffix.iter().enumerate() {
        assert_eq!(v[15 + i].key.bytes, *key, "suffix key {}", i);
        assert_eq!(v[15 + i].is_writable, *writable, "suffix writable {}", i);
        assert!(!v[15 + i].is_signer);
    }
}

#[test]
fn flagship_vault_burning_gets_twenty_three_entries() {
    let a = action(MAIN_USDC_VAULT);
    let v = BankinecoSwapAction::to_account_metas(&a, false);
    assert_eq!(v.len(), 23);
    check_prefix(&a, &v);
    let suffix: [([u8; 32], bool); 8] = [
        (MARGINFI_PROGRAM_ID, false),
        (MAIN_MARGINFI_GROUP, false),
        (MAIN_MARGINFI_ACCOUNT, true),
        (MAIN_MARGINFI_BANK, true),
        (MAIN_MARGINFI_LIQUIDITY_VAULT_AUTH, false),
        (MAIN_MARGINFI_LIQUIDITY_VAULT, true),
        (MAIN_MARGINFI_BANK, false),
        (MAIN_MARGINFI_ORACLE, false),
    ];
    for (i, (key, writable)) in suffix.iter().enumerate() {
        assert_eq!(v[15 + i].key.bytes, *key, "suffix key {}", i);
        assert_eq!(v[15 + i].is_writable, *writable, "suffix writable {}", i);
        assert!(!v[15 + i].is_signer);
    }
}

#[test]
fn derived_token_accounts_differ_from_their_inputs() {
    // The associated-token entries really are derivations, not copies of
    // the owner or the mint.
    let a = action([3; 32]);
    let v = BankinecoSwapAction::to_account_metas(&a, true);
    assert_ne!(v[6].key.bytes, a.user.bytes);
    assert_ne!(v[6].key.bytes, a.yielding_mint.bytes);
    assert_ne!(v[6].key.bytes, v[7].key.bytes);
    assert_ne!(v[6].key.bytes, v[8].key.bytes);
}
