use escrow_vault::addr::Address;
use escrow_vault::error::{LedgerError, VaultError};
use escrow_vault::mint_token::{base_units, TokenFactory};
use escrow_vault::token::{mint_to_checked, transfer_checked, Mint, TokenAccount};
use escrow_vault::whitelist::Whitelist;
use escrow_vault::whitelist_error::WhitelistError;
use escrow_vault::whitelist_operations;

fn addr(n: u8) -> Address {
    Address::from_bytes([n; 32])
}

fn mint_rec(decimals: u8, authority: Address) -> Mint {
    Mint { decimals, mint_authority: Some(authority), supply: 0, transfer_hook_program: None }
}

#[test]
fn transfer_moves_exactly_the_amount() {
    let owner = addr(1);
    let mint_id = addr(2);
    let m = mint_rec(6, owner);
    let mut from = TokenAccount { mint: mint_id, owner, amount: 1_000 };
    let mut to = TokenAccount { mint: mint_id, owner: addr(3), amount: 7 };
    transfer_checked(&mut from, &mint_id, &m, &mut to, &owner, 250, 6).unwrap();
    assert_eq!(from.amount, 750);
    assert_eq!(to.amount, 257);
}

#[test]
fn transfer_checks_in_ledger_order() {
    let owner = addr(1);
    let mint_id = addr(2);
    let m = mint_rec(6, owner);

    let mut from = TokenAccount { mint: addr(9), owner, amount: 1_000 };
    let mut to = TokenAccount { mint: mint_id, owner: addr(3), amount: 0 };
    assert_eq!(
        transfer_checked(&mut from, &mint_id, &m, &mut to, &owner, 1, 6),
        Err(LedgerError::MintMismatch)
    );

    let mut from = TokenAccount { mint: mint_id, owner, amount: 1_000 };
    assert_eq!(
        transfer_checked(&mut from, &mint_id, &m, &mut to, &addr(8), 1, 6),
        Err(LedgerError::WrongAuthority)
    );
    assert_eq!(
        transfer_checked(&mut from, &mint_id, &m, &mut to, &owner, 1, 5),
        Err(LedgerError::DecimalsMismatch)
    );
    assert_eq!(
        transfer_checked(&mut from, &mint_id, &m, &mut to, &owner, 2_000, 6),
        Err(LedgerError::InsufficientFunds)
    );
    let mut full = TokenAccount { mint: mint_id, owner: addr(3), amount: u64::MAX };
    assert_eq!(
        transfer_checked(&mut from, &mint_id, &m, &mut full, &owner, 1, 6),
        Err(LedgerError::BalanceOverflow)
    );
    assert_eq!(from.amount, 1_000);
    assert_eq!(full.amount, u64::MAX);
}

#[test]
fn mint_to_checked_tracks_supply_and_balance() {
    let authority = addr(1);
    let mint_id = addr(2);
    let mut m = mint_rec(9, authority);
    let mut to = TokenAccount { mint: mint_id, owner: addr(3), amount: 5 };
    mint_to_checked(&mint_id, &mut m, &mut to, &authority, 100, 9).unwrap();
    assert_eq!(m.supply, 100);
    assert_eq!(to.amount, 105);
    assert_eq!(
        mint_to_checked(&mint_id, &mut m, &mut to, &addr(9), 1, 9),
        Err(LedgerError::WrongAuthority)
    );
}

#[test]
fn mint_to_admin_requires_the_mint_authority() {
    let user = addr(1);
    let mint_id = addr(2);
    let hook = addr(3);
    let mut tf = TokenFactory {
        user,
        mint_id,
        mint: Mint {
            decimals: 9,
            mint_authority: Some(addr(9)),
            supply: 0,
            transfer_hook_program: Some(hook),
        },
        hook_program_id: hook,
        source_token_account: TokenAccount { mint: mint_id, owner: user, amount: 0 },
    };
    let snapshot = tf;
    assert_eq!(tf.mint_to_admin(10, 9), Err(VaultError::WrongMintAuthority));
    assert_eq!(tf, snapshot);
}

#[test]
fn mint_to_admin_surfaces_decimals_mismatch() {
    let user = addr(1);
    let mint_id = addr(2);
    let hook = addr(3);
    let mut tf = TokenFactory {
        user,
        mint_id,
        mint: Mint {
            decimals: 9,
            mint_authority: Some(user),
            supply: 0,
            transfer_hook_program: Some(hook),
        },
        hook_program_id: hook,
        source_token_account: TokenAccount { mint: mint_id, owner: user, amount: 0 },
    };
    assert_eq!(
        tf.mint_to_admin(10, 6),
        Err(VaultError::Ledger(LedgerError::DecimalsMismatch))
    );
}

#[test]
fn base_units_scales_exactly() {
    assert_eq!(base_units(5, 3), Ok(5_000));
    assert_eq!(base_units(1_000_000_000, 9), Ok(1_000_000_000_000_000_000));
    assert_eq!(base_units(0, 50), Ok(0));
    assert_eq!(base_units(7, 0), Ok(7));
}

#[test]
fn base_units_rejects_overflow() {
    assert_eq!(base_units(2, 19), Err(VaultError::MintMultiplicationOverflow));
    assert_eq!(base_units(u64::MAX, 1), Err(VaultError::MintMultiplicationOverflow));
}

#[test]
fn credit_and_debit_guard_the_entry() {
    let admin = addr(1);
    let user = addr(6);
    let mut wl = Whitelist { address: vec![(user, 10u64, true)], whitelist_bump: 254, admin };
    assert_eq!(wl.credit(&addr(9), 5), Err(VaultError::UserNotWhitelisted));
    assert_eq!(wl.debit(&addr(9), 5), Err(VaultError::UserNotPresent));
    assert_eq!(wl.debit(&user, 11), Err(VaultError::WithdrawUnderflow));
    wl.credit(&user, 5).unwrap();
    assert_eq!(wl.address[0], (user, 15u64, true));
    let mut full = Whitelist { address: vec![(user, u64::MAX, true)], whitelist_bump: 254, admin };
    assert_eq!(full.credit(&user, 1), Err(VaultError::DepositOverflow));
}

#[test]
fn membership_queries_read_the_entry() {
    let admin = addr(1);
    let active = addr(6);
    let inactive = addr(7);
    let wl = Whitelist {
        address: vec![(active, 10u64, true), (inactive, 0u64, false)],
        whitelist_bump: 254,
        admin,
    };
    assert!(wl.contains_address(&active));
    assert!(wl.contains_address(&inactive));
    assert!(!wl.contains_address(&addr(9)));
    assert_eq!(wl.is_whitelisted(&active), Some(&true));
    assert_eq!(wl.is_whitelisted(&inactive), Some(&false));
    assert_eq!(wl.is_whitelisted(&addr(9)), None);
}

#[test]
fn sharded_whitelist_records_toggle_once() {
    let admin = addr(1);
    let user = addr(6);
    let record = whitelist_operations::Whitelist {
        user_address: Address::zero(),
        is_whitelisted: false,
        bump: 0,
    };
    let mut ops = whitelist_operations::WhitelistOperations { admin, whitelist: record };
    ops.add_to_whitelist(user, 253).unwrap();
    assert_eq!(ops.whitelist.user_address, user);
    assert!(ops.whitelist.is_whitelisted);
    assert_eq!(ops.whitelist.bump, 253);
    assert_eq!(
        ops.add_to_whitelist(user, 253),
        Err(WhitelistError::AlreadyWhitelisted)
    );
    ops.remove_from_whitelist().unwrap();
    assert!(!ops.whitelist.is_whitelisted);
    assert_eq!(
        ops.remove_from_whitelist(),
        Err(WhitelistError::AccountNotWhitelisted)
    );
}
