use escrow_vault::addr::Address;
use escrow_vault::create_vault::{Vault, VaultOperation};
use escrow_vault::deposit_withdraw::DepositWithdraw;
use escrow_vault::error::{StorageError, VaultError};
use escrow_vault::mint_token::TokenFactory;
use escrow_vault::token::{self, Mint, TokenAccount};
use escrow_vault::whitelist::Whitelist;
use escrow_vault::whitelist_user::{
    WhitelistOperations, LAMPORTS_PER_BYTE_YEAR, MAX_ACCOUNT_DATA_LEN, RENT_EXEMPTION_YEARS,
    WHITELIST_BASE_SIZE, WHITELIST_ENTRY_SIZE,
};

fn addr(n: u8) -> Address {
    Address::from_bytes([n; 32])
}

fn min_balance(data_len: u64) -> u64 {
    (128 + data_len) * LAMPORTS_PER_BYTE_YEAR * RENT_EXEMPTION_YEARS
}

fn hooked_mint(admin: Address, hook: Address) -> Mint {
    Mint { decimals: 9, mint_authority: Some(admin), supply: 0, transfer_hook_program: Some(hook) }
}

fn fresh_vault_op(admin: Address, mint_id: Address, hook: Address, vault_id: Address) -> VaultOperation {
    VaultOperation {
        owner: admin,
        mint_id,
        mint: hooked_mint(admin, hook),
        hook_program_id: hook,
        vault_state_id: vault_id,
        vault_state: Vault { mint: Address::zero(), owner: Address::zero(), vault_bump: 0 },
        vault_ata: TokenAccount { mint: mint_id, owner: vault_id, amount: 0 },
    }
}

#[test]
fn test_full_deposit_workflow() {
    let admin = addr(1);
    let mint_id = addr(2);
    let hook = addr(3);
    let vault_id = addr(4);
    let user = addr(5);
    let user_ata_id = addr(6);

    // create vault
    let mut vo = fresh_vault_op(admin, mint_id, hook, vault_id);
    vo.create_vault(255).unwrap();
    assert_eq!(vo.vault_state.mint, mint_id, "Account wasn't set correctly in Vault");
    assert_eq!(vo.vault_state.owner, admin, "Account wasn't set correctly in Vault");

    // add the user's token account to the whitelist
    let mut ops = WhitelistOperations::new(admin, 10_000_000_000, vo.vault_state);
    ops.add_to_whitelist(user_ata_id, 254).unwrap();
    assert!(
        ops.whitelist.contains_address(&user_ata_id),
        "You were not successfully added to the whitelist"
    );

    // mint token to self
    let mut tf = TokenFactory {
        user: admin,
        mint_id,
        mint: vo.mint,
        hook_program_id: hook,
        source_token_account: TokenAccount { mint: mint_id, owner: admin, amount: 0 },
    };
    tf.mint_to_admin(10_000, 9).unwrap();
    assert_eq!(
        tf.source_token_account.amount, 10_000,
        "Token balance after minting is incorrect."
    );

    // mint to the user, then deposit
    let mut mint_rec = tf.mint;
    let mut user_ata = TokenAccount { mint: mint_id, owner: user, amount: 0 };
    token::mint_to_checked(&mint_id, &mut mint_rec, &mut user_ata, &admin, 20_000, 9).unwrap();
    assert_eq!(user_ata.amount, 20_000, "Token balance after minting is incorrect.");

    let mut dw = DepositWithdraw {
        sender: user,
        owner: admin,
        mint_id,
        mint: mint_rec,
        hook_program_id: hook,
        vault_state_id: vault_id,
        vault_state: vo.vault_state,
        vault_ata: vo.vault_ata,
        user_ata_id,
        user_ata,
        whitelist: ops.whitelist,
    };
    dw.deposit(100).unwrap();
    assert_eq!(dw.vault_ata.amount, 100);
    assert_eq!(dw.user_ata.amount, 19_900);
    assert_eq!(dw.whitelist.address[0], (user_ata_id, 100u64, true));

    // withdraw everything: the entry disappears
    dw.withdraw(100).unwrap();
    assert_eq!(dw.vault_ata.amount, 0);
    assert_eq!(dw.user_ata.amount, 20_000);
    assert_eq!(dw.whitelist.address.len(), 0);
}

fn fresh_deposit_ctx(whitelist: Whitelist) -> DepositWithdraw {
    let admin = addr(1);
    let mint_id = addr(2);
    let hook = addr(3);
    let vault_id = addr(4);
    let user = addr(5);
    let user_ata_id = addr(6);
    DepositWithdraw {
        sender: user,
        owner: admin,
        mint_id,
        mint: hooked_mint(admin, hook),
        hook_program_id: hook,
        vault_state_id: vault_id,
        vault_state: Vault { mint: mint_id, owner: admin, vault_bump: 255 },
        vault_ata: TokenAccount { mint: mint_id, owner: vault_id, amount: 0 },
        user_ata_id,
        user_ata: TokenAccount { mint: mint_id, owner: user, amount: 1_000 },
        whitelist,
    }
}

fn empty_whitelist(admin: Address) -> Whitelist {
    Whitelist { address: Vec::new(), whitelist_bump: 254, admin }
}

#[test]
fn policy_denial_changes_nothing() {
    let admin = addr(1);
    let mut dw = fresh_deposit_ctx(empty_whitelist(admin));
    let snapshot = dw.clone();
    assert_eq!(dw.deposit(50), Err(VaultError::PolicyDenied));
    assert_eq!(dw, snapshot);
}

#[test]
fn inactive_entry_is_policy_denied() {
    let admin = addr(1);
    let user_ata_id = addr(6);
    let mut wl = empty_whitelist(admin);
    wl.address.push((user_ata_id, 0u64, false));
    let mut dw = fresh_deposit_ctx(wl);
    let snapshot = dw.clone();
    assert_eq!(dw.deposit(50), Err(VaultError::PolicyDenied));
    assert_eq!(dw, snapshot);
}

#[test]
fn deposit_requires_funds_before_policy() {
    let admin = addr(1);
    let mut dw = fresh_deposit_ctx(empty_whitelist(admin));
    dw.user_ata.amount = 10;
    let snapshot = dw.clone();
    assert_eq!(dw.deposit(50), Err(VaultError::InsufficientBalance));
    assert_eq!(dw, snapshot);
}

#[test]
fn deposit_validates_bindings() {
    let admin = addr(1);
    let user_ata_id = addr(6);
    let mut wl = empty_whitelist(admin);
    wl.address.push((user_ata_id, 0u64, true));

    let mut dw = fresh_deposit_ctx(wl.clone());
    dw.mint.mint_authority = Some(addr(9));
    assert_eq!(dw.deposit(50), Err(VaultError::WrongMintAuthority));

    let mut dw = fresh_deposit_ctx(wl.clone());
    dw.user_ata.mint = addr(9);
    assert_eq!(dw.deposit(50), Err(VaultError::WrongMint));

    let mut dw = fresh_deposit_ctx(wl.clone());
    dw.vault_ata.owner = addr(9);
    assert_eq!(dw.deposit(50), Err(VaultError::WrongATA));

    let mut dw = fresh_deposit_ctx(wl);
    dw.vault_state = Vault { mint: Address::zero(), owner: Address::zero(), vault_bump: 0 };
    assert_eq!(dw.deposit(50), Err(VaultError::VaultNotCreated));
}

#[test]
fn deposit_overflow_is_rejected() {
    let admin = addr(1);
    let user_ata_id = addr(6);
    let mut wl = empty_whitelist(admin);
    wl.address.push((user_ata_id, u64::MAX - 10, true));
    let mut dw = fresh_deposit_ctx(wl);
    let snapshot = dw.clone();
    assert_eq!(dw.deposit(50), Err(VaultError::DepositOverflow));
    assert_eq!(dw, snapshot);
}

#[test]
fn withdraw_errors_follow_the_entry() {
    let admin = addr(1);
    let user_ata_id = addr(6);

    // no entry at all
    let mut dw = fresh_deposit_ctx(empty_whitelist(admin));
    assert_eq!(dw.withdraw(50), Err(VaultError::UserNotPresent));

    // inactive entry
    let mut wl = empty_whitelist(admin);
    wl.address.push((user_ata_id, 100u64, false));
    let mut dw = fresh_deposit_ctx(wl);
    assert_eq!(dw.withdraw(50), Err(VaultError::UserNotWhitelisted));

    // entry holds less than requested
    let mut wl = empty_whitelist(admin);
    wl.address.push((user_ata_id, 10u64, true));
    let mut dw = fresh_deposit_ctx(wl);
    assert_eq!(dw.withdraw(50), Err(VaultError::InsufficientBalance));

    // entry covers it, but the custody account does not: the ledger
    // error surfaces verbatim
    let mut wl = empty_whitelist(admin);
    wl.address.push((user_ata_id, 100u64, true));
    let mut dw = fresh_deposit_ctx(wl);
    dw.vault_ata.amount = 50;
    let snapshot = dw.clone();
    assert_eq!(
        dw.withdraw(100),
        Err(VaultError::Ledger(escrow_vault::error::LedgerError::InsufficientFunds))
    );
    assert_eq!(dw, snapshot);
}

#[test]
fn partial_withdraw_keeps_the_entry() {
    let admin = addr(1);
    let user_ata_id = addr(6);
    let mut wl = empty_whitelist(admin);
    wl.address.push((user_ata_id, 100u64, true));
    let mut dw = fresh_deposit_ctx(wl);
    dw.vault_ata.amount = 100;
    dw.withdraw(40).unwrap();
    assert_eq!(dw.whitelist.address[0], (user_ata_id, 60u64, true));
    assert_eq!(dw.vault_ata.amount, 60);
}

#[test]
fn deposits_keep_whitelist_sum_equal_to_vault_balance() {
    let admin = addr(1);
    let user_ata_id = addr(6);
    let mut wl = empty_whitelist(admin);
    wl.address.push((user_ata_id, 0u64, true));
    let mut dw = fresh_deposit_ctx(wl);
    dw.deposit(300).unwrap();
    dw.deposit(200).unwrap();
    dw.withdraw(150).unwrap();
    let sum: u64 = dw.whitelist.address.iter().map(|e| e.1).sum();
    assert_eq!(sum, dw.vault_ata.amount);
    assert_eq!(dw.vault_ata.amount, 350);
}

#[test]
fn create_vault_is_set_once() {
    let admin = addr(1);
    let mut vo = fresh_vault_op(admin, addr(2), addr(3), addr(4));
    vo.create_vault(255).unwrap();
    let snapshot = vo;
    assert_eq!(vo.create_vault(255), Err(VaultError::VaultAlreadyExists));
    assert_eq!(vo, snapshot);
}

#[test]
fn add_to_whitelist_is_idempotent() {
    let admin = addr(1);
    let vault = Vault { mint: addr(2), owner: admin, vault_bump: 255 };
    let mut ops = WhitelistOperations::new(admin, 10_000_000_000, vault);
    ops.add_to_whitelist(addr(6), 254).unwrap();
    let once = ops.clone();
    ops.add_to_whitelist(addr(6), 254).unwrap();
    assert_eq!(ops, once);
}

#[test]
fn whitelist_ops_are_admin_gated() {
    let admin = addr(1);
    let vault = Vault { mint: addr(2), owner: addr(9), vault_bump: 255 };
    let mut ops = WhitelistOperations::new(admin, 10_000_000_000, vault);
    let snapshot = ops.clone();
    assert_eq!(ops.add_to_whitelist(addr(6), 254), Err(VaultError::NotAdmin));
    assert_eq!(ops.remove_from_whitelist(addr(6)), Err(VaultError::NotAdmin));
    assert_eq!(ops, snapshot);
}

#[test]
fn remove_requires_presence() {
    let admin = addr(1);
    let vault = Vault { mint: addr(2), owner: admin, vault_bump: 255 };
    let mut ops = WhitelistOperations::new(admin, 10_000_000_000, vault);
    assert_eq!(ops.remove_from_whitelist(addr(6)), Err(VaultError::UserNotPresent));
}

#[test]
fn add_and_remove_move_rent_atomically() {
    let admin = addr(1);
    let vault = Vault { mint: addr(2), owner: admin, vault_bump: 255 };
    let mut ops = WhitelistOperations::new(admin, 10_000_000_000, vault);
    let rent_diff = WHITELIST_ENTRY_SIZE * LAMPORTS_PER_BYTE_YEAR * RENT_EXEMPTION_YEARS;

    ops.add_to_whitelist(addr(6), 254).unwrap();
    assert_eq!(ops.admin_lamports, 10_000_000_000 - rent_diff);
    assert_eq!(ops.whitelist_data_len, WHITELIST_BASE_SIZE + WHITELIST_ENTRY_SIZE);
    assert_eq!(ops.whitelist_lamports, min_balance(ops.whitelist_data_len));

    ops.remove_from_whitelist(addr(6)).unwrap();
    assert_eq!(ops.admin_lamports, 10_000_000_000);
    assert_eq!(ops.whitelist_data_len, WHITELIST_BASE_SIZE);
    assert_eq!(ops.whitelist_lamports, min_balance(WHITELIST_BASE_SIZE));
    assert_eq!(ops.whitelist.address.len(), 0);
}

#[test]
fn poor_admin_cannot_grow_the_whitelist() {
    let admin = addr(1);
    let vault = Vault { mint: addr(2), owner: admin, vault_bump: 255 };
    let mut ops = WhitelistOperations::new(admin, 0, vault);
    let snapshot = ops.clone();
    assert_eq!(
        ops.add_to_whitelist(addr(6), 254),
        Err(VaultError::Storage(StorageError::InsufficientFunds))
    );
    assert_eq!(ops, snapshot);
}

#[test]
fn refund_overflow_on_shrink_is_rejected() {
    let admin = addr(1);
    let vault = Vault { mint: addr(2), owner: admin, vault_bump: 255 };
    let mut ops = WhitelistOperations::new(admin, 10_000_000_000, vault);
    ops.add_to_whitelist(addr(6), 254).unwrap();
    ops.admin_lamports = u64::MAX;
    let snapshot = ops.clone();
    assert_eq!(
        ops.remove_from_whitelist(addr(6)),
        Err(VaultError::Storage(StorageError::BalanceOverflow))
    );
    assert_eq!(ops, snapshot);
}

#[test]
fn dispatch_entries_forward_to_the_handlers() {
    let admin = addr(1);
    let mint_id = addr(2);
    let hook = addr(3);
    let vault_id = addr(4);
    let mut vo = fresh_vault_op(admin, mint_id, hook, vault_id);
    escrow_vault::create_vault(&mut vo, 255).unwrap();
    assert_eq!(vo.vault_state.owner, admin);

    let mut ops = WhitelistOperations::new(admin, 10_000_000_000, vo.vault_state);
    escrow_vault::add_to_whitelist(&mut ops, addr(6), mint_id, 254).unwrap();
    assert!(ops.whitelist.contains_address(&addr(6)));
    escrow_vault::remove_from_whitelist(&mut ops, addr(6), mint_id).unwrap();
    assert!(!ops.whitelist.contains_address(&addr(6)));

    let mut wl = empty_whitelist(admin);
    wl.address.push((addr(6), 0u64, true));
    let mut dw = fresh_deposit_ctx(wl);
    escrow_vault::deposit(&mut dw, 200).unwrap();
    assert_eq!(dw.vault_ata.amount, 200);
    escrow_vault::withdraw(&mut dw, 200).unwrap();
    assert_eq!(dw.vault_ata.amount, 0);

    let mut tf = TokenFactory {
        user: admin,
        mint_id,
        mint: hooked_mint(admin, hook),
        hook_program_id: hook,
        source_token_account: TokenAccount { mint: mint_id, owner: admin, amount: 0 },
    };
    escrow_vault::mint_token(&mut tf, 10, 9).unwrap();
    assert_eq!(tf.source_token_account.amount, 10);
}

#[test]
fn hook_meta_records_the_whitelist() {
    let mut slot = None;
    escrow_vault::hook_meta::initialize_hook_meta(&mut slot, addr(2), addr(5), 253);
    let meta = slot.unwrap();
    assert_eq!(meta.mint, addr(2));
    assert_eq!(meta.extra_accounts, vec![addr(5)]);
    assert_eq!(meta.bump, 253);
}

#[test]
fn whitelist_cannot_outgrow_the_account_budget() {
    let admin = addr(1);
    let vault = Vault { mint: addr(2), owner: admin, vault_bump: 255 };
    let max_entries = ((MAX_ACCOUNT_DATA_LEN - WHITELIST_BASE_SIZE) / WHITELIST_ENTRY_SIZE) as usize;
    let mut entries: Vec<(Address, u64, bool)> = Vec::with_capacity(max_entries);
    for i in 0..max_entries {
        let mut bytes = [0u8; 32];
        bytes[..8].copy_from_slice(&(i as u64).to_le_bytes());
        bytes[31] = 1;
        entries.push((Address::from_bytes(bytes), 0u64, true));
    }
    let data_len = WHITELIST_BASE_SIZE + WHITELIST_ENTRY_SIZE * max_entries as u64;
    let mut ops = WhitelistOperations {
        admin,
        admin_lamports: 10_000_000_000,
        whitelist: Whitelist { address: entries, whitelist_bump: 254, admin },
        whitelist_lamports: min_balance(data_len),
        whitelist_data_len: data_len,
        vault,
    };
    let mut fresh = [0u8; 32];
    fresh[..8].copy_from_slice(&(max_entries as u64).to_le_bytes());
    fresh[31] = 1;
    assert_eq!(
        ops.add_to_whitelist(Address::from_bytes(fresh), 254),
        Err(VaultError::Storage(StorageError::SizeLimitExceeded))
    );
}
