//! A two-party token escrow and settlement engine with a whitelist-gated
//! custodial vault.
//!
//! The crate models the on-chain state that the engine manipulates — token
//! accounts, mints, escrow and vault records, and the whitelist — as plain
//! verified data, and proves that every handler either commits the state
//! transition it promises or leaves the state untouched.  Identity
//! derivation for the program-derived custody accounts is performed by the
//! Solana runtime libraries behind a small trusted boundary.

pub mod addr;
pub mod error;
pub mod escrow;
pub mod hook_meta;
pub mod token;
pub mod codec;
pub mod create_vault;
pub mod deposit_withdraw;
pub mod mint_token;
pub mod pda;
pub mod policy;
pub mod whitelist;
pub mod whitelist_error;
pub mod whitelist_operations;
pub mod whitelist_user;

pub use addr::Address;

use vstd::prelude::*;

use crate::deposit_withdraw::{
    deposit_spec, withdraw_spec, DepositWithdraw, DepositWithdrawView,
};
use crate::error::VaultError;
use crate::mint_token::{mint_to_admin_spec, TokenFactory};
use crate::whitelist_user::{
    add_to_whitelist_spec, ops_wf, remove_from_whitelist_spec, WhitelistOperations,
    WhitelistOperationsView,
};

verus! {

/// Dispatch entry for vault creation.
pub fn create_vault(accounts: &mut create_vault::VaultOperation, vault_bump: u8) -> (r: Result<
    (),
    VaultError,
>)
    requires
        old(accounts).bindings_ok(),
    ensures
        match r {
            Ok(()) => old(accounts).create_vault_spec(vault_bump) == Ok::<_, VaultError>(
                *final(accounts),
            ),
            Err(e) => old(accounts).create_vault_spec(vault_bump) == Err::<
                create_vault::VaultOperation,
                _,
            >(e) && *final(accounts) == *old(accounts),
        },
{
    accounts.create_vault(vault_bump)
}

/// Dispatch entry for minting.
pub fn mint_token(accounts: &mut TokenFactory, amount: u64, decimals: u8) -> (r: Result<
    (),
    VaultError,
>)
    ensures
        match r {
            Ok(()) => mint_to_admin_spec(*old(accounts), amount, decimals) == Ok::<_, VaultError>(
                *final(accounts),
            ),
            Err(e) => mint_to_admin_spec(*old(accounts), amount, decimals) == Err::<
                TokenFactory,
                _,
            >(e) && *final(accounts) == *old(accounts),
        },
{
    accounts.mint_to_admin(amount, decimals)
}

/// Dispatch entry for whitelisting an address.
pub fn add_to_whitelist(
    accounts: &mut WhitelistOperations,
    address: Address,
    _mint: Address,
    bump: u8,
) -> (r: Result<(), VaultError>)
    requires
        ops_wf(old(accounts)@),
    ensures
        match r {
            Ok(()) => add_to_whitelist_spec(old(accounts)@, address, bump) == Ok::<_, VaultError>(
                final(accounts)@,
            ) && ops_wf(final(accounts)@),
            Err(e) => add_to_whitelist_spec(old(accounts)@, address, bump) == Err::<
                WhitelistOperationsView,
                _,
            >(e) && final(accounts)@ == old(accounts)@,
        },
{
    accounts.add_to_whitelist(address, bump)
}

/// Dispatch entry for removing an address from the whitelist.
pub fn remove_from_whitelist(
    accounts: &mut WhitelistOperations,
    address: Address,
    _mint: Address,
) -> (r: Result<(), VaultError>)
    requires
        ops_wf(old(accounts)@),
    ensures
        match r {
            Ok(()) => remove_from_whitelist_spec(old(accounts)@, address) == Ok::<_, VaultError>(
                final(accounts)@,
            ) && ops_wf(final(accounts)@),
            Err(e) => remove_from_whitelist_spec(old(accounts)@, address) == Err::<
                WhitelistOperationsView,
                _,
            >(e) && final(accounts)@ == old(accounts)@,
        },
{
    accounts.remove_from_whitelist(address)
}

/// Dispatch entry for a vault deposit.
pub fn deposit(accounts: &mut DepositWithdraw, amount: u64) -> (r: Result<(), VaultError>)
    requires
        old(accounts).whitelist.wf(),
    ensures
        final(accounts).whitelist.wf(),
        match r {
            Ok(()) => deposit_spec(old(accounts)@, amount) == Ok::<_, VaultError>(
                final(accounts)@,
            ),
            Err(e) => deposit_spec(old(accounts)@, amount) == Err::<DepositWithdrawView, _>(e)
                && final(accounts)@ == old(accounts)@,
        },
{
    accounts.deposit(amount)
}

/// Dispatch entry for a vault withdrawal.
pub fn withdraw(accounts: &mut DepositWithdraw, amount: u64) -> (r: Result<(), VaultError>)
    requires
        old(accounts).whitelist.wf(),
    ensures
        final(accounts).whitelist.wf(),
        match r {
            Ok(()) => withdraw_spec(old(accounts)@, amount) == Ok::<_, VaultError>(
                final(accounts)@,
            ),
            Err(e) => withdraw_spec(old(accounts)@, amount) == Err::<DepositWithdrawView, _>(e)
                && final(accounts)@ == old(accounts)@,
        },
{
    accounts.withdraw(amount)
}

} // verus!
