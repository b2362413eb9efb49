//! Minting into the pooled system: the admin mints the hooked token to
//! its own account, and a helper scales user-facing amounts into base
//! units.

use vstd::prelude::*;

use crate::addr::Address;
use crate::error::VaultError;
use crate::token::{mint_to_checked, mint_to_checked_spec, Mint, TokenAccount};

verus! {

/// The account set of `mint_token`: the signing user (who must be the
/// mint's authority), the hooked mint, and the user's own token account
/// that receives the minted amount.
#[derive(Clone, Copy, Debug, PartialEq, Eq)]
pub struct TokenFactory {
    /// The signer; must be the mint's authority.
    pub user: Address,
    /// Identity of the hooked mint.
    pub mint_id: Address,
    /// The mint itself.
    pub mint: Mint,
    /// The policy (transfer-hook) program's identity.
    pub hook_program_id: Address,
    /// The signer's token account of the mint.
    pub source_token_account: TokenAccount,
}

/// Outcome of `mint_to_admin`: after the binding checks — the signer is
/// the mint's authority and the policy program is registered on the mint
/// — the ledger mints `amount` base units to the signer's account.
pub open spec fn mint_to_admin_spec(v: TokenFactory, amount: u64, decimals: u8) -> Result<
    TokenFactory,
    VaultError,
> {
    if !(v.mint.mint_authority matches Some(a) && a == v.user) {
        Err(VaultError::WrongMintAuthority)
    } else if v.mint.transfer_hook_program != Some(v.hook_program_id) {
        Err(VaultError::WrongMint)
    } else {
        match mint_to_checked_spec(
            v.mint_id,
            v.mint,
            v.source_token_account,
            v.user,
            amount,
            decimals,
        ) {
            Ok((m, ta)) => Ok(TokenFactory { mint: m, source_token_account: ta, ..v }),
            Err(le) => Err(VaultError::Ledger(le)),
        }
    }
}

impl TokenFactory {
    /// Mints `amount` base units of the hooked mint to the signer's own
    /// account, through the ledger's decimal-checked mint.  On any
    /// failure nothing changes.
    pub fn mint_to_admin(&mut self, amount: u64, decimals: u8) -> (r: Result<(), VaultError>)
        ensures
            match r {
                Ok(()) => mint_to_admin_spec(*old(self), amount, decimals) == Ok::<_, VaultError>(
                    *final(self),
                ),
                Err(e) => mint_to_admin_spec(*old(self), amount, decimals) == Err::<
                    TokenFactory,
                    _,
                >(e) && *final(self) == *old(self),
            },
    {
        let authority_ok = match &self.mint.mint_authority {
            Some(a) => *a == self.user,
            None => false,
        };
        if !authority_ok {
            return Err(VaultError::WrongMintAuthority);
        }
        let hook_ok = match &self.mint.transfer_hook_program {
            Some(h) => *h == self.hook_program_id,
            None => false,
        };
        if !hook_ok {
            return Err(VaultError::WrongMint);
        }
        match mint_to_checked(
            &self.mint_id,
            &mut self.mint,
            &mut self.source_token_account,
            &self.user,
            amount,
            decimals,
        ) {
            Ok(()) => Ok(()),
            Err(le) => Err(VaultError::Ledger(le)),
        }
    }
}

/// Ten to the `d`-th power.
pub open spec fn pow10(d: nat) -> int
    decreases d,
{
    if d == 0 {
        1
    } else {
        10 * pow10((d - 1) as nat)
    }
}

/// `pow10` grows monotonically.
pub proof fn lemma_pow10_monotone(i: nat, j: nat)
    requires
        i <= j,
    ensures
        0 < pow10(i) <= pow10(j),
    decreases j,
{
    if j != 0 {
        if i == j {
            lemma_pow10_monotone((j - 1) as nat, (j - 1) as nat);
        } else {
            lemma_pow10_monotone(i, (j - 1) as nat);
        }
    }
}

/// Scales a user-facing amount into base units of a mint with `decimals`
/// decimal places: exactly `ui_amount * 10^decimals`, or
/// `MintMultiplicationOverflow` when that does not fit in a `u64`.
pub fn base_units(ui_amount: u64, decimals: u8) -> (r: Result<u64, VaultError>)
    ensures
        match r {
            Ok(v) => v == ui_amount * pow10(decimals as nat),
            Err(VaultError::MintMultiplicationOverflow) => ui_amount * pow10(decimals as nat)
                > u64::MAX,
            Err(_) => false,
        },
{
    let mut acc: u64 = ui_amount;
    let mut i: u8 = 0;
    while i < decimals
        invariant
            i <= decimals,
            acc == ui_amount * pow10(i as nat),
        decreases decimals - i,
    {
        proof {
            let p = pow10(i as nat);
            assert(pow10((i + 1) as nat) == 10 * p);
            assert((ui_amount * p) * 10 == ui_amount * (10 * p)) by (nonlinear_arith);
        }
        if acc > u64::MAX / 10 {
            proof {
                lemma_pow10_monotone((i + 1) as nat, decimals as nat);
                assert(ui_amount * pow10((i + 1) as nat) <= ui_amount * pow10(decimals as nat))
                    by (nonlinear_arith)
                    requires
                        0 < pow10((i + 1) as nat) <= pow10(decimals as nat),
                        ui_amount >= 0,
                ;
            }
            return Err(VaultError::MintMultiplicationOverflow);
        }
        acc = acc * 10;
        i = i + 1;
    }
    Ok(acc)
}

} // verus!
