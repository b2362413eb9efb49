//! Model of the external token ledger: mints, token accounts, and the two
//! decimal-checked movements the engine consumes (`transfer_checked` and
//! `mint_to_checked`).  The model commits a movement only when every check
//! passes, so a failed call provably leaves both accounts untouched.

use vstd::prelude::*;

use crate::addr::Address;
use crate::error::LedgerError;

verus! {

/// A fungible token type: decimal precision, optional mint authority, the
/// outstanding supply, and the transfer-hook program registered on it, if
/// any.
#[derive(Clone, Copy, Debug, PartialEq, Eq)]
pub struct Mint {
    pub decimals: u8,
    pub mint_authority: Option<Address>,
    pub supply: u64,
    pub transfer_hook_program: Option<Address>,
}

/// A token-bearing account: the mint it belongs to, the principal that can
/// authorise outflows, and its balance.
#[derive(Clone, Copy, Debug, PartialEq, Eq)]
pub struct TokenAccount {
    pub mint: Address,
    pub owner: Address,
    pub amount: u64,
}

/// Outcome of a decimal-checked transfer: either the updated pair
/// `(source, destination)` or the first failing check, in the ledger's
/// order of checks.
pub open spec fn transfer_checked_spec(
    from: TokenAccount,
    mint_id: Address,
    mint: Mint,
    to: TokenAccount,
    authority: Address,
    amount: u64,
    decimals: u8,
) -> Result<(TokenAccount, TokenAccount), LedgerError> {
    if from.mint != mint_id || to.mint != mint_id {
        Err(LedgerError::MintMismatch)
    } else if authority != from.owner {
        Err(LedgerError::WrongAuthority)
    } else if decimals != mint.decimals {
        Err(LedgerError::DecimalsMismatch)
    } else if from.amount < amount {
        Err(LedgerError::InsufficientFunds)
    } else if to.amount + amount > u64::MAX {
        Err(LedgerError::BalanceOverflow)
    } else {
        Ok(
            (
                TokenAccount { amount: (from.amount - amount) as u64, ..from },
                TokenAccount { amount: (to.amount + amount) as u64, ..to },
            ),
        )
    }
}

/// Moves `amount` base units of `mint_id` from `from` to `to`, after the
/// ledger's checks: both accounts belong to the mint, `authority` owns the
/// source, the supplied decimals match the mint, the source covers the
/// amount, and the destination does not overflow.  On failure nothing
/// moves.
pub fn transfer_checked(
    from: &mut TokenAccount,
    mint_id: &Address,
    mint: &Mint,
    to: &mut TokenAccount,
    authority: &Address,
    amount: u64,
    decimals: u8,
) -> (r: Result<(), LedgerError>)
    ensures
        match r {
            Ok(()) => transfer_checked_spec(
                *old(from),
                *mint_id,
                *mint,
                *old(to),
                *authority,
                amount,
                decimals,
            ) == Ok::<_, LedgerError>((*final(from), *final(to))),
            Err(e) => transfer_checked_spec(
                *old(from),
                *mint_id,
                *mint,
                *old(to),
                *authority,
                amount,
                decimals,
            ) == Err::<(TokenAccount, TokenAccount), _>(e) && *final(from) == *old(from)
                && *final(to) == *old(to),
        },
{
    if from.mint != *mint_id || to.mint != *mint_id {
        return Err(LedgerError::MintMismatch);
    }
    if *authority != from.owner {
        return Err(LedgerError::WrongAuthority);
    }
    if decimals != mint.decimals {
        return Err(LedgerError::DecimalsMismatch);
    }
    if from.amount < amount {
        return Err(LedgerError::InsufficientFunds);
    }
    if amount > u64::MAX - to.amount {
        return Err(LedgerError::BalanceOverflow);
    }
    from.amount = from.amount - amount;
    to.amount = to.amount + amount;
    Ok(())
}

/// A committed transfer conserves value: the source loses exactly what
/// the destination gains, and neither account changes its mint or its
/// owner.
pub proof fn lemma_transfer_conserves_value(
    from: TokenAccount,
    mint_id: Address,
    mint: Mint,
    to: TokenAccount,
    authority: Address,
    amount: u64,
    decimals: u8,
)
    requires
        transfer_checked_spec(from, mint_id, mint, to, authority, amount, decimals) is Ok,
    ensures
        ({
            let (f, t) = transfer_checked_spec(
                from,
                mint_id,
                mint,
                to,
                authority,
                amount,
                decimals,
            )->Ok_0;
            &&& f.amount + t.amount == from.amount + to.amount
            &&& f.amount == from.amount - amount
            &&& t.amount == to.amount + amount
            &&& f.mint == from.mint && f.owner == from.owner
            &&& t.mint == to.mint && t.owner == to.owner
        }),
{
}

/// A committed mint grows the supply by exactly what the destination
/// gains.
pub proof fn lemma_mint_tracks_supply(
    mint_id: Address,
    mint: Mint,
    to: TokenAccount,
    authority: Address,
    amount: u64,
    decimals: u8,
)
    requires
        mint_to_checked_spec(mint_id, mint, to, authority, amount, decimals) is Ok,
    ensures
        ({
            let (m, t) = mint_to_checked_spec(mint_id, mint, to, authority, amount, decimals)->Ok_0;
            &&& m.supply - mint.supply == t.amount - to.amount
            &&& m.supply == mint.supply + amount
        }),
{
}

/// Outcome of a decimal-checked mint: either the updated `(mint, account)`
/// pair or the first failing check.
pub open spec fn mint_to_checked_spec(
    mint_id: Address,
    mint: Mint,
    to: TokenAccount,
    authority: Address,
    amount: u64,
    decimals: u8,
) -> Result<(Mint, TokenAccount), LedgerError> {
    if to.mint != mint_id {
        Err(LedgerError::MintMismatch)
    } else if !(mint.mint_authority matches Some(a) && a == authority) {
        Err(LedgerError::WrongAuthority)
    } else if decimals != mint.decimals {
        Err(LedgerError::DecimalsMismatch)
    } else if mint.supply + amount > u64::MAX || to.amount + amount > u64::MAX {
        Err(LedgerError::BalanceOverflow)
    } else {
        Ok(
            (
                Mint { supply: (mint.supply + amount) as u64, ..mint },
                TokenAccount { amount: (to.amount + amount) as u64, ..to },
            ),
        )
    }
}

/// Mints `amount` base units of `mint_id` to `to`, after the ledger's
/// checks: the account belongs to the mint, `authority` is the mint
/// authority, the decimals match, and neither the supply nor the balance
/// overflows.  On failure nothing changes.
pub fn mint_to_checked(
    mint_id: &Address,
    mint: &mut Mint,
    to: &mut TokenAccount,
    authority: &Address,
    amount: u64,
    decimals: u8,
) -> (r: Result<(), LedgerError>)
    ensures
        match r {
            Ok(()) => mint_to_checked_spec(
                *mint_id,
                *old(mint),
                *old(to),
                *authority,
                amount,
                decimals,
            ) == Ok::<_, LedgerError>((*final(mint), *final(to))),
            Err(e) => mint_to_checked_spec(
                *mint_id,
                *old(mint),
                *old(to),
                *authority,
                amount,
                decimals,
            ) == Err::<(Mint, TokenAccount), _>(e) && *final(mint) == *old(mint) && *final(to)
                == *old(to),
        },
{
    if to.mint != *mint_id {
        return Err(LedgerError::MintMismatch);
    }
    let authority_ok = match &mint.mint_authority {
        Some(a) => *a == *authority,
        None => false,
    };
    if !authority_ok {
        return Err(LedgerError::WrongAuthority);
    }
    if decimals != mint.decimals {
        return Err(LedgerError::DecimalsMismatch);
    }
    if amount > u64::MAX - mint.supply || amount > u64::MAX - to.amount {
        return Err(LedgerError::BalanceOverflow);
    }
    mint.supply = mint.supply + amount;
    to.amount = to.amount + amount;
    Ok(())
}

} // verus!
