//! The vault state machine's value movements: `deposit` and `withdraw`.
//!
//! Every movement is decimal-checked by the token ledger and gated by the
//! pre-transfer policy (the identity whitelist) inside the same atomic
//! unit; on any failure the whole account set is left exactly as it was.

use vstd::prelude::*;

use crate::addr::Address;
use crate::create_vault::Vault;
use crate::error::{LedgerError, VaultError};
use crate::policy;
use crate::token::{transfer_checked, transfer_checked_spec, Mint, TokenAccount};
use crate::whitelist::{
    active_entry, deposited_sum, entry_index, has_entry, lemma_deposited_sum_remove,
    lemma_deposited_sum_update, lemma_entry_index_is, unique_entries, Whitelist, WhitelistView,
};

verus! {

/// Abstract state of a [`DepositWithdraw`] account set.
#[verifier::ext_equal]
pub struct DepositWithdrawView {
    pub sender: Address,
    pub owner: Address,
    pub mint_id: Address,
    pub mint: Mint,
    pub hook_program_id: Address,
    pub vault_state_id: Address,
    pub vault_state: Vault,
    pub vault_ata: TokenAccount,
    pub user_ata_id: Address,
    pub user_ata: TokenAccount,
    pub whitelist: WhitelistView,
}

/// The account set of `deposit` and `withdraw`: the signing sender, the
/// platform owner, the hooked mint, the vault record with its custody
/// account, the sender's token account, and the whitelist the policy
/// reads.
#[derive(Clone, Debug, PartialEq, Eq)]
pub struct DepositWithdraw {
    /// The signer moving value.
    pub sender: Address,
    /// The platform admin; must be the mint's authority.
    pub owner: Address,
    /// Identity of the pooled mint.
    pub mint_id: Address,
    /// The pooled mint; carries the policy program as its transfer hook.
    pub mint: Mint,
    /// The policy (transfer-hook) program's identity.
    pub hook_program_id: Address,
    /// Identity of the vault record, derived from `(mint, "vault")`.
    pub vault_state_id: Address,
    /// The vault record.
    pub vault_state: Vault,
    /// The vault's pooled custody token account.
    pub vault_ata: TokenAccount,
    /// Identity of the sender's token account: the key under which the
    /// whitelist lists the sender.
    pub user_ata_id: Address,
    /// The sender's token account.
    pub user_ata: TokenAccount,
    /// The whitelist record the policy and the accounting read.
    pub whitelist: Whitelist,
}

impl View for DepositWithdraw {
    type V = DepositWithdrawView;

    open spec fn view(&self) -> DepositWithdrawView {
        DepositWithdrawView {
            sender: self.sender,
            owner: self.owner,
            mint_id: self.mint_id,
            mint: self.mint,
            hook_program_id: self.hook_program_id,
            vault_state_id: self.vault_state_id,
            vault_state: self.vault_state,
            vault_ata: self.vault_ata,
            user_ata_id: self.user_ata_id,
            user_ata: self.user_ata,
            whitelist: self.whitelist@,
        }
    }
}

/// The account bindings the dispatcher validates before either handler
/// runs, with the error each broken binding raises: the mint's authority
/// and hook registration, the vault record's existence and mint, and the
/// mint of every token account, including the custody account's owner.
pub open spec fn validate_spec(v: DepositWithdrawView) -> Result<(), VaultError> {
    if !(v.mint.mint_authority matches Some(a) && a == v.owner) {
        Err(VaultError::WrongMintAuthority)
    } else if v.mint.transfer_hook_program != Some(v.hook_program_id) {
        Err(VaultError::WrongMint)
    } else if v.vault_state.owner.is_zero() {
        Err(VaultError::VaultNotCreated)
    } else if v.vault_state.mint != v.mint_id {
        Err(VaultError::WrongMint)
    } else if v.vault_ata.mint != v.mint_id {
        Err(VaultError::WrongMint)
    } else if v.vault_ata.owner != v.vault_state_id {
        Err(VaultError::WrongATA)
    } else if v.user_ata.mint != v.mint_id {
        Err(VaultError::WrongMint)
    } else {
        Ok(())
    }
}

/// The accounting invariant of the identity-whitelist policy: the
/// deposited balances recorded in the whitelist sum to the vault's
/// custody balance.
pub open spec fn accounting_ok(v: DepositWithdrawView) -> bool {
    deposited_sum(v.whitelist.entries) == v.vault_ata.amount
}

/// A fresh pool satisfies the accounting invariant: an empty custody
/// account and a whitelist with no entries, as `create_vault` and the
/// whitelist's first allocation leave them.  `deposit` and `withdraw`
/// each preserve the invariant from there, so it holds after every
/// committed movement.
pub proof fn lemma_fresh_pool_accounting(v: DepositWithdrawView)
    requires
        v.whitelist.entries.len() == 0,
        v.vault_ata.amount == 0,
    ensures
        accounting_ok(v),
{
}

/// Outcome of `deposit`: after the binding checks, the sender must cover
/// the amount, the policy must allow the movement, and the credit must
/// fit; then the ledger moves `amount` from the sender's account into the
/// vault's custody account and the sender's whitelist entry is credited.
pub open spec fn deposit_spec(v: DepositWithdrawView, amount: u64) -> Result<
    DepositWithdrawView,
    VaultError,
> {
    if validate_spec(v) is Err {
        Err(validate_spec(v)->Err_0)
    } else if v.user_ata.amount < amount {
        Err(VaultError::InsufficientBalance)
    } else if !active_entry(v.whitelist.entries, v.user_ata_id) {
        Err(VaultError::PolicyDenied)
    } else {
        let i = entry_index(v.whitelist.entries, v.user_ata_id);
        let e = v.whitelist.entries[i];
        if e.1 + amount > u64::MAX {
            Err(VaultError::DepositOverflow)
        } else {
            match transfer_checked_spec(
                v.user_ata,
                v.mint_id,
                v.mint,
                v.vault_ata,
                v.sender,
                amount,
                v.mint.decimals,
            ) {
                Ok((from, to)) => Ok(
                    DepositWithdrawView {
                        user_ata: from,
                        vault_ata: to,
                        whitelist: WhitelistView {
                            entries: v.whitelist.entries.update(
                                i,
                                (e.0, (e.1 + amount) as u64, e.2),
                            ),
                            ..v.whitelist
                        },
                        ..v
                    },
                ),
                Err(le) => Err(VaultError::Ledger(le)),
            }
        }
    }
}

/// Outcome of `withdraw`: after the binding checks, the sender must be
/// listed (`UserNotPresent`), active (`UserNotWhitelisted`) and must have
/// deposited at least `amount` (`InsufficientBalance`); then the ledger
/// moves `amount` from the vault's custody account to the sender,
/// authorised by the vault record's identity, and the entry is debited —
/// and removed when its balance reaches zero.
pub open spec fn withdraw_spec(v: DepositWithdrawView, amount: u64) -> Result<
    DepositWithdrawView,
    VaultError,
> {
    if validate_spec(v) is Err {
        Err(validate_spec(v)->Err_0)
    } else if !has_entry(v.whitelist.entries, v.user_ata_id) {
        Err(VaultError::UserNotPresent)
    } else {
        let i = entry_index(v.whitelist.entries, v.user_ata_id);
        let e = v.whitelist.entries[i];
        if !e.2 {
            Err(VaultError::UserNotWhitelisted)
        } else if e.1 < amount {
            Err(VaultError::InsufficientBalance)
        } else {
            match transfer_checked_spec(
                v.vault_ata,
                v.mint_id,
                v.mint,
                v.user_ata,
                v.vault_state_id,
                amount,
                v.mint.decimals,
            ) {
                Ok((from, to)) => Ok(
                    DepositWithdrawView {
                        vault_ata: from,
                        user_ata: to,
                        whitelist: WhitelistView {
                            entries: if e.1 == amount {
                                v.whitelist.entries.remove(i)
                            } else {
                                v.whitelist.entries.update(i, (e.0, (e.1 - amount) as u64, e.2))
                            },
                            ..v.whitelist
                        },
                        ..v
                    },
                ),
                Err(le) => Err(VaultError::Ledger(le)),
            }
        }
    }
}

impl DepositWithdraw {
    /// Checks the account bindings, in the dispatcher's order.
    pub fn validate(&self) -> (r: Result<(), VaultError>)
        ensures
            r == validate_spec(self@),
    {
        let authority_ok = match &self.mint.mint_authority {
            Some(a) => *a == self.owner,
            None => false,
        };
        if !authority_ok {
            return Err(VaultError::WrongMintAuthority);
        }
        let hook_ok = match &self.mint.transfer_hook_program {
            Some(h) => *h == self.hook_program_id,
            None => false,
        };
        if !hook_ok {
            return Err(VaultError::WrongMint);
        }
        if self.vault_state.owner.is_unset() {
            return Err(VaultError::VaultNotCreated);
        }
        if self.vault_state.mint != self.mint_id {
            return Err(VaultError::WrongMint);
        }
        if self.vault_ata.mint != self.mint_id {
            return Err(VaultError::WrongMint);
        }
        if self.vault_ata.owner != self.vault_state_id {
            return Err(VaultError::WrongATA);
        }
        if self.user_ata.mint != self.mint_id {
            return Err(VaultError::WrongMint);
        }
        Ok(())
    }

    /// Deposits `amount` from the sender's account into the vault's
    /// custody account and credits the sender's whitelist entry, all in
    /// one atomic unit: on any failure the whole account set is left
    /// unchanged, and a policy denial in particular changes nothing.
    pub fn deposit(&mut self, amount: u64) -> (r: Result<(), VaultError>)
        requires
            old(self).whitelist.wf(),
        ensures
            final(self).whitelist.wf(),
            match r {
                Ok(()) => deposit_spec(old(self)@, amount) == Ok::<_, VaultError>(final(self)@),
                Err(e) => deposit_spec(old(self)@, amount) == Err::<DepositWithdrawView, _>(e)
                    && final(self)@ == old(self)@,
            },
            r is Ok && accounting_ok(old(self)@) ==> accounting_ok(final(self)@),
            r == Err::<(), VaultError>(VaultError::PolicyDenied) <==> (validate_spec(old(self)@)
                is Ok && old(self).user_ata.amount >= amount && !active_entry(
                old(self).whitelist.address@,
                old(self).user_ata_id,
            )),
    {
        if let Err(e) = self.validate() {
            return Err(e);
        }
        if self.user_ata.amount < amount {
            return Err(VaultError::InsufficientBalance);
        }
        if !policy::allow(&self.whitelist, &self.user_ata_id) {
            return Err(VaultError::PolicyDenied);
        }
        let ghost pre = self@;
        // The policy found an active entry; locate it so the credit can
        // be checked before the ledger commits anything.
        let i = match self.whitelist.find_index(&self.user_ata_id) {
            Some(i) => i,
            None => {
                proof {
                    assert(false);
                }
                return Err(VaultError::UserNotWhitelisted);
            },
        };
        proof {
            lemma_entry_index_is(pre.whitelist.entries, pre.user_ata_id, i as int);
        }
        let e = self.whitelist.address[i];
        if amount > u64::MAX - e.1 {
            return Err(VaultError::DepositOverflow);
        }
        match transfer_checked(
            &mut self.user_ata,
            &self.mint_id,
            &self.mint,
            &mut self.vault_ata,
            &self.sender,
            amount,
            self.mint.decimals,
        ) {
            Ok(()) => {},
            Err(le) => {
                return Err(VaultError::Ledger(le));
            },
        }
        match self.whitelist.credit(&self.user_ata_id, amount) {
            Ok(()) => {
                proof {
                    lemma_deposited_sum_update(
                        pre.whitelist.entries,
                        i as int,
                        (e.0, (e.1 + amount) as u64, e.2),
                    );
                }
                Ok(())
            },
            Err(err) => {
                // Unreachable: the entry exists and the credit fits.
                proof {
                    assert(false);
                }
                Err(err)
            },
        }
    }

    /// Withdraws `amount` from the vault's custody account back to the
    /// sender and debits the sender's whitelist entry, removing it when
    /// its balance reaches zero — all in one atomic unit: on any failure
    /// the whole account set is left unchanged.
    pub fn withdraw(&mut self, amount: u64) -> (r: Result<(), VaultError>)
        requires
            old(self).whitelist.wf(),
        ensures
            final(self).whitelist.wf(),
            match r {
                Ok(()) => withdraw_spec(old(self)@, amount) == Ok::<_, VaultError>(final(self)@),
                Err(e) => withdraw_spec(old(self)@, amount) == Err::<DepositWithdrawView, _>(e)
                    && final(self)@ == old(self)@,
            },
            r is Ok && accounting_ok(old(self)@) ==> accounting_ok(final(self)@),
    {
        if let Err(e) = self.validate() {
            return Err(e);
        }
        let ghost pre = self@;
        let i = match self.whitelist.find_index(&self.user_ata_id) {
            Some(i) => i,
            None => {
                return Err(VaultError::UserNotPresent);
            },
        };
        proof {
            lemma_entry_index_is(pre.whitelist.entries, pre.user_ata_id, i as int);
        }
        let e = self.whitelist.address[i];
        if !e.2 {
            return Err(VaultError::UserNotWhitelisted);
        }
        if e.1 < amount {
            return Err(VaultError::InsufficientBalance);
        }
        match transfer_checked(
            &mut self.vault_ata,
            &self.mint_id,
            &self.mint,
            &mut self.user_ata,
            &self.vault_state_id,
            amount,
            self.mint.decimals,
        ) {
            Ok(()) => {},
            Err(le) => {
                return Err(VaultError::Ledger(le));
            },
        }
        match self.whitelist.debit(&self.user_ata_id, amount) {
            Ok(()) => {
                proof {
                    if e.1 == amount {
                        lemma_deposited_sum_remove(pre.whitelist.entries, i as int);
                    } else {
                        lemma_deposited_sum_update(
                            pre.whitelist.entries,
                            i as int,
                            (e.0, (e.1 - amount) as u64, e.2),
                        );
                    }
                }
                Ok(())
            },
            Err(err) => {
                // Unreachable: the entry exists and covers the amount.
                proof {
                    assert(false);
                }
                Err(err)
            },
        }
    }
}

/// Withdrawing a deposit straight back restores both balances exactly:
/// whenever a deposit commits, a withdrawal of the same amount on the
/// resulting state always commits too, and it returns the sender's
/// account and the vault's custody account to what they were before the
/// deposit.
pub proof fn lemma_deposit_then_withdraw_restores(v: DepositWithdrawView, amount: u64)
    requires
        unique_entries(v.whitelist.entries),
        deposit_spec(v, amount) is Ok,
    ensures
        ({
            let d = deposit_spec(v, amount)->Ok_0;
            &&& withdraw_spec(d, amount) is Ok
            &&& withdraw_spec(d, amount)->Ok_0.user_ata == v.user_ata
            &&& withdraw_spec(d, amount)->Ok_0.vault_ata == v.vault_ata
        }),
{
    let i = entry_index(v.whitelist.entries, v.user_ata_id);
    let e = v.whitelist.entries[i];
    let d = deposit_spec(v, amount)->Ok_0;
    assert(active_entry(v.whitelist.entries, v.user_ata_id));
    assert(e.2) by {
        let j = choose|j: int|
            0 <= j < v.whitelist.entries.len() && v.whitelist.entries[j].0 == v.user_ata_id
                && v.whitelist.entries[j].2;
        if j != i {
            if j < i {
                assert(v.whitelist.entries[j].0 != v.whitelist.entries[i].0);
            } else {
                assert(v.whitelist.entries[i].0 != v.whitelist.entries[j].0);
            }
        }
    }
    assert(unique_entries(d.whitelist.entries)) by {
        assert forall|p: int, q: int|
            0 <= p < q < d.whitelist.entries.len() implies d.whitelist.entries[p].0
            != d.whitelist.entries[q].0 by {
            assert(v.whitelist.entries[p].0 != v.whitelist.entries[q].0);
        }
    }
    lemma_entry_index_is(d.whitelist.entries, v.user_ata_id, i);
    let w = withdraw_spec(d, amount)->Ok_0;
    assert(w.user_ata =~= v.user_ata);
    assert(w.vault_ata =~= v.vault_ata);
}

} // verus!
