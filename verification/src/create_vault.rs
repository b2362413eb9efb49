//! The vault record and its creation handler.

use vstd::prelude::*;

use crate::addr::Address;
use crate::error::VaultError;
use crate::token::{Mint, TokenAccount};

verus! {

/// The vault record: the mint it pools, the admin that owns it (set once,
/// on creation), and the bump persisted so the program can reconstitute
/// the vault's signer from `(mint, "vault", bump)` on demand.
#[derive(Clone, Copy, Debug, PartialEq, Eq)]
pub struct Vault {
    pub mint: Address,
    pub owner: Address,
    pub vault_bump: u8,
}

/// The account set of `create_vault`: the signing owner, the freshly
/// created hooked mint, the vault record at its derived identity, and the
/// vault's custody token account.
#[derive(Clone, Copy, Debug, PartialEq, Eq)]
pub struct VaultOperation {
    /// The signer creating the vault; becomes the vault's admin.
    pub owner: Address,
    /// Identity of the mint the vault pools.
    pub mint_id: Address,
    /// The mint itself, created alongside the vault with the policy
    /// program registered as its transfer hook.
    pub mint: Mint,
    /// The policy (transfer-hook) program's identity.
    pub hook_program_id: Address,
    /// Identity of the vault record, derived from `(mint, "vault")`.
    pub vault_state_id: Address,
    /// The vault record; zeroed until `create_vault` fills it.
    pub vault_state: Vault,
    /// The vault's pooled custody token account, owned by the record's
    /// identity.
    pub vault_ata: TokenAccount,
}

impl VaultOperation {
    /// The bindings the runtime establishes when it allocates the account
    /// set: the mint is fresh, carries the policy program as its transfer
    /// hook, and is owned by the signer; the custody account is a fresh,
    /// empty account of that mint owned by the vault record's identity.
    pub open spec fn bindings_ok(self) -> bool {
        &&& self.mint.mint_authority == Some(self.owner)
        &&& self.mint.transfer_hook_program == Some(self.hook_program_id)
        &&& self.vault_ata.mint == self.mint_id
        &&& self.vault_ata.owner == self.vault_state_id
        &&& self.vault_ata.amount == 0
    }

    /// Outcome of `create_vault`: the record is filled set-once, or the
    /// call fails because it was already set.
    pub open spec fn create_vault_spec(self, vault_bump: u8) -> Result<VaultOperation, VaultError> {
        if self.vault_state.owner.is_zero() {
            Ok(
                VaultOperation {
                    vault_state: Vault {
                        mint: self.mint_id,
                        owner: self.owner,
                        vault_bump,
                    },
                    ..self
                },
            )
        } else {
            Err(VaultError::VaultAlreadyExists)
        }
    }

    /// Initialises the vault record with the mint, the signing owner and
    /// the persisted bump.  Fails with `VaultAlreadyExists` when the
    /// record's owner is already set; nothing changes on failure.
    pub fn create_vault(&mut self, vault_bump: u8) -> (r: Result<(), VaultError>)
        requires
            old(self).bindings_ok(),
        ensures
            match r {
                Ok(()) => old(self).create_vault_spec(vault_bump) == Ok::<_, VaultError>(
                    *final(self),
                ),
                Err(e) => old(self).create_vault_spec(vault_bump) == Err::<VaultOperation, _>(e)
                    && *final(self) == *old(self),
            },
    {
        if !self.vault_state.owner.is_unset() {
            return Err(VaultError::VaultAlreadyExists);
        }
        self.vault_state = Vault { mint: self.mint_id, owner: self.owner, vault_bump };
        Ok(())
    }
}

} // verus!
