//! The sharded whitelist: one record per user, at the identity derived
//! from `("whitelist", user_ata)`, so that membership and balance checks
//! are reads of a deterministic identity instead of a linear scan.

use vstd::prelude::*;

use crate::addr::Address;
use crate::whitelist_error::WhitelistError;

verus! {

/// One per-user whitelist record: the listed token account, whether it
/// is currently whitelisted, and the bump of the record's derived
/// identity.
#[derive(Clone, Copy, Debug, PartialEq, Eq)]
pub struct Whitelist {
    pub user_address: Address,
    pub is_whitelisted: bool,
    pub bump: u8,
}

/// The account set of the sharded whitelist operations: the signing
/// admin and the one per-user record the call touches.
#[derive(Clone, Copy, Debug, PartialEq, Eq)]
pub struct WhitelistOperations {
    /// The signer paying for and mutating the record.
    pub admin: Address,
    /// The per-user record at the identity derived from the user's
    /// token account.
    pub whitelist: Whitelist,
}

impl WhitelistOperations {
    /// Marks `address` as whitelisted in its record, persisting the
    /// record's bump.  Fails with `AlreadyWhitelisted` when the record
    /// is already active; nothing changes on failure.
    pub fn add_to_whitelist(&mut self, address: Address, bump: u8) -> (r: Result<
        (),
        WhitelistError,
    >)
        ensures
            match r {
                Ok(()) => !old(self).whitelist.is_whitelisted && *final(self)
                    == WhitelistOperations {
                    whitelist: Whitelist { user_address: address, is_whitelisted: true, bump },
                    ..*old(self)
                },
                Err(WhitelistError::AlreadyWhitelisted) => old(self).whitelist.is_whitelisted
                    && *final(self) == *old(self),
                Err(_) => false,
            },
    {
        if self.whitelist.is_whitelisted {
            return Err(WhitelistError::AlreadyWhitelisted);
        }
        self.whitelist = Whitelist { user_address: address, is_whitelisted: true, bump };
        Ok(())
    }

    /// Clears the whitelisted mark of the record.  Fails with
    /// `AccountNotWhitelisted` when the record is not active; nothing
    /// changes on failure.
    pub fn remove_from_whitelist(&mut self) -> (r: Result<(), WhitelistError>)
        ensures
            match r {
                Ok(()) => old(self).whitelist.is_whitelisted && *final(self)
                    == WhitelistOperations {
                    whitelist: Whitelist { is_whitelisted: false, ..old(self).whitelist },
                    ..*old(self)
                },
                Err(WhitelistError::AccountNotWhitelisted) => !old(self).whitelist.is_whitelisted
                    && *final(self) == *old(self),
                Err(_) => false,
            },
    {
        if !self.whitelist.is_whitelisted {
            return Err(WhitelistError::AccountNotWhitelisted);
        }
        self.whitelist.is_whitelisted = false;
        Ok(())
    }
}

} // verus!
