//! Admin-gated whitelist mutation, with the paired storage-resize
//! protocol: growing the record first tops up its rent reservation from
//! the admin, shrinking refunds the difference — committed together with
//! the resize or not at all.

use vstd::prelude::*;

use crate::addr::Address;
use crate::create_vault::Vault;
use crate::error::{StorageError, VaultError};
use crate::whitelist::{
    entry_index, has_entry, lemma_entry_index_is, unique_entries, Whitelist, WhitelistView,
};

verus! {

/// Bytes one whitelist entry occupies: a 32-byte address, an 8-byte
/// deposited balance and a 1-byte active flag.
pub const WHITELIST_ENTRY_SIZE: u64 = 41;

/// Bytes of the record around the entries: an 8-byte discriminator, a
/// 4-byte entry count, a 1-byte bump and a 32-byte admin.
pub const WHITELIST_BASE_SIZE: u64 = 45;

/// Storage overhead the rent formula charges per account.
pub const ACCOUNT_STORAGE_OVERHEAD: u64 = 128;

/// Rent rate per byte-year.
pub const LAMPORTS_PER_BYTE_YEAR: u64 = 3480;

/// Years of rent a reservation must cover to be exempt.
pub const RENT_EXEMPTION_YEARS: u64 = 2;

/// The runtime's account-size budget.
pub const MAX_ACCOUNT_DATA_LEN: u64 = 10485760;

/// The minimum rent reservation for a record of `data_len` bytes.
pub open spec fn min_balance(data_len: u64) -> int {
    (ACCOUNT_STORAGE_OVERHEAD + data_len) * LAMPORTS_PER_BYTE_YEAR * RENT_EXEMPTION_YEARS
}

/// Abstract state of a [`WhitelistOperations`] account set.
#[verifier::ext_equal]
pub struct WhitelistOperationsView {
    pub admin: Address,
    pub admin_lamports: u64,
    pub whitelist: WhitelistView,
    pub whitelist_lamports: u64,
    pub whitelist_data_len: u64,
    pub vault: Vault,
}

/// The account set of the whitelist operations: the signing admin with
/// its lamport balance, the whitelist record with its lamport balance and
/// allocated size, and the vault whose owner gates the operations.
#[derive(Clone, Debug, PartialEq, Eq)]
pub struct WhitelistOperations {
    /// The signer; must be the vault's owner.
    pub admin: Address,
    /// The admin's lamport balance, debited and refunded by resizes.
    pub admin_lamports: u64,
    /// The whitelist record.
    pub whitelist: Whitelist,
    /// The record's rent reservation.
    pub whitelist_lamports: u64,
    /// The record's allocated size in bytes.
    pub whitelist_data_len: u64,
    /// The vault record whose owner is the only permitted caller.
    pub vault: Vault,
}

impl View for WhitelistOperations {
    type V = WhitelistOperationsView;

    open spec fn view(&self) -> WhitelistOperationsView {
        WhitelistOperationsView {
            admin: self.admin,
            admin_lamports: self.admin_lamports,
            whitelist: self.whitelist@,
            whitelist_lamports: self.whitelist_lamports,
            whitelist_data_len: self.whitelist_data_len,
            vault: self.vault,
        }
    }
}

/// The record's rent reservation matches its allocated size, and the size
/// is within the runtime's budget.
pub open spec fn rent_synced(v: WhitelistOperationsView) -> bool {
    &&& v.whitelist_data_len <= MAX_ACCOUNT_DATA_LEN
    &&& WHITELIST_BASE_SIZE <= v.whitelist_data_len
    &&& v.whitelist_lamports == min_balance(v.whitelist_data_len)
}

/// Well-formedness of the account set: unique entries, the allocated
/// size accounts for exactly the entries held, and the rent reservation
/// matches it.
pub open spec fn ops_wf(v: WhitelistOperationsView) -> bool {
    &&& unique_entries(v.whitelist.entries)
    &&& v.whitelist_data_len == WHITELIST_BASE_SIZE + WHITELIST_ENTRY_SIZE
        * v.whitelist.entries.len()
    &&& rent_synced(v)
}

/// Outcome of the storage-resize protocol.  Growing: the record gains one
/// entry's bytes, and the rent difference moves from the admin to the
/// record.  Shrinking: the reverse, refunding the admin.  Both commit
/// together or not at all.
pub open spec fn realloc_spec(v: WhitelistOperationsView, is_adding: bool) -> Result<
    WhitelistOperationsView,
    VaultError,
> {
    if is_adding {
        let new_len = v.whitelist_data_len + WHITELIST_ENTRY_SIZE;
        if new_len > MAX_ACCOUNT_DATA_LEN {
            Err(VaultError::Storage(StorageError::SizeLimitExceeded))
        } else {
            let diff = min_balance(new_len as u64) - min_balance(v.whitelist_data_len);
            if v.admin_lamports < diff {
                Err(VaultError::Storage(StorageError::InsufficientFunds))
            } else {
                Ok(
                    WhitelistOperationsView {
                        admin_lamports: (v.admin_lamports - diff) as u64,
                        whitelist_lamports: (v.whitelist_lamports + diff) as u64,
                        whitelist_data_len: new_len as u64,
                        ..v
                    },
                )
            }
        }
    } else {
        let new_len = v.whitelist_data_len - WHITELIST_ENTRY_SIZE;
        let diff = min_balance(v.whitelist_data_len) - min_balance(new_len as u64);
        if v.admin_lamports + diff > u64::MAX {
            Err(VaultError::Storage(StorageError::BalanceOverflow))
        } else {
            Ok(
                WhitelistOperationsView {
                    admin_lamports: (v.admin_lamports + diff) as u64,
                    whitelist_lamports: (v.whitelist_lamports - diff) as u64,
                    whitelist_data_len: new_len as u64,
                    ..v
                },
            )
        }
    }
}

/// Outcome of `add_to_whitelist`: admin-gated; initialises the record's
/// admin and bump on first use; idempotent when the address is already
/// listed; otherwise grows the record and appends `(address, 0, active)`.
pub open spec fn add_to_whitelist_spec(
    v: WhitelistOperationsView,
    address: Address,
    bump: u8,
) -> Result<WhitelistOperationsView, VaultError> {
    if v.admin != v.vault.owner {
        Err(VaultError::NotAdmin)
    } else {
        let v1 = if v.whitelist.admin.is_zero() {
            WhitelistOperationsView {
                whitelist: WhitelistView { admin: v.admin, bump, ..v.whitelist },
                ..v
            }
        } else {
            v
        };
        if has_entry(v1.whitelist.entries, address) {
            Ok(v1)
        } else {
            match realloc_spec(v1, true) {
                Ok(v2) => Ok(
                    WhitelistOperationsView {
                        whitelist: WhitelistView {
                            entries: v2.whitelist.entries.push((address, 0u64, true)),
                            ..v2.whitelist
                        },
                        ..v2
                    },
                ),
                Err(e) => Err(e),
            }
        }
    }
}

/// Outcome of `remove_from_whitelist`: admin-gated; the address must be
/// listed; the record shrinks, the rent difference is refunded, and the
/// entry is removed.
pub open spec fn remove_from_whitelist_spec(
    v: WhitelistOperationsView,
    address: Address,
) -> Result<WhitelistOperationsView, VaultError> {
    if v.admin != v.vault.owner {
        Err(VaultError::NotAdmin)
    } else if !has_entry(v.whitelist.entries, address) {
        Err(VaultError::UserNotPresent)
    } else {
        match realloc_spec(v, false) {
            Ok(v2) => Ok(
                WhitelistOperationsView {
                    whitelist: WhitelistView {
                        entries: v2.whitelist.entries.remove(
                            entry_index(v2.whitelist.entries, address),
                        ),
                        ..v2.whitelist
                    },
                    ..v2
                },
            ),
            Err(e) => Err(e),
        }
    }
}

impl WhitelistOperations {
    /// A freshly allocated, empty whitelist record with its rent
    /// reservation, as the runtime leaves it right after the first
    /// allocation: no entries, admin and bump not yet set.
    pub fn new(admin: Address, admin_lamports: u64, vault: Vault) -> (r: WhitelistOperations)
        ensures
            ops_wf(r@),
            r.admin == admin,
            r.admin_lamports == admin_lamports,
            r.vault == vault,
            r.whitelist.address@.len() == 0,
            r.whitelist.admin.is_zero(),
    {
        WhitelistOperations {
            admin,
            admin_lamports,
            whitelist: Whitelist {
                address: Vec::new(),
                whitelist_bump: 0,
                admin: Address::zero(),
            },
            whitelist_lamports: (ACCOUNT_STORAGE_OVERHEAD + WHITELIST_BASE_SIZE)
                * LAMPORTS_PER_BYTE_YEAR * RENT_EXEMPTION_YEARS,
            whitelist_data_len: WHITELIST_BASE_SIZE,
            vault,
        }
    }

    /// Resizes the whitelist record by one entry and moves the rent
    /// difference between the admin and the record, as one atomic step.
    pub fn realloc_whitelist(&mut self, is_adding: bool) -> (r: Result<(), VaultError>)
        requires
            rent_synced(old(self)@),
            !is_adding ==> old(self).whitelist_data_len >= WHITELIST_BASE_SIZE
                + WHITELIST_ENTRY_SIZE,
        ensures
            match r {
                Ok(()) => realloc_spec(old(self)@, is_adding) == Ok::<_, VaultError>(final(self)@),
                Err(e) => realloc_spec(old(self)@, is_adding) == Err::<
                    WhitelistOperationsView,
                    _,
                >(e) && final(self)@ == old(self)@,
            },
    {
        if is_adding {
            if self.whitelist_data_len > MAX_ACCOUNT_DATA_LEN - WHITELIST_ENTRY_SIZE {
                return Err(VaultError::Storage(StorageError::SizeLimitExceeded));
            }
            let new_len = self.whitelist_data_len + WHITELIST_ENTRY_SIZE;
            let required = (ACCOUNT_STORAGE_OVERHEAD + new_len) * LAMPORTS_PER_BYTE_YEAR
                * RENT_EXEMPTION_YEARS;
            let diff = required - self.whitelist_lamports;
            if self.admin_lamports < diff {
                return Err(VaultError::Storage(StorageError::InsufficientFunds));
            }
            self.admin_lamports = self.admin_lamports - diff;
            self.whitelist_lamports = self.whitelist_lamports + diff;
            self.whitelist_data_len = new_len;
            Ok(())
        } else {
            let new_len = self.whitelist_data_len - WHITELIST_ENTRY_SIZE;
            let required = (ACCOUNT_STORAGE_OVERHEAD + new_len) * LAMPORTS_PER_BYTE_YEAR
                * RENT_EXEMPTION_YEARS;
            let diff = self.whitelist_lamports - required;
            if diff > u64::MAX - self.admin_lamports {
                return Err(VaultError::Storage(StorageError::BalanceOverflow));
            }
            self.admin_lamports = self.admin_lamports + diff;
            self.whitelist_lamports = self.whitelist_lamports - diff;
            self.whitelist_data_len = new_len;
            Ok(())
        }
    }

    /// Adds `address` to the whitelist with a zero deposited balance and
    /// an active flag.  Admin-gated; initialises the record on first use;
    /// applying it twice leaves the state exactly as one application.
    /// On any failure the account set is unchanged.
    pub fn add_to_whitelist(&mut self, address: Address, bump: u8) -> (r: Result<(), VaultError>)
        requires
            ops_wf(old(self)@),
        ensures
            match r {
                Ok(()) => add_to_whitelist_spec(old(self)@, address, bump) == Ok::<_, VaultError>(
                    final(self)@,
                ) && ops_wf(final(self)@),
                Err(e) => add_to_whitelist_spec(old(self)@, address, bump) == Err::<
                    WhitelistOperationsView,
                    _,
                >(e) && final(self)@ == old(self)@,
            },
    {
        if self.admin != self.vault.owner {
            return Err(VaultError::NotAdmin);
        }
        let ghost pre = self@;
        let was_present = self.whitelist.contains_address(&address);
        if !was_present {
            if let Err(e) = self.realloc_whitelist(true) {
                return Err(e);
            }
        }
        if self.whitelist.admin.is_unset() {
            self.whitelist.admin = self.admin;
            self.whitelist.whitelist_bump = bump;
        }
        if !was_present {
            self.whitelist.address.push((address, 0u64, true));
            proof {
                assert forall|p: int, q: int|
                    0 <= p < q < self.whitelist.address@.len() implies self.whitelist.address@[p].0
                    != self.whitelist.address@[q].0 by {
                    if q < pre.whitelist.entries.len() {
                        assert(pre.whitelist.entries[p].0 != pre.whitelist.entries[q].0);
                    } else {
                        assert(!has_entry(pre.whitelist.entries, address));
                    }
                }
            }
        }
        proof {
            assert(add_to_whitelist_spec(pre, address, bump) matches Ok(t) && t =~= self@);
        }
        Ok(())
    }

    /// Removes `address` from the whitelist, shrinking the record and
    /// refunding the rent difference to the admin.  Admin-gated; fails
    /// with `UserNotPresent` when the address is not listed.  On any
    /// failure the account set is unchanged.
    pub fn remove_from_whitelist(&mut self, address: Address) -> (r: Result<(), VaultError>)
        requires
            ops_wf(old(self)@),
        ensures
            match r {
                Ok(()) => remove_from_whitelist_spec(old(self)@, address) == Ok::<_, VaultError>(
                    final(self)@,
                ) && ops_wf(final(self)@),
                Err(e) => remove_from_whitelist_spec(old(self)@, address) == Err::<
                    WhitelistOperationsView,
                    _,
                >(e) && final(self)@ == old(self)@,
            },
    {
        if self.admin != self.vault.owner {
            return Err(VaultError::NotAdmin);
        }
        let ghost pre = self@;
        let i = match self.whitelist.find_index(&address) {
            Some(i) => i,
            None => {
                return Err(VaultError::UserNotPresent);
            },
        };
        proof {
            lemma_entry_index_is(pre.whitelist.entries, address, i as int);
        }
        if let Err(e) = self.realloc_whitelist(false) {
            return Err(e);
        }
        self.whitelist.address.remove(i);
        proof {
            assert forall|p: int, q: int|
                0 <= p < q < self.whitelist.address@.len() implies self.whitelist.address@[p].0
                != self.whitelist.address@[q].0 by {
                let pp = if p < i as int { p } else { p + 1 };
                let qq = if q < i as int { q } else { q + 1 };
                assert(pre.whitelist.entries[pp].0 != pre.whitelist.entries[qq].0);
            }
            assert(remove_from_whitelist_spec(pre, address) matches Ok(t) && t =~= self@);
        }
        Ok(())
    }
}

/// Adding an address to the whitelist is idempotent: applying the
/// operation a second time, with the same arguments, leaves the state
/// exactly as one application left it.
pub proof fn lemma_add_to_whitelist_idempotent(
    v: WhitelistOperationsView,
    address: Address,
    bump: u8,
)
    requires
        add_to_whitelist_spec(v, address, bump) is Ok,
    ensures
        add_to_whitelist_spec(add_to_whitelist_spec(v, address, bump)->Ok_0, address, bump)
            == add_to_whitelist_spec(v, address, bump),
{
    let t = add_to_whitelist_spec(v, address, bump)->Ok_0;
    assert(has_entry(t.whitelist.entries, address)) by {
        if !has_entry(v.whitelist.entries, address) {
            let n = t.whitelist.entries.len() - 1;
            assert(t.whitelist.entries[n].0 == address);
        } else {
            let v1 = if v.whitelist.admin.is_zero() {
                WhitelistOperationsView {
                    whitelist: WhitelistView { admin: v.admin, bump, ..v.whitelist },
                    ..v
                }
            } else {
                v
            };
            let k = choose|k: int|
                0 <= k < v1.whitelist.entries.len() && v1.whitelist.entries[k].0 == address;
            assert(t.whitelist.entries[k].0 == address);
        }
    }
    assert(add_to_whitelist_spec(t, address, bump) matches Ok(u) && u =~= t);
}

/// The storage-grow and storage-shrink protocols are exact inverses:
/// removing a freshly added address restores the whole account set —
/// the entries, the record's size, its rent reservation, and the
/// admin's balance — to what it was before the addition.
pub proof fn lemma_add_then_remove_restores(
    v: WhitelistOperationsView,
    address: Address,
    bump: u8,
)
    requires
        ops_wf(v),
        !has_entry(v.whitelist.entries, address),
        !v.whitelist.admin.is_zero(),
        add_to_whitelist_spec(v, address, bump) is Ok,
    ensures
        remove_from_whitelist_spec(add_to_whitelist_spec(v, address, bump)->Ok_0, address)
            == Ok::<WhitelistOperationsView, VaultError>(v),
{
    let t = add_to_whitelist_spec(v, address, bump)->Ok_0;
    let n = v.whitelist.entries.len() as int;
    assert(t.whitelist.entries[n].0 == address);
    assert(unique_entries(t.whitelist.entries)) by {
        assert forall|p: int, q: int|
            0 <= p < q < t.whitelist.entries.len() implies t.whitelist.entries[p].0
            != t.whitelist.entries[q].0 by {
            if q < n {
                assert(v.whitelist.entries[p].0 != v.whitelist.entries[q].0);
            } else {
                assert(!has_entry(v.whitelist.entries, address));
            }
        }
    }
    lemma_entry_index_is(t.whitelist.entries, address, n);
    let r = remove_from_whitelist_spec(t, address);
    assert(t.whitelist.entries.remove(n) =~= v.whitelist.entries);
    assert(r matches Ok(u) && u =~= v);
}

} // verus!
