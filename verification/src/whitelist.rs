//! The whitelist record: an ordered sequence of `(address, deposited,
//! active)` entries with admin-gated mutation, at most one entry per
//! address.

use vstd::prelude::*;

use crate::addr::Address;
use crate::error::VaultError;

verus! {

/// One whitelist entry: the listed address, the balance it has deposited
/// into the vault, and whether the entry is active.  The `active` flag is
/// authoritative: the policy and the withdraw path both consult it.
pub type WhitelistEntry = (Address, u64, bool);

/// Abstract state of a [`Whitelist`].
#[verifier::ext_equal]
pub struct WhitelistView {
    pub entries: Seq<WhitelistEntry>,
    pub bump: u8,
    pub admin: Address,
}

/// The whitelist record.  Field names follow the persisted record: the
/// entry vector, the bump of the record's derived identity, and the
/// admin that may mutate it (set once, on first use).
#[derive(Clone, Debug, PartialEq, Eq)]
pub struct Whitelist {
    pub address: Vec<WhitelistEntry>,
    pub whitelist_bump: u8,
    pub admin: Address,
}

impl View for Whitelist {
    type V = WhitelistView;

    open spec fn view(&self) -> WhitelistView {
        WhitelistView { entries: self.address@, bump: self.whitelist_bump, admin: self.admin }
    }
}

/// True when some entry lists `a`.
pub open spec fn has_entry(entries: Seq<WhitelistEntry>, a: Address) -> bool {
    exists|i: int| 0 <= i < entries.len() && entries[i].0 == a
}

/// The index of the entry listing `a` (meaningful under
/// [`unique_entries`], when `has_entry` holds).
pub open spec fn entry_index(entries: Seq<WhitelistEntry>, a: Address) -> int {
    choose|i: int| 0 <= i < entries.len() && entries[i].0 == a
}

/// At most one entry per address.
pub open spec fn unique_entries(entries: Seq<WhitelistEntry>) -> bool {
    forall|i: int, j: int|
        0 <= i < j < entries.len() ==> entries[i].0 != entries[j].0
}

/// True when `a` is listed and its entry is active: the condition under
/// which the pre-transfer policy allows a movement for `a`.
pub open spec fn active_entry(entries: Seq<WhitelistEntry>, a: Address) -> bool {
    exists|i: int| 0 <= i < entries.len() && entries[i].0 == a && entries[i].2
}

/// Sum of the deposited balances of all entries.
pub open spec fn deposited_sum(entries: Seq<WhitelistEntry>) -> int
    decreases entries.len(),
{
    if entries.len() == 0 {
        0
    } else {
        deposited_sum(entries.drop_last()) + entries.last().1
    }
}

/// Replacing the entry at `i` changes the sum by the difference of the
/// deposited balances.
pub proof fn lemma_deposited_sum_update(entries: Seq<WhitelistEntry>, i: int, e: WhitelistEntry)
    requires
        0 <= i < entries.len(),
    ensures
        deposited_sum(entries.update(i, e)) == deposited_sum(entries) - entries[i].1 + e.1,
    decreases entries.len(),
{
    let updated = entries.update(i, e);
    if i == entries.len() - 1 {
        assert(updated.drop_last() =~= entries.drop_last());
    } else {
        assert(updated.drop_last() =~= entries.drop_last().update(i, e));
        lemma_deposited_sum_update(entries.drop_last(), i, e);
    }
}

/// Removing the entry at `i` subtracts its deposited balance from the sum.
pub proof fn lemma_deposited_sum_remove(entries: Seq<WhitelistEntry>, i: int)
    requires
        0 <= i < entries.len(),
    ensures
        deposited_sum(entries.remove(i)) == deposited_sum(entries) - entries[i].1,
    decreases entries.len(),
{
    let removed = entries.remove(i);
    if i == entries.len() - 1 {
        assert(removed =~= entries.drop_last());
    } else {
        assert(removed.drop_last() =~= entries.drop_last().remove(i));
        lemma_deposited_sum_remove(entries.drop_last(), i);
    }
}

impl Whitelist {
    /// Internal invariant of the record: no address is listed twice.
    pub open spec fn wf(self) -> bool {
        unique_entries(self.address@)
    }

    /// True when some entry lists `address`.
    pub fn contains_address(&self, address: &Address) -> (r: bool)
        ensures
            r == has_entry(self.address@, *address),
    {
        let n = self.address.len();
        let mut i: usize = 0;
        while i < n
            invariant
                i <= n,
                n == self.address@.len(),
                forall|j: int| 0 <= j < i ==> self.address@[j].0 != *address,
            decreases n - i,
        {
            if self.address[i].0 == *address {
                return true;
            }
            i = i + 1;
        }
        false
    }

    /// The position of the entry listing `address`, if one exists.
    pub fn find_index(&self, address: &Address) -> (r: Option<usize>)
        ensures
            match r {
                Some(i) => i < self.address@.len() && self.address@[i as int].0 == *address
                    && (forall|j: int| 0 <= j < i ==> self.address@[j].0 != *address),
                None => !has_entry(self.address@, *address),
            },
    {
        let n = self.address.len();
        let mut i: usize = 0;
        while i < n
            invariant
                i <= n,
                n == self.address@.len(),
                forall|j: int| 0 <= j < i ==> self.address@[j].0 != *address,
            decreases n - i,
        {
            if self.address[i].0 == *address {
                return Some(i);
            }
            i = i + 1;
        }
        None
    }

    /// The `active` flag of the entry listing `address`, if one exists.
    pub fn is_whitelisted(&self, address: &Address) -> (r: Option<&bool>)
        requires
            self.wf(),
        ensures
            match r {
                Some(b) => has_entry(self.address@, *address) && *b == self.address@[entry_index(
                    self.address@,
                    *address,
                )].2,
                None => !has_entry(self.address@, *address),
            },
    {
        match self.find_index(address) {
            Some(i) => {
                proof {
                    lemma_entry_index_is(self.address@, *address, i as int);
                }
                let e = &self.address[i];
                Some(&e.2)
            },
            None => None,
        }
    }

    /// Credits `amount` to the entry listing `address`.  Fails with
    /// `UserNotWhitelisted` when no entry lists `address`, and with
    /// `DepositOverflow` when the credit would exceed `u64::MAX`; on
    /// failure the record is unchanged.
    pub fn credit(&mut self, address: &Address, amount: u64) -> (r: Result<(), VaultError>)
        requires
            old(self).wf(),
        ensures
            final(self).wf(),
            final(self).whitelist_bump == old(self).whitelist_bump,
            final(self).admin == old(self).admin,
            match r {
                Ok(()) => {
                    let i = entry_index(old(self).address@, *address);
                    let e = old(self).address@[i];
                    &&& has_entry(old(self).address@, *address)
                    &&& e.1 + amount <= u64::MAX
                    &&& final(self).address@ == old(self).address@.update(
                        i,
                        (e.0, (e.1 + amount) as u64, e.2),
                    )
                },
                Err(VaultError::UserNotWhitelisted) => !has_entry(old(self).address@, *address)
                    && *final(self) == *old(self),
                Err(VaultError::DepositOverflow) => {
                    let i = entry_index(old(self).address@, *address);
                    &&& has_entry(old(self).address@, *address)
                    &&& old(self).address@[i].1 + amount > u64::MAX
                    &&& *final(self) == *old(self)
                },
                Err(_) => false,
            },
    {
        match self.find_index(address) {
            Some(i) => {
                proof {
                    lemma_entry_index_is(self.address@, *address, i as int);
                }
                let e = self.address[i];
                if amount > u64::MAX - e.1 {
                    return Err(VaultError::DepositOverflow);
                }
                self.address.set(i, (e.0, e.1 + amount, e.2));
                proof {
                    assert forall|p: int, q: int|
                        0 <= p < q < self.address@.len() implies self.address@[p].0
                        != self.address@[q].0 by {
                        assert(old(self).address@[p].0 != old(self).address@[q].0);
                    }
                }
                Ok(())
            },
            None => Err(VaultError::UserNotWhitelisted),
        }
    }

    /// Debits `amount` from the entry listing `address`, removing the
    /// entry when its balance reaches zero.  Fails with `UserNotPresent`
    /// when no entry lists `address`, and with `WithdrawUnderflow` when
    /// the entry holds less than `amount`; on failure the record is
    /// unchanged.
    pub fn debit(&mut self, address: &Address, amount: u64) -> (r: Result<(), VaultError>)
        requires
            old(self).wf(),
        ensures
            final(self).wf(),
            final(self).whitelist_bump == old(self).whitelist_bump,
            final(self).admin == old(self).admin,
            match r {
                Ok(()) => {
                    let i = entry_index(old(self).address@, *address);
                    let e = old(self).address@[i];
                    &&& has_entry(old(self).address@, *address)
                    &&& e.1 >= amount
                    &&& final(self).address@ == if e.1 == amount {
                        old(self).address@.remove(i)
                    } else {
                        old(self).address@.update(i, (e.0, (e.1 - amount) as u64, e.2))
                    }
                },
                Err(VaultError::UserNotPresent) => !has_entry(old(self).address@, *address)
                    && *final(self) == *old(self),
                Err(VaultError::WithdrawUnderflow) => {
                    let i = entry_index(old(self).address@, *address);
                    &&& has_entry(old(self).address@, *address)
                    &&& old(self).address@[i].1 < amount
                    &&& *final(self) == *old(self)
                },
                Err(_) => false,
            },
    {
        match self.find_index(address) {
            Some(i) => {
                proof {
                    lemma_entry_index_is(self.address@, *address, i as int);
                }
                let e = self.address[i];
                if e.1 < amount {
                    return Err(VaultError::WithdrawUnderflow);
                }
                if e.1 == amount {
                    self.address.remove(i);
                    proof {
                        let pre = old(self).address@;
                        assert forall|p: int, q: int|
                            0 <= p < q < self.address@.len() implies self.address@[p].0
                            != self.address@[q].0 by {
                            let pp = if p < i as int { p } else { p + 1 };
                            let qq = if q < i as int { q } else { q + 1 };
                            assert(pre[pp].0 != pre[qq].0);
                        }
                    }
                } else {
                    self.address.set(i, (e.0, e.1 - amount, e.2));
                    proof {
                        assert forall|p: int, q: int|
                            0 <= p < q < self.address@.len() implies self.address@[p].0
                            != self.address@[q].0 by {
                            assert(old(self).address@[p].0 != old(self).address@[q].0);
                        }
                    }
                }
                Ok(())
            },
            None => Err(VaultError::UserNotPresent),
        }
    }
}

/// Under [`unique_entries`], an index whose entry lists `a` is the
/// [`entry_index`] of `a`.
pub proof fn lemma_entry_index_is(entries: Seq<WhitelistEntry>, a: Address, i: int)
    requires
        unique_entries(entries),
        0 <= i < entries.len(),
        entries[i].0 == a,
    ensures
        entry_index(entries, a) == i,
        has_entry(entries, a),
{
    assert(has_entry(entries, a));
    let k = entry_index(entries, a);
    assert(0 <= k < entries.len() && entries[k].0 == a);
    if k != i {
        if k < i {
            assert(entries[k].0 != entries[i].0);
        } else {
            assert(entries[i].0 != entries[k].0);
        }
    }
}

} // verus!
