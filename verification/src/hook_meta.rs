//! The hook's extra-metas record: a one-time registration, at the
//! identity derived from `("extra-account-metas", mint)`, of the
//! auxiliary accounts the policy program needs on every transfer, so
//! that the transfer dispatcher can supply them.

use vstd::prelude::*;

use crate::addr::Address;

verus! {

/// The extra-metas record: the mint it belongs to, the auxiliary
/// accounts the policy requires — here the whitelist record — and the
/// bump of the record's derived identity.
#[derive(Clone, Debug, PartialEq, Eq)]
pub struct ExtraAccountMetaList {
    pub mint: Address,
    pub extra_accounts: Vec<Address>,
    pub bump: u8,
}

/// Records, once, which auxiliary accounts the whitelist policy needs on
/// transfers of `mint`: the whitelist record itself.  The slot must be
/// freshly allocated; the runtime refuses the call otherwise.
pub fn initialize_hook_meta(
    slot: &mut Option<ExtraAccountMetaList>,
    mint: Address,
    whitelist_id: Address,
    bump: u8,
)
    requires
        *old(slot) is None,
    ensures
        *final(slot) matches Some(m) && m.mint == mint && m.bump == bump
            && m.extra_accounts@ =~= seq![whitelist_id],
{
    let mut extra_accounts: Vec<Address> = Vec::new();
    extra_accounts.push(whitelist_id);
    *slot = Some(ExtraAccountMetaList { mint, extra_accounts, bump });
}

} // verus!
