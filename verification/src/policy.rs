//! The pre-transfer policy: a pluggable predicate the token ledger invokes
//! synchronously inside the same atomic unit as every transfer of a hooked
//! mint.  The current policy is the identity whitelist: the user-side
//! token account of the movement must be listed and active.

use vstd::prelude::*;

use crate::addr::Address;
use crate::whitelist::{active_entry, Whitelist};

verus! {

/// Evaluates the whitelist policy for `subject`, the user-side token
/// account of the movement: allowed exactly when some entry lists the
/// subject as active.
pub fn allow(whitelist: &Whitelist, subject: &Address) -> (r: bool)
    ensures
        r == active_entry(whitelist.address@, *subject),
{
    let n = whitelist.address.len();
    let mut i: usize = 0;
    while i < n
        invariant
            i <= n,
            n == whitelist.address@.len(),
            forall|j: int|
                0 <= j < i ==> !(whitelist.address@[j].0 == *subject && whitelist.address@[j].2),
        decreases n - i,
    {
        let e = whitelist.address[i];
        if e.0 == *subject && e.2 {
            return true;
        }
        i = i + 1;
    }
    false
}

} // verus!
