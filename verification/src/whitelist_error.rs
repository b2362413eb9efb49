use vstd::prelude::*;

verus! {

/// Errors of the per-user whitelist records.
#[derive(Clone, Copy, Debug, PartialEq, Eq, Structural)]
pub enum WhitelistError {
    /// The record already marks its user as whitelisted.
    AlreadyWhitelisted,
    /// The record does not mark its user as whitelisted.
    AccountNotWhitelisted,
    /// No record exists for the user.
    WhitelistAccountNotExist,
}

} // verus!
