use vstd::prelude::*;

verus! {

/// Errors raised by the token-ledger model while checking a transfer or a
/// mint.  Handlers surface them verbatim inside `VaultError::Ledger` when
/// they cannot rule them out beforehand.
#[derive(Clone, Copy, Debug, PartialEq, Eq, Structural)]
pub enum LedgerError {
    /// A token account does not belong to the mint named by the call.
    MintMismatch,
    /// The authority offered for the movement does not own the source
    /// account (or is not the mint authority, for a mint).
    WrongAuthority,
    /// The decimals supplied by the caller differ from the mint's decimals.
    DecimalsMismatch,
    /// The source account holds less than the requested amount.
    InsufficientFunds,
    /// Crediting the destination (or the supply) would exceed `u64::MAX`.
    BalanceOverflow,
}

/// Errors raised by the storage-resize protocol of a variable-length
/// record.  Handlers surface them verbatim inside `VaultError::Storage`.
#[derive(Clone, Copy, Debug, PartialEq, Eq, Structural)]
pub enum StorageError {
    /// The record would grow past the runtime's account-size budget.
    SizeLimitExceeded,
    /// The payer cannot fund the rent top-up that the resize requires.
    InsufficientFunds,
    /// Refunding the rent difference would overflow the payer's balance.
    BalanceOverflow,
}

/// Errors of the vault state machine and its whitelist operations.
#[derive(Clone, Copy, Debug, PartialEq, Eq, Structural)]
pub enum VaultError {
    /// `create_vault` found the vault record already initialised.
    VaultAlreadyExists,
    /// The vault record has not been created yet.
    VaultNotCreated,
    /// The caller of an admin-gated operation is not the vault's owner.
    NotAdmin,
    /// The depositor has no active whitelist entry to credit.
    UserNotWhitelisted,
    /// The withdrawer has no whitelist entry at all.
    UserNotPresent,
    /// A custody token account is not owned by the expected authority.
    WrongATA,
    /// A supplied token account belongs to a different mint.
    WrongMint,
    /// The mint's authority is not the expected principal.
    WrongMintAuthority,
    /// Crediting a whitelist entry would overflow its deposited balance.
    DepositOverflow,
    /// Debiting a whitelist entry would underflow its deposited balance.
    WithdrawUnderflow,
    /// Scaling an amount by the mint's decimals would overflow.
    MintMultiplicationOverflow,
    /// The mover holds less than the requested amount.
    InsufficientBalance,
    /// The pre-transfer policy refused the movement.
    PolicyDenied,
    /// A token-ledger error surfaced verbatim.
    Ledger(LedgerError),
    /// A storage-allocator error surfaced verbatim.
    Storage(StorageError),
}

/// Errors of the escrow state machine.
#[derive(Clone, Copy, Debug, PartialEq, Eq, Structural)]
pub enum EscrowError {
    /// `make` found an escrow record already bound to `(maker, seed)`.
    EscrowAlreadyExists,
    /// `take` or `refund` found no escrow record.
    EscrowNotFound,
    /// `refund` was called by a principal other than the escrow's maker.
    NotMaker,
    /// The paying party holds less than the amount the operation moves.
    InsufficientBalance,
    /// A supplied token account or record is bound to the wrong mint.
    MintMismatch,
    /// A token-ledger error surfaced verbatim.
    Ledger(LedgerError),
}

} // verus!
