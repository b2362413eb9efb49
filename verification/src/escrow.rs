//! The escrow state machine: maker-initiated offers binding a deposit of
//! token A against a demanded amount of token B, resolved by `take`
//! (atomic swap) or `refund` (maker cancellation).
//!
//! Per offer the machine has one live state: created by `make` with the
//! deposit under custody, destroyed by `take` or `refund`.  The record is
//! never mutated between creation and destruction, so an active escrow's
//! custody balance is exactly the original deposit.

use vstd::prelude::*;

use crate::addr::Address;
use crate::error::{EscrowError, LedgerError};
use crate::token::{transfer_checked, transfer_checked_spec, Mint, TokenAccount};

verus! {

/// The escrow record: the maker-chosen seed, the maker, the two mints,
/// the amount of `mint_b` the maker demands, and the bump persisted so
/// the program can reconstitute the escrow's signer from
/// `("escrow", maker, seed, bump)` on demand.
#[derive(Clone, Copy, Debug, PartialEq, Eq)]
pub struct Escrow {
    pub seed: u64,
    pub maker: Address,
    pub mint_a: Address,
    pub mint_b: Address,
    pub receive: u64,
    pub bump: u8,
}

/// Surfaces a ledger error through the escrow error taxonomy: a short
/// source is `InsufficientBalance`, a mint check is `MintMismatch`, and
/// everything else is surfaced verbatim.
pub open spec fn map_ledger_error(e: LedgerError) -> EscrowError {
    match e {
        LedgerError::MintMismatch => EscrowError::MintMismatch,
        LedgerError::InsufficientFunds => EscrowError::InsufficientBalance,
        _ => EscrowError::Ledger(e),
    }
}

/// Executable form of [`map_ledger_error`].
pub fn ledger_error_to_escrow(e: LedgerError) -> (r: EscrowError)
    ensures
        r == map_ledger_error(e),
{
    match e {
        LedgerError::MintMismatch => EscrowError::MintMismatch,
        LedgerError::InsufficientFunds => EscrowError::InsufficientBalance,
        _ => EscrowError::Ledger(e),
    }
}

/// The account set of `make`: the signing maker, the two mints, the
/// maker's source account of `mint_a`, and the two slots the runtime
/// allocates at the offer's derived identity — the escrow record and its
/// vault custody account, both empty until `make` fills them.
#[derive(Clone, Copy, Debug, PartialEq, Eq)]
pub struct Make {
    /// The signing maker.
    pub maker: Address,
    /// Identity of the deposited mint.
    pub mint_a: Address,
    /// Identity of the demanded mint.
    pub mint_b: Address,
    /// The deposited mint's record (for its decimals).
    pub mint_a_rec: Mint,
    /// The maker's source account of `mint_a`.
    pub maker_ata_a: TokenAccount,
    /// Identity of the escrow record, derived from
    /// `("escrow", maker, seed)`.
    pub escrow_id: Address,
    /// The escrow record slot at that identity.
    pub escrow: Option<Escrow>,
    /// The vault custody slot owned by the escrow identity.
    pub vault: Option<TokenAccount>,
}

/// Outcome of `make`: with no record at the derived identity, the offer
/// is persisted, the custody account is created, and the deposit moves
/// from the maker into custody — all or nothing.
pub open spec fn make_spec(v: Make, seed: u64, deposit: u64, receive: u64, bump: u8) -> Result<
    Make,
    EscrowError,
> {
    if v.escrow is Some || v.vault is Some {
        Err(EscrowError::EscrowAlreadyExists)
    } else {
        let vault0 = TokenAccount { mint: v.mint_a, owner: v.escrow_id, amount: 0 };
        match transfer_checked_spec(
            v.maker_ata_a,
            v.mint_a,
            v.mint_a_rec,
            vault0,
            v.maker,
            deposit,
            v.mint_a_rec.decimals,
        ) {
            Ok((from, to)) => Ok(
                Make {
                    maker_ata_a: from,
                    escrow: Some(
                        Escrow {
                            seed,
                            maker: v.maker,
                            mint_a: v.mint_a,
                            mint_b: v.mint_b,
                            receive,
                            bump,
                        },
                    ),
                    vault: Some(to),
                    ..v
                },
            ),
            Err(le) => Err(map_ledger_error(le)),
        }
    }
}

impl Make {
    /// Creates the offer: persists the record, creates the custody
    /// account, and locks `deposit` units of `mint_a` under it.  Fails
    /// with `EscrowAlreadyExists` when a record is already bound to the
    /// identity, with `MintMismatch` when the source account is not of
    /// `mint_a`, and with `InsufficientBalance` when the maker holds less
    /// than `deposit`; on failure nothing changes.
    pub fn make(&mut self, seed: u64, deposit: u64, receive: u64, bump: u8) -> (r: Result<
        (),
        EscrowError,
    >)
        requires
            deposit > 0,
            receive > 0,
            old(self).mint_a != old(self).mint_b,
            old(self).maker_ata_a.owner == old(self).maker,
        ensures
            match r {
                Ok(()) => make_spec(*old(self), seed, deposit, receive, bump) == Ok::<
                    _,
                    EscrowError,
                >(*final(self)),
                Err(e) => make_spec(*old(self), seed, deposit, receive, bump) == Err::<Make, _>(e)
                    && *final(self) == *old(self),
            },
            r is Ok ==> (final(self).vault matches Some(va) && va.amount == deposit && va.owner
                == old(self).escrow_id && va.mint == old(self).mint_a),
            r is Ok ==> final(self).escrow == Some(
                Escrow {
                    seed,
                    maker: old(self).maker,
                    mint_a: old(self).mint_a,
                    mint_b: old(self).mint_b,
                    receive,
                    bump,
                },
            ),
    {
        if self.escrow.is_some() || self.vault.is_some() {
            return Err(EscrowError::EscrowAlreadyExists);
        }
        let mut vault0 = TokenAccount { mint: self.mint_a, owner: self.escrow_id, amount: 0 };
        match transfer_checked(
            &mut self.maker_ata_a,
            &self.mint_a,
            &self.mint_a_rec,
            &mut vault0,
            &self.maker,
            deposit,
            self.mint_a_rec.decimals,
        ) {
            Ok(()) => {},
            Err(le) => {
                return Err(ledger_error_to_escrow(le));
            },
        }
        self.escrow = Some(
            Escrow {
                seed,
                maker: self.maker,
                mint_a: self.mint_a,
                mint_b: self.mint_b,
                receive,
                bump,
            },
        );
        self.vault = Some(vault0);
        Ok(())
    }
}

/// The account set of `take`: the signing taker, the maker, the two
/// mints, the escrow record with its vault custody account, and the
/// three user accounts the swap touches.
#[derive(Clone, Copy, Debug, PartialEq, Eq)]
pub struct Take {
    /// The signing taker.
    pub taker: Address,
    /// The offer's maker.
    pub maker: Address,
    /// Identity of the deposited mint.
    pub mint_a: Address,
    /// Identity of the demanded mint.
    pub mint_b: Address,
    /// The deposited mint's record.
    pub mint_a_rec: Mint,
    /// The demanded mint's record.
    pub mint_b_rec: Mint,
    /// Identity of the escrow record.
    pub escrow_id: Address,
    /// The escrow record slot.
    pub escrow: Option<Escrow>,
    /// The vault custody slot owned by the escrow identity.
    pub vault: Option<TokenAccount>,
    /// The taker's account of `mint_a`, receiving the deposit.
    pub taker_ata_a: TokenAccount,
    /// The taker's account of `mint_b`, paying the demanded amount.
    pub taker_ata_b: TokenAccount,
    /// The maker's account of `mint_b`, receiving the demanded amount.
    pub maker_ata_b: TokenAccount,
    /// The maker's lamport balance, which receives the storage rent of
    /// the closed accounts.
    pub maker_lamports: u64,
    /// The escrow record's storage rent; zero once the record is closed.
    pub escrow_lamports: u64,
    /// The custody account's storage rent; zero once it is closed.
    pub vault_lamports: u64,
}

impl Take {
    /// The bindings the dispatcher establishes from the records: the
    /// vault custody account exists exactly while the record does, is of
    /// `mint_a` and owned by the escrow identity, and the user accounts
    /// belong to their signers.
    pub open spec fn bindings_ok(self) -> bool {
        &&& self.escrow is Some <==> self.vault is Some
        &&& self.vault matches Some(va) ==> va.mint == self.mint_a && va.owner == self.escrow_id
        &&& self.taker_ata_b.owner == self.taker
        &&& self.taker_ata_a.owner == self.taker
        &&& self.maker_ata_b.owner == self.maker
    }

    /// Outcome of `take`: the taker pays `receive` units of `mint_b` to
    /// the maker, the whole custody balance moves to the taker, and both
    /// the custody account and the record are closed — one atomic unit,
    /// with no observable state between the two legs.
    pub open spec fn take_spec(v: Take) -> Result<Take, EscrowError> {
        if v.escrow is None {
            Err(EscrowError::EscrowNotFound)
        } else {
            let e = v.escrow->0;
            let va = v.vault->0;
            if e.maker != v.maker || e.mint_a != v.mint_a || e.mint_b != v.mint_b
                || v.taker_ata_a.mint != v.mint_a {
                Err(EscrowError::MintMismatch)
            } else {
                match transfer_checked_spec(
                    v.taker_ata_b,
                    v.mint_b,
                    v.mint_b_rec,
                    v.maker_ata_b,
                    v.taker,
                    e.receive,
                    v.mint_b_rec.decimals,
                ) {
                    Err(le) => Err(map_ledger_error(le)),
                    Ok((tb, mb)) => match transfer_checked_spec(
                        va,
                        v.mint_a,
                        v.mint_a_rec,
                        v.taker_ata_a,
                        v.escrow_id,
                        va.amount,
                        v.mint_a_rec.decimals,
                    ) {
                        Err(le) => Err(map_ledger_error(le)),
                        Ok((_, ta)) => Ok(
                            Take {
                                escrow: None,
                                vault: None,
                                taker_ata_a: ta,
                                taker_ata_b: tb,
                                maker_ata_b: mb,
                                maker_lamports: (v.maker_lamports + v.escrow_lamports
                                    + v.vault_lamports) as u64,
                                escrow_lamports: 0,
                                vault_lamports: 0,
                                ..v
                            },
                        ),
                    },
                }
            }
        }
    }

    /// Settles the offer.  The two transfer legs commit together or not
    /// at all: on any failure the whole account set is unchanged, and on
    /// success the taker has gained the deposit, the maker has gained
    /// `receive`, and both the custody account and the record are closed.
    pub fn take(&mut self) -> (r: Result<(), EscrowError>)
        requires
            old(self).bindings_ok(),
            old(self).maker_lamports + old(self).escrow_lamports + old(self).vault_lamports
                <= u64::MAX,
        ensures
            match r {
                Ok(()) => Take::take_spec(*old(self)) == Ok::<_, EscrowError>(*final(self)),
                Err(e) => Take::take_spec(*old(self)) == Err::<Take, _>(e) && *final(self) == *old(
                    self,
                ),
            },
            r is Ok ==> {
                let e = old(self).escrow->0;
                let va = old(self).vault->0;
                &&& final(self).taker_ata_a.amount == old(self).taker_ata_a.amount + va.amount
                &&& final(self).maker_ata_b.amount == old(self).maker_ata_b.amount + e.receive
                &&& final(self).taker_ata_b.amount == old(self).taker_ata_b.amount - e.receive
                &&& final(self).escrow is None
                &&& final(self).vault is None
                &&& final(self).maker_lamports == old(self).maker_lamports + old(
                    self,
                ).escrow_lamports + old(self).vault_lamports
                &&& final(self).escrow_lamports == 0
                &&& final(self).vault_lamports == 0
            },
    {
        let e = match self.escrow {
            Some(e) => e,
            None => {
                return Err(EscrowError::EscrowNotFound);
            },
        };
        let va = match self.vault {
            Some(va) => va,
            None => {
                proof {
                    assert(false);
                }
                return Err(EscrowError::EscrowNotFound);
            },
        };
        if e.maker != self.maker || e.mint_a != self.mint_a || e.mint_b != self.mint_b
            || self.taker_ata_a.mint != self.mint_a {
            return Err(EscrowError::MintMismatch);
        }
        match transfer_checked(
            &mut self.taker_ata_b,
            &self.mint_b,
            &self.mint_b_rec,
            &mut self.maker_ata_b,
            &self.taker,
            e.receive,
            self.mint_b_rec.decimals,
        ) {
            Ok(()) => {},
            Err(le) => {
                return Err(ledger_error_to_escrow(le));
            },
        }
        // The second leg can only fail by overflowing the taker's
        // account.  When it would, the enclosing unit reverts: the first
        // leg is rolled back and the single error surfaces.
        if va.amount > u64::MAX - self.taker_ata_a.amount {
            self.taker_ata_b.amount = self.taker_ata_b.amount + e.receive;
            self.maker_ata_b.amount = self.maker_ata_b.amount - e.receive;
            proof {
                assert(*self =~= *old(self));
            }
            return Err(EscrowError::Ledger(LedgerError::BalanceOverflow));
        }
        let mut vault_acct = va;
        match transfer_checked(
            &mut vault_acct,
            &self.mint_a,
            &self.mint_a_rec,
            &mut self.taker_ata_a,
            &self.escrow_id,
            va.amount,
            self.mint_a_rec.decimals,
        ) {
            Ok(()) => {},
            Err(le) => {
                // Unreachable: every check of the second leg holds.
                proof {
                    assert(false);
                }
                return Err(ledger_error_to_escrow(le));
            },
        }
        self.escrow = None;
        self.vault = None;
        self.maker_lamports = self.maker_lamports + self.escrow_lamports + self.vault_lamports;
        self.escrow_lamports = 0;
        self.vault_lamports = 0;
        Ok(())
    }
}

/// The account set of `refund`: the signing maker, the deposited mint,
/// the maker's account of it, and the escrow record with its vault
/// custody account.
#[derive(Clone, Copy, Debug, PartialEq, Eq)]
pub struct Refund {
    /// The signing caller; must be the offer's maker.
    pub maker: Address,
    /// Identity of the deposited mint.
    pub mint_a: Address,
    /// The deposited mint's record.
    pub mint_a_rec: Mint,
    /// The maker's account of `mint_a`, receiving the deposit back.
    pub maker_ata_a: TokenAccount,
    /// Identity of the escrow record.
    pub escrow_id: Address,
    /// The escrow record slot.
    pub escrow: Option<Escrow>,
    /// The vault custody slot owned by the escrow identity.
    pub vault: Option<TokenAccount>,
    /// The maker's lamport balance, which receives the storage rent of
    /// the closed accounts.
    pub maker_lamports: u64,
    /// The escrow record's storage rent; zero once the record is closed.
    pub escrow_lamports: u64,
    /// The custody account's storage rent; zero once it is closed.
    pub vault_lamports: u64,
}

impl Refund {
    /// The bindings the dispatcher establishes from the records.
    pub open spec fn bindings_ok(self) -> bool {
        &&& self.escrow is Some <==> self.vault is Some
        &&& self.vault matches Some(va) ==> va.mint == self.mint_a && va.owner == self.escrow_id
        &&& self.maker_ata_a.owner == self.maker
    }

    /// Outcome of `refund`: only the maker may cancel; the whole custody
    /// balance moves back to the maker, and both the custody account and
    /// the record are closed.  No `mint_b` account is touched — none is
    /// even part of the account set.
    pub open spec fn refund_spec(v: Refund) -> Result<Refund, EscrowError> {
        if v.escrow is None {
            Err(EscrowError::EscrowNotFound)
        } else {
            let e = v.escrow->0;
            let va = v.vault->0;
            if e.maker != v.maker {
                Err(EscrowError::NotMaker)
            } else if e.mint_a != v.mint_a || v.maker_ata_a.mint != v.mint_a {
                Err(EscrowError::MintMismatch)
            } else {
                match transfer_checked_spec(
                    va,
                    v.mint_a,
                    v.mint_a_rec,
                    v.maker_ata_a,
                    v.escrow_id,
                    va.amount,
                    v.mint_a_rec.decimals,
                ) {
                    Err(le) => Err(map_ledger_error(le)),
                    Ok((_, ma)) => Ok(
                        Refund {
                            escrow: None,
                            vault: None,
                            maker_ata_a: ma,
                            maker_lamports: (v.maker_lamports + v.escrow_lamports
                                + v.vault_lamports) as u64,
                            escrow_lamports: 0,
                            vault_lamports: 0,
                            ..v
                        },
                    ),
                }
            }
        }
    }

    /// Cancels the offer: returns the whole custody balance to the maker
    /// and closes both the custody account and the record.  Fails with
    /// `EscrowNotFound` when no record exists and with `NotMaker` when
    /// the caller is not the offer's maker; on failure nothing changes.
    pub fn refund(&mut self) -> (r: Result<(), EscrowError>)
        requires
            old(self).bindings_ok(),
            old(self).maker_lamports + old(self).escrow_lamports + old(self).vault_lamports
                <= u64::MAX,
        ensures
            match r {
                Ok(()) => Refund::refund_spec(*old(self)) == Ok::<_, EscrowError>(*final(self)),
                Err(e) => Refund::refund_spec(*old(self)) == Err::<Refund, _>(e) && *final(self)
                    == *old(self),
            },
            r is Ok ==> {
                let va = old(self).vault->0;
                &&& final(self).maker_ata_a.amount == old(self).maker_ata_a.amount + va.amount
                &&& final(self).escrow is None
                &&& final(self).vault is None
                &&& final(self).maker_lamports == old(self).maker_lamports + old(
                    self,
                ).escrow_lamports + old(self).vault_lamports
                &&& final(self).escrow_lamports == 0
                &&& final(self).vault_lamports == 0
            },
    {
        let e = match self.escrow {
            Some(e) => e,
            None => {
                return Err(EscrowError::EscrowNotFound);
            },
        };
        let va = match self.vault {
            Some(va) => va,
            None => {
                proof {
                    assert(false);
                }
                return Err(EscrowError::EscrowNotFound);
            },
        };
        if e.maker != self.maker {
            return Err(EscrowError::NotMaker);
        }
        if e.mint_a != self.mint_a || self.maker_ata_a.mint != self.mint_a {
            return Err(EscrowError::MintMismatch);
        }
        let mut vault_acct = va;
        match transfer_checked(
            &mut vault_acct,
            &self.mint_a,
            &self.mint_a_rec,
            &mut self.maker_ata_a,
            &self.escrow_id,
            va.amount,
            self.mint_a_rec.decimals,
        ) {
            Ok(()) => {},
            Err(le) => {
                return Err(ledger_error_to_escrow(le));
            },
        }
        self.escrow = None;
        self.vault = None;
        self.maker_lamports = self.maker_lamports + self.escrow_lamports + self.vault_lamports;
        self.escrow_lamports = 0;
        self.vault_lamports = 0;
        Ok(())
    }
}

/// Cancelling a freshly made offer restores the maker exactly: after a
/// successful `make`, a `refund` on the resulting records always
/// succeeds, returns the whole deposit, and leaves the maker's balance
/// of the deposited mint as it was before the offer — with both the
/// record and the custody account closed.
pub proof fn lemma_refund_restores_maker(v: Make, seed: u64, deposit: u64, receive: u64, bump: u8)
    requires
        make_spec(v, seed, deposit, receive, bump) is Ok,
        v.maker_ata_a.owner == v.maker,
    ensures
        ({
            let m = make_spec(v, seed, deposit, receive, bump)->Ok_0;
            let r = Refund {
                maker: v.maker,
                mint_a: v.mint_a,
                mint_a_rec: v.mint_a_rec,
                maker_ata_a: m.maker_ata_a,
                escrow_id: v.escrow_id,
                escrow: m.escrow,
                vault: m.vault,
                maker_lamports: 0,
                escrow_lamports: 0,
                vault_lamports: 0,
            };
            &&& Refund::refund_spec(r) is Ok
            &&& Refund::refund_spec(r)->Ok_0.maker_ata_a.amount == v.maker_ata_a.amount
            &&& Refund::refund_spec(r)->Ok_0.escrow is None
            &&& Refund::refund_spec(r)->Ok_0.vault is None
        }),
{
}

/// Settling a freshly made offer swaps exactly the promised legs: after
/// a successful `make`, a `take` by a taker who covers the demanded
/// amount — with room for both credits — always succeeds; the taker
/// gains the whole deposit, the maker gains the demanded amount, the
/// taker pays it, and both the record and the custody account are
/// closed.
pub proof fn lemma_take_settles_swap(
    v: Make,
    seed: u64,
    deposit: u64,
    receive: u64,
    bump: u8,
    taker: Address,
    mint_b_rec: Mint,
    taker_ata_a: TokenAccount,
    taker_ata_b: TokenAccount,
    maker_ata_b: TokenAccount,
)
    requires
        make_spec(v, seed, deposit, receive, bump) is Ok,
        taker_ata_a.mint == v.mint_a && taker_ata_a.owner == taker,
        taker_ata_b.mint == v.mint_b && taker_ata_b.owner == taker,
        maker_ata_b.mint == v.mint_b && maker_ata_b.owner == v.maker,
        taker_ata_b.amount >= receive,
        taker_ata_a.amount + deposit <= u64::MAX,
        maker_ata_b.amount + receive <= u64::MAX,
    ensures
        ({
            let m = make_spec(v, seed, deposit, receive, bump)->Ok_0;
            let t = Take {
                taker,
                maker: v.maker,
                mint_a: v.mint_a,
                mint_b: v.mint_b,
                mint_a_rec: v.mint_a_rec,
                mint_b_rec,
                escrow_id: v.escrow_id,
                escrow: m.escrow,
                vault: m.vault,
                taker_ata_a,
                taker_ata_b,
                maker_ata_b,
                maker_lamports: 0,
                escrow_lamports: 0,
                vault_lamports: 0,
            };
            &&& Take::take_spec(t) is Ok
            &&& Take::take_spec(t)->Ok_0.taker_ata_a.amount == taker_ata_a.amount + deposit
            &&& Take::take_spec(t)->Ok_0.maker_ata_b.amount == maker_ata_b.amount + receive
            &&& Take::take_spec(t)->Ok_0.taker_ata_b.amount == taker_ata_b.amount - receive
            &&& Take::take_spec(t)->Ok_0.escrow is None
            &&& Take::take_spec(t)->Ok_0.vault is None
        }),
{
}

} // verus!
