//! Deterministic identity derivation for the program-derived records:
//! the escrow record, the vault record, the whitelist record and the
//! hook's extra-metas record.  The derivation itself — a sha-256 based
//! bump search — is performed by the Solana pubkey library behind one
//! trusted wrapper; each record's seed schema is built and pinned down
//! here, in verified code.

use vstd::prelude::*;

use crate::addr::Address;

verus! {

/// What `Pubkey::try_find_program_address` returns for the given seeds
/// and program id.  The result is a pure function of the arguments (a
/// sha-256 bump search), far too long to restate, so it is named rather
/// than spelled out.
pub uninterp spec fn pda_of(seeds: Seq<Seq<u8>>, program_id: Seq<u8>) -> Option<(Seq<u8>, u8)>;

/// Relies on `Pubkey::try_find_program_address` of the Solana pubkey
/// library: deterministic in the seeds and the program id, it returns a
/// derived 32-byte address with its bump seed, or nothing when no bump
/// yields a valid address or the seeds exceed the library's limits.
#[verifier::external_body]
fn find_pda(seeds: &Vec<Vec<u8>>, program_id: &Address) -> (r: Option<(Address, u8)>)
    ensures
        ({
            let d = pda_of(seeds.deep_view(), program_id@);
            match r {
                Some(p) => d matches Some(q) && p.0@ == q.0 && p.1 == q.1,
                None => d is None,
            }
        }),
{
    let seed_refs: Vec<&[u8]> = seeds.iter().map(|s| s.as_slice()).collect();
    let program = anchor_lang::prelude::Pubkey::new_from_array(program_id.bytes);
    anchor_lang::prelude::Pubkey::try_find_program_address(&seed_refs, &program)
        .map(|(pk, bump)| (Address { bytes: pk.to_bytes() }, bump))
}

/// The literal seed `"escrow"`.
pub open spec fn escrow_seed() -> Seq<u8> {
    seq![101u8, 115u8, 99u8, 114u8, 111u8, 119u8]
}

/// The literal seed `"vault"`.
pub open spec fn vault_seed() -> Seq<u8> {
    seq![118u8, 97u8, 117u8, 108u8, 116u8]
}

/// The literal seed `"whitelist"`.
pub open spec fn whitelist_seed() -> Seq<u8> {
    seq![119u8, 104u8, 105u8, 116u8, 101u8, 108u8, 105u8, 115u8, 116u8]
}

/// The literal seed `"extra-account-metas"`.
pub open spec fn extra_metas_seed() -> Seq<u8> {
    seq![
        101u8, 120u8, 116u8, 114u8, 97u8, 45u8, 97u8, 99u8, 99u8, 111u8, 117u8, 110u8, 116u8,
        45u8, 109u8, 101u8, 116u8, 97u8, 115u8,
    ]
}

/// Derives the escrow record's identity and bump from
/// `("escrow", maker, seed)` under the escrow program.
pub fn escrow_identity(program_id: &Address, maker: &Address, seed: u64) -> (r: Option<
    (Address, u8),
>)
    ensures
        ({
            let d = pda_of(
                seq![escrow_seed(), maker@, vstd::bytes::spec_u64_to_le_bytes(seed)],
                program_id@,
            );
            match r {
                Some(p) => d matches Some(q) && p.0@ == q.0 && p.1 == q.1,
                None => d is None,
            }
        }),
{
    let mut seeds: Vec<Vec<u8>> = Vec::new();
    let mut tag: Vec<u8> = Vec::new();
    tag.push(101u8);
    tag.push(115u8);
    tag.push(99u8);
    tag.push(114u8);
    tag.push(111u8);
    tag.push(119u8);
    seeds.push(tag);
    seeds.push(maker.to_vec());
    seeds.push(vstd::bytes::u64_to_le_bytes(seed));
    proof {
        assert(seeds.deep_view() =~~= seq![
            escrow_seed(),
            maker@,
            vstd::bytes::spec_u64_to_le_bytes(seed),
        ]);
    }
    find_pda(&seeds, program_id)
}

/// Derives the vault record's identity and bump from `(mint, "vault")`
/// under the vault program.
pub fn vault_identity(program_id: &Address, mint: &Address) -> (r: Option<(Address, u8)>)
    ensures
        ({
            let d = pda_of(seq![mint@, vault_seed()], program_id@);
            match r {
                Some(p) => d matches Some(q) && p.0@ == q.0 && p.1 == q.1,
                None => d is None,
            }
        }),
{
    let mut seeds: Vec<Vec<u8>> = Vec::new();
    seeds.push(mint.to_vec());
    let mut tag: Vec<u8> = Vec::new();
    tag.push(118u8);
    tag.push(97u8);
    tag.push(117u8);
    tag.push(108u8);
    tag.push(116u8);
    seeds.push(tag);
    proof {
        assert(seeds.deep_view() =~~= seq![mint@, vault_seed()]);
    }
    find_pda(&seeds, program_id)
}

/// Derives the whitelist record's identity and bump from `("whitelist")`
/// under the vault program.
pub fn whitelist_identity(program_id: &Address) -> (r: Option<(Address, u8)>)
    ensures
        ({
            let d = pda_of(seq![whitelist_seed()], program_id@);
            match r {
                Some(p) => d matches Some(q) && p.0@ == q.0 && p.1 == q.1,
                None => d is None,
            }
        }),
{
    let mut seeds: Vec<Vec<u8>> = Vec::new();
    let mut tag: Vec<u8> = Vec::new();
    tag.push(119u8);
    tag.push(104u8);
    tag.push(105u8);
    tag.push(116u8);
    tag.push(101u8);
    tag.push(108u8);
    tag.push(105u8);
    tag.push(115u8);
    tag.push(116u8);
    seeds.push(tag);
    proof {
        assert(seeds.deep_view() =~~= seq![whitelist_seed()]);
    }
    find_pda(&seeds, program_id)
}

/// Derives the extra-metas record's identity and bump from
/// `("extra-account-metas", mint)` under the hook program.
pub fn extra_metas_identity(hook_program_id: &Address, mint: &Address) -> (r: Option<
    (Address, u8),
>)
    ensures
        ({
            let d = pda_of(seq![extra_metas_seed(), mint@], hook_program_id@);
            match r {
                Some(p) => d matches Some(q) && p.0@ == q.0 && p.1 == q.1,
                None => d is None,
            }
        }),
{
    let mut seeds: Vec<Vec<u8>> = Vec::new();
    let mut tag: Vec<u8> = Vec::new();
    tag.push(101u8);
    tag.push(120u8);
    tag.push(116u8);
    tag.push(114u8);
    tag.push(97u8);
    tag.push(45u8);
    tag.push(97u8);
    tag.push(99u8);
    tag.push(99u8);
    tag.push(111u8);
    tag.push(117u8);
    tag.push(110u8);
    tag.push(116u8);
    tag.push(45u8);
    tag.push(109u8);
    tag.push(101u8);
    tag.push(116u8);
    tag.push(97u8);
    tag.push(115u8);
    seeds.push(tag);
    seeds.push(mint.to_vec());
    proof {
        assert(seeds.deep_view() =~~= seq![extra_metas_seed(), mint@]);
    }
    find_pda(&seeds, hook_program_id)
}

} // verus!
