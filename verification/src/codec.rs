//! Persisted record layout: an 8-byte type discriminator followed by a
//! fixed little-endian serialization of the record's fields.  Decoding
//! is proved to invert encoding exactly.

use vstd::prelude::*;
use vstd::bytes::{
    lemma_auto_spec_u32_to_from_le_bytes, lemma_auto_spec_u64_to_from_le_bytes,
    spec_u32_from_le_bytes, spec_u32_to_le_bytes, spec_u64_from_le_bytes, spec_u64_to_le_bytes,
    u32_from_le_bytes, u32_to_le_bytes, u64_from_le_bytes, u64_to_le_bytes,
};

use crate::addr::Address;
use crate::create_vault::Vault;
use crate::escrow::Escrow;
use crate::whitelist::{Whitelist, WhitelistEntry, WhitelistView};

verus! {

/// The escrow record's type discriminator.
pub open spec fn escrow_disc() -> Seq<u8> {
    seq![101u8, 115u8, 99u8, 114u8, 111u8, 119u8, 0u8, 0u8]
}

/// The vault record's type discriminator.
pub open spec fn vault_disc() -> Seq<u8> {
    seq![118u8, 97u8, 117u8, 108u8, 116u8, 0u8, 0u8, 0u8]
}

/// The address a 32-byte sequence denotes.
pub open spec fn address_of_bytes(s: Seq<u8>) -> Address {
    choose|a: Address| a@ == s
}

/// Every address is recovered from its own bytes.
pub proof fn lemma_address_of_bytes(a: Address)
    ensures
        address_of_bytes(a@) == a,
{
    let b = address_of_bytes(a@);
    assert(b@ == a@);
    assert(b.bytes =~= a.bytes);
}

/// Byte image of an escrow record: discriminator, seed, maker, the two
/// mints, the demanded amount, and the bump.
pub open spec fn spec_encode_escrow(e: Escrow) -> Seq<u8> {
    escrow_disc() + spec_u64_to_le_bytes(e.seed) + e.maker@ + e.mint_a@ + e.mint_b@
        + spec_u64_to_le_bytes(e.receive) + seq![e.bump]
}

/// The record a byte sequence holds, when it is a well-formed escrow
/// image: the right length and the escrow discriminator.
pub open spec fn spec_decode_escrow(data: Seq<u8>) -> Option<Escrow> {
    if data.len() == 121 && data.subrange(0, 8) == escrow_disc() {
        Some(
            Escrow {
                seed: spec_u64_from_le_bytes(data.subrange(8, 16)),
                maker: address_of_bytes(data.subrange(16, 48)),
                mint_a: address_of_bytes(data.subrange(48, 80)),
                mint_b: address_of_bytes(data.subrange(80, 112)),
                receive: spec_u64_from_le_bytes(data.subrange(112, 120)),
                bump: data[120],
            },
        )
    } else {
        None
    }
}

/// Decoding inverts encoding: every escrow record is recovered exactly
/// from its byte image.
pub proof fn lemma_escrow_codec_round_trip(e: Escrow)
    ensures
        spec_decode_escrow(spec_encode_escrow(e)) == Some(e),
{
    lemma_auto_spec_u64_to_from_le_bytes();
    let data = spec_encode_escrow(e);
    assert(data.subrange(0, 8) =~= escrow_disc());
    assert(data.subrange(8, 16) =~= spec_u64_to_le_bytes(e.seed));
    assert(data.subrange(16, 48) =~= e.maker@);
    assert(data.subrange(48, 80) =~= e.mint_a@);
    assert(data.subrange(80, 112) =~= e.mint_b@);
    assert(data.subrange(112, 120) =~= spec_u64_to_le_bytes(e.receive));
    lemma_address_of_bytes(e.maker);
    lemma_address_of_bytes(e.mint_a);
    lemma_address_of_bytes(e.mint_b);
}

/// Byte image of a vault record: discriminator, mint, owner, bump.
pub open spec fn spec_encode_vault(v: Vault) -> Seq<u8> {
    vault_disc() + v.mint@ + v.owner@ + seq![v.vault_bump]
}

/// The record a byte sequence holds, when it is a well-formed vault
/// image.
pub open spec fn spec_decode_vault(data: Seq<u8>) -> Option<Vault> {
    if data.len() == 73 && data.subrange(0, 8) == vault_disc() {
        Some(
            Vault {
                mint: address_of_bytes(data.subrange(8, 40)),
                owner: address_of_bytes(data.subrange(40, 72)),
                vault_bump: data[72],
            },
        )
    } else {
        None
    }
}

/// Decoding inverts encoding for vault records.
pub proof fn lemma_vault_codec_round_trip(v: Vault)
    ensures
        spec_decode_vault(spec_encode_vault(v)) == Some(v),
{
    let data = spec_encode_vault(v);
    assert(data.subrange(0, 8) =~= vault_disc());
    assert(data.subrange(8, 40) =~= v.mint@);
    assert(data.subrange(40, 72) =~= v.owner@);
    lemma_address_of_bytes(v.mint);
    lemma_address_of_bytes(v.owner);
}

/// Appends an address's bytes.
fn push_address(out: &mut Vec<u8>, a: &Address)
    ensures
        final(out)@ == old(out)@ + a@,
{
    let ghost pre = out@;
    let mut k: usize = 0;
    while k < 32
        invariant
            k <= 32,
            out@ == pre + a@.subrange(0, k as int),
        decreases 32 - k,
    {
        out.push(a.bytes[k]);
        proof {
            assert(pre + a@.subrange(0, k as int) + seq![a.bytes[k as int]] =~= pre + a@.subrange(
                0,
                k + 1,
            ));
        }
        k = k + 1;
    }
    proof {
        assert(a@.subrange(0, 32) =~= a@);
    }
}

/// Reads 32 bytes at `off` as an address.
fn read_address(data: &Vec<u8>, off: usize) -> (r: Address)
    requires
        off + 32 <= data@.len(),
    ensures
        r@ == data@.subrange(off as int, off + 32),
        r == address_of_bytes(data@.subrange(off as int, off + 32)),
{
    let n = data.len();
    let mut bytes: [u8; 32] = [0u8; 32];
    let mut k: usize = 0;
    while k < 32
        invariant
            k <= 32,
            off + 32 <= n,
            n == data@.len(),
            forall|j: int| 0 <= j < k ==> bytes[j] == data@[off + j],
        decreases 32 - k,
    {
        bytes[k] = data[off + k];
        k = k + 1;
    }
    let r = Address { bytes };
    proof {
        assert(r@ =~= data@.subrange(off as int, off + 32));
        lemma_address_of_bytes(r);
    }
    r
}

/// Serialises an escrow record into its byte image.
pub fn encode_escrow(e: &Escrow) -> (r: Vec<u8>)
    ensures
        r@ == spec_encode_escrow(*e),
{
    let mut out: Vec<u8> = Vec::new();
    out.push(101u8);
    out.push(115u8);
    out.push(99u8);
    out.push(114u8);
    out.push(111u8);
    out.push(119u8);
    out.push(0u8);
    out.push(0u8);
    proof {
        assert(out@ =~= escrow_disc());
    }
    let mut seed_bytes = u64_to_le_bytes(e.seed);
    out.append(&mut seed_bytes);
    push_address(&mut out, &e.maker);
    push_address(&mut out, &e.mint_a);
    push_address(&mut out, &e.mint_b);
    let mut receive_bytes = u64_to_le_bytes(e.receive);
    out.append(&mut receive_bytes);
    out.push(e.bump);
    proof {
        assert(out@ =~= spec_encode_escrow(*e));
    }
    out
}

/// Parses an escrow record from a byte image; returns nothing unless
/// the length and the discriminator are exactly right.
pub fn decode_escrow(data: &Vec<u8>) -> (r: Option<Escrow>)
    ensures
        r == spec_decode_escrow(data@),
{
    if data.len() != 121 {
        return None;
    }
    let disc_ok = data[0] == 101 && data[1] == 115 && data[2] == 99 && data[3] == 114 && data[4]
        == 111 && data[5] == 119 && data[6] == 0 && data[7] == 0;
    proof {
        assert(disc_ok == (data@.subrange(0, 8) =~= escrow_disc()));
    }
    if !disc_ok {
        return None;
    }
    let seed = u64_from_le_bytes(vstd::slice::slice_subrange(data.as_slice(), 8, 16));
    let maker = read_address(data, 16);
    let mint_a = read_address(data, 48);
    let mint_b = read_address(data, 80);
    let receive = u64_from_le_bytes(vstd::slice::slice_subrange(data.as_slice(), 112, 120));
    let bump = data[120];
    Some(Escrow { seed, maker, mint_a, mint_b, receive, bump })
}

/// Serialises a vault record into its byte image.
pub fn encode_vault(v: &Vault) -> (r: Vec<u8>)
    ensures
        r@ == spec_encode_vault(*v),
{
    let mut out: Vec<u8> = Vec::new();
    out.push(118u8);
    out.push(97u8);
    out.push(117u8);
    out.push(108u8);
    out.push(116u8);
    out.push(0u8);
    out.push(0u8);
    out.push(0u8);
    proof {
        assert(out@ =~= vault_disc());
    }
    push_address(&mut out, &v.mint);
    push_address(&mut out, &v.owner);
    out.push(v.vault_bump);
    proof {
        assert(out@ =~= spec_encode_vault(*v));
    }
    out
}

/// Parses a vault record from a byte image.
pub fn decode_vault(data: &Vec<u8>) -> (r: Option<Vault>)
    ensures
        r == spec_decode_vault(data@),
{
    if data.len() != 73 {
        return None;
    }
    let disc_ok = data[0] == 118 && data[1] == 97 && data[2] == 117 && data[3] == 108 && data[4]
        == 116 && data[5] == 0 && data[6] == 0 && data[7] == 0;
    proof {
        assert(disc_ok == (data@.subrange(0, 8) =~= vault_disc()));
    }
    if !disc_ok {
        return None;
    }
    let mint = read_address(data, 8);
    let owner = read_address(data, 40);
    let vault_bump = data[72];
    Some(Vault { mint, owner, vault_bump })
}

/// The whitelist record's type discriminator.
pub open spec fn whitelist_disc() -> Seq<u8> {
    seq![119u8, 104u8, 105u8, 116u8, 101u8, 108u8, 105u8, 115u8]
}

/// Byte image of one whitelist entry: address, deposited balance, and
/// the active flag as a single byte.
pub open spec fn spec_encode_entry(e: WhitelistEntry) -> Seq<u8> {
    e.0@ + spec_u64_to_le_bytes(e.1) + seq![(if e.2 { 1u8 } else { 0u8 })]
}

/// Byte image of a sequence of whitelist entries, in order.
pub open spec fn spec_encode_entries(s: Seq<WhitelistEntry>) -> Seq<u8>
    decreases s.len(),
{
    if s.len() == 0 {
        Seq::<u8>::empty()
    } else {
        spec_encode_entries(s.drop_last()) + spec_encode_entry(s.last())
    }
}

/// Each entry's image occupies exactly its own bytes.
pub proof fn lemma_encode_entries_len(s: Seq<WhitelistEntry>)
    ensures
        spec_encode_entries(s).len() == 41 * s.len(),
    decreases s.len(),
{
    lemma_auto_spec_u64_to_from_le_bytes();
    if s.len() > 0 {
        lemma_encode_entries_len(s.drop_last());
    }
}

/// The image of entry `j` sits at bytes `41 * j .. 41 * (j + 1)` of the
/// entries' image.
pub proof fn lemma_encode_entries_index(s: Seq<WhitelistEntry>, j: int)
    requires
        0 <= j < s.len(),
    ensures
        spec_encode_entries(s).subrange(41 * j, 41 * (j + 1)) == spec_encode_entry(s[j]),
    decreases s.len(),
{
    lemma_encode_entries_len(s);
    lemma_encode_entries_len(s.drop_last());
    if j == s.len() - 1 {
        assert(spec_encode_entries(s).subrange(41 * j, 41 * (j + 1)) =~= spec_encode_entry(s[j]));
    } else {
        lemma_encode_entries_index(s.drop_last(), j);
        assert(spec_encode_entries(s).subrange(41 * j, 41 * (j + 1)) =~= spec_encode_entries(
            s.drop_last(),
        ).subrange(41 * j, 41 * (j + 1)));
    }
}

/// Byte image of the whitelist record: discriminator, a 4-byte count of
/// entries, the entries, the bump, and the admin.
pub open spec fn spec_encode_whitelist(w: WhitelistView) -> Seq<u8> {
    whitelist_disc() + spec_u32_to_le_bytes(w.entries.len() as u32) + spec_encode_entries(
        w.entries,
    ) + seq![w.bump] + w.admin@
}

/// The entry decoded from bytes `12 + 41 * j` onward of a record image.
pub open spec fn spec_entry_at(data: Seq<u8>, j: int) -> WhitelistEntry {
    let base: int = 12 + 41 * j;
    (
        address_of_bytes(data.subrange(base, base + 32)),
        spec_u64_from_le_bytes(data.subrange(base + 32, base + 40)),
        data[base + 40] == 1,
    )
}

/// The active-flag byte of entry `j` in a record image.
pub open spec fn spec_flag_byte(data: Seq<u8>, j: int) -> u8 {
    data[12 + 41 * j + 40]
}

/// Every entry's active-flag byte is a strict boolean.
pub open spec fn spec_flags_ok(data: Seq<u8>, n: int) -> bool {
    forall|j: int| 0 <= j < n ==> spec_flag_byte(data, j) == 0 || spec_flag_byte(data, j) == 1
}

/// The record a byte sequence holds, when it is a well-formed whitelist
/// image: the discriminator, a count that matches the length exactly,
/// and strict flag bytes.
pub open spec fn spec_decode_whitelist(data: Seq<u8>) -> Option<WhitelistView> {
    if data.len() >= 12 && data.subrange(0, 8) == whitelist_disc() {
        let n = spec_u32_from_le_bytes(data.subrange(8, 12)) as int;
        if data.len() == 45 + 41 * n && spec_flags_ok(data, n) {
            Some(
                WhitelistView {
                    entries: Seq::new(n as nat, |j: int| spec_entry_at(data, j)),
                    bump: data[12 + 41 * n],
                    admin: address_of_bytes(data.subrange(13 + 41 * n, 45 + 41 * n)),
                },
            )
        } else {
            None
        }
    } else {
        None
    }
}

/// Decoding inverts encoding for whitelist records whose entry count
/// fits the 4-byte prefix.
pub proof fn lemma_whitelist_codec_round_trip(w: WhitelistView)
    requires
        w.entries.len() <= u32::MAX,
    ensures
        spec_decode_whitelist(spec_encode_whitelist(w)) == Some(w),
{
    lemma_auto_spec_u32_to_from_le_bytes();
    lemma_auto_spec_u64_to_from_le_bytes();
    lemma_encode_entries_len(w.entries);
    let data = spec_encode_whitelist(w);
    let n = w.entries.len() as int;
    let body = spec_encode_entries(w.entries);
    assert(data.len() == 45 + 41 * n);
    assert(data.subrange(0, 8) =~= whitelist_disc());
    assert(data.subrange(8, 12) =~= spec_u32_to_le_bytes(w.entries.len() as u32));
    assert(spec_u32_from_le_bytes(data.subrange(8, 12)) as int == n);
    assert forall|j: int| 0 <= j < n implies (spec_flag_byte(data, j) == 0 || spec_flag_byte(
        data,
        j,
    ) == 1) && #[trigger] spec_entry_at(data, j) == w.entries[j] by {
        lemma_encode_entries_index(w.entries, j);
        let e = w.entries[j];
        let img = spec_encode_entry(e);
        let base: int = 12 + 41 * j;
        assert(data.subrange(base, base + 41) =~= body.subrange(41 * j, 41 * (j + 1)));
        assert(data.subrange(base, base + 41) == img);
        assert(spec_flag_byte(data, j) == data.subrange(base, base + 41)[40]);
        assert(img[40] == (if e.2 { 1u8 } else { 0u8 }));
        assert(data.subrange(base, base + 32) =~= img.subrange(0, 32));
        assert(img.subrange(0, 32) =~= e.0@);
        assert(data.subrange(base + 32, base + 40) =~= img.subrange(32, 40));
        assert(img.subrange(32, 40) =~= spec_u64_to_le_bytes(e.1));
        lemma_address_of_bytes(e.0);
    }
    assert(data[12 + 41 * n] == w.bump) by {
        assert(data[12 + 41 * n] == (seq![w.bump] + w.admin@)[0]);
    }
    assert(data.subrange(13 + 41 * n, 45 + 41 * n) =~= w.admin@);
    lemma_address_of_bytes(w.admin);
    assert forall|j: int| 0 <= j < n implies #[trigger] spec_flag_byte(data, j) == 0
        || spec_flag_byte(data, j) == 1 by {
        assert(spec_entry_at(data, j) == w.entries[j]);
    }
    assert(spec_flags_ok(data, n));
    let decoded = spec_decode_whitelist(data);
    assert(decoded is Some);
    assert(decoded->0.entries =~= w.entries);
    assert(decoded->0 =~= w);
}

/// Serialises a whitelist record into its byte image.
pub fn encode_whitelist(w: &Whitelist) -> (r: Vec<u8>)
    requires
        w.address@.len() <= u32::MAX,
    ensures
        r@ == spec_encode_whitelist(w@),
{
    let n = w.address.len();
    let mut out: Vec<u8> = Vec::new();
    out.push(119u8);
    out.push(104u8);
    out.push(105u8);
    out.push(116u8);
    out.push(101u8);
    out.push(108u8);
    out.push(105u8);
    out.push(115u8);
    proof {
        assert(out@ =~= whitelist_disc());
    }
    let mut count_bytes = u32_to_le_bytes(n as u32);
    out.append(&mut count_bytes);
    let ghost header = whitelist_disc() + spec_u32_to_le_bytes(n as u32);
    proof {
        assert(out@ =~= header);
        assert(w.address@.subrange(0, 0) =~= Seq::<WhitelistEntry>::empty());
    }
    let mut j: usize = 0;
    while j < n
        invariant
            j <= n,
            n == w.address@.len(),
            out@ == header + spec_encode_entries(w.address@.subrange(0, j as int)),
        decreases n - j,
    {
        let ghost done = w.address@.subrange(0, j as int);
        let e = w.address[j];
        push_address(&mut out, &e.0);
        let mut amount_bytes = u64_to_le_bytes(e.1);
        out.append(&mut amount_bytes);
        if e.2 {
            out.push(1u8);
        } else {
            out.push(0u8);
        }
        proof {
            let next = w.address@.subrange(0, j + 1);
            assert(next.drop_last() =~= done);
            assert(next.last() == w.address@[j as int]);
            assert(out@ =~= header + spec_encode_entries(next));
        }
        j = j + 1;
    }
    proof {
        assert(w.address@.subrange(0, n as int) =~= w.address@);
    }
    out.push(w.whitelist_bump);
    push_address(&mut out, &w.admin);
    proof {
        assert(out@ =~= spec_encode_whitelist(w@));
    }
    out
}

/// Parses a whitelist record from a byte image; returns nothing unless
/// the discriminator, the count and every flag byte are exactly right.
pub fn decode_whitelist(data: &Vec<u8>) -> (r: Option<Whitelist>)
    ensures
        match r {
            Some(wl) => spec_decode_whitelist(data@) == Some(wl@),
            None => spec_decode_whitelist(data@) is None,
        },
{
    let len = data.len();
    if len < 12 {
        return None;
    }
    let disc_ok = data[0] == 119 && data[1] == 104 && data[2] == 105 && data[3] == 116 && data[4]
        == 101 && data[5] == 108 && data[6] == 105 && data[7] == 115;
    proof {
        assert(disc_ok == (data@.subrange(0, 8) =~= whitelist_disc()));
    }
    if !disc_ok {
        return None;
    }
    let count = u32_from_le_bytes(vstd::slice::slice_subrange(data.as_slice(), 8, 12));
    let n64: u64 = count as u64;
    if len as u64 != 45 + 41 * n64 {
        return None;
    }
    let n = count as usize;
    let mut entries: Vec<WhitelistEntry> = Vec::new();
    let mut j: usize = 0;
    while j < n
        invariant
            j <= n,
            n64 == n,
            len == data@.len(),
            len as u64 == 45 + 41 * n64,
            entries@.len() == j,
            forall|t: int|
                0 <= t < j ==> #[trigger] entries@[t] == spec_entry_at(data@, t) && (spec_flag_byte(
                    data@,
                    t,
                ) == 0 || spec_flag_byte(data@, t) == 1),
        decreases n - j,
    {
        let base: usize = 12 + 41 * j;
        let a = read_address(data, base);
        let amount = u64_from_le_bytes(
            vstd::slice::slice_subrange(data.as_slice(), base + 32, base + 40),
        );
        let flag_byte = data[base + 40];
        if flag_byte != 0 && flag_byte != 1 {
            proof {
                assert(spec_flag_byte(data@, j as int) == flag_byte);
                assert(!spec_flags_ok(data@, n as int));
            }
            return None;
        }
        entries.push((a, amount, flag_byte == 1));
        proof {
            assert(entries@[j as int] == spec_entry_at(data@, j as int));
        }
        j = j + 1;
    }
    let bump = data[12 + 41 * n];
    let admin = read_address(data, 13 + 41 * n);
    let wl = Whitelist { address: entries, whitelist_bump: bump, admin };
    proof {
        assert(data@.len() == 45 + 41 * (count as int));
        assert(spec_u32_from_le_bytes(data@.subrange(8, 12)) == count);
        assert forall|t: int| 0 <= t < count implies #[trigger] spec_flag_byte(data@, t) == 0
            || spec_flag_byte(data@, t) == 1 by {
            assert(entries@[t] == spec_entry_at(data@, t));
        }
        assert(spec_flags_ok(data@, count as int));
        let decoded = spec_decode_whitelist(data@);
        assert(decoded is Some);
        assert(decoded->0.entries =~= wl@.entries);
        assert(decoded->0 =~= wl@);
    }
    Some(wl)
}

/// Reads the balance field of a raw token-account image: the eight
/// little-endian bytes at offset 64, where the ledger stores the
/// account's amount; nothing when the image is too short.
pub fn read_token_account_amount(data: &Vec<u8>) -> (r: Option<u64>)
    ensures
        match r {
            Some(v) => data@.len() >= 72 && v == spec_u64_from_le_bytes(data@.subrange(64, 72)),
            None => data@.len() < 72,
        },
{
    if data.len() < 72 {
        return None;
    }
    Some(u64_from_le_bytes(vstd::slice::slice_subrange(data.as_slice(), 64, 72)))
}

} // verus!
