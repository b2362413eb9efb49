use escrow_vault::addr::Address;
use escrow_vault::codec::{
    decode_escrow, decode_vault, decode_whitelist, encode_escrow, encode_vault, encode_whitelist,
    read_token_account_amount,
};
use escrow_vault::create_vault::Vault;
use escrow_vault::escrow::Escrow;
use escrow_vault::whitelist::Whitelist;

fn addr(n: u8) -> Address {
    Address::from_bytes([n; 32])
}

#[test]
fn escrow_record_round_trips() {
    let e = Escrow {
        seed: 123u64,
        maker: addr(1),
        mint_a: addr(2),
        mint_b: addr(3),
        receive: 10,
        bump: 254,
    };
    let bytes = encode_escrow(&e);
    assert_eq!(bytes.len(), 121);
    assert_eq!(decode_escrow(&bytes), Some(e));
}

#[test]
fn escrow_decode_rejects_malformed_images() {
    let e = Escrow {
        seed: 1,
        maker: addr(1),
        mint_a: addr(2),
        mint_b: addr(3),
        receive: 2,
        bump: 0,
    };
    let mut bytes = encode_escrow(&e);
    bytes.push(0);
    assert_eq!(decode_escrow(&bytes), None);
    bytes.pop();
    bytes[0] = bytes[0].wrapping_add(1);
    assert_eq!(decode_escrow(&bytes), None);
}

#[test]
fn vault_record_round_trips() {
    let v = Vault { mint: addr(2), owner: addr(1), vault_bump: 255 };
    let bytes = encode_vault(&v);
    assert_eq!(bytes.len(), 73);
    assert_eq!(decode_vault(&bytes), Some(v));
    assert_eq!(decode_vault(&encode_escrow(&Escrow {
        seed: 0,
        maker: addr(1),
        mint_a: addr(2),
        mint_b: addr(3),
        receive: 1,
        bump: 0,
    })), None);
}

#[test]
fn token_account_amount_sits_at_offset_64() {
    let mut image = vec![0u8; 165];
    image[64..72].copy_from_slice(&10_000u64.to_le_bytes());
    assert_eq!(read_token_account_amount(&image), Some(10_000));
    let short = vec![0u8; 64];
    assert_eq!(read_token_account_amount(&short), None);
}

#[test]
fn whitelist_record_round_trips() {
    let wl = Whitelist {
        address: vec![(addr(5), 100u64, true), (addr(6), 0u64, false)],
        whitelist_bump: 254,
        admin: addr(1),
    };
    let bytes = encode_whitelist(&wl);
    assert_eq!(bytes.len(), 45 + 41 * 2);
    assert_eq!(&bytes[8..12], &2u32.to_le_bytes());
    assert_eq!(decode_whitelist(&bytes), Some(wl));
}

#[test]
fn empty_whitelist_round_trips() {
    let wl = Whitelist { address: Vec::new(), whitelist_bump: 0, admin: addr(1) };
    let bytes = encode_whitelist(&wl);
    assert_eq!(bytes.len(), 45);
    assert_eq!(decode_whitelist(&bytes), Some(wl));
}

#[test]
fn whitelist_decode_is_strict() {
    let wl = Whitelist {
        address: vec![(addr(5), 100u64, true)],
        whitelist_bump: 254,
        admin: addr(1),
    };
    let mut bytes = encode_whitelist(&wl);
    // a non-boolean flag byte
    bytes[12 + 40] = 2;
    assert_eq!(decode_whitelist(&bytes), None);
    bytes[12 + 40] = 1;
    assert!(decode_whitelist(&bytes).is_some());
    // a count that does not match the length
    bytes[8] = 9;
    assert_eq!(decode_whitelist(&bytes), None);
}

#[test]
fn distinct_records_have_distinct_images() {
    let e1 = Escrow {
        seed: 123u64,
        maker: addr(1),
        mint_a: addr(2),
        mint_b: addr(3),
        receive: 10,
        bump: 254,
    };
    let e2 = Escrow { seed: 124u64, ..e1 };
    assert_ne!(encode_escrow(&e1), encode_escrow(&e2));
}
