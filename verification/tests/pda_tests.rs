use escrow_vault::addr::Address;
use escrow_vault::pda::{
    escrow_identity, extra_metas_identity, vault_identity, whitelist_identity,
};

fn addr(n: u8) -> Address {
    Address::from_bytes([n; 32])
}

#[test]
fn escrow_identity_is_deterministic() {
    let program = addr(7);
    let maker = addr(1);
    let first = escrow_identity(&program, &maker, 123).unwrap();
    let second = escrow_identity(&program, &maker, 123).unwrap();
    assert_eq!(first, second);
}

#[test]
fn escrow_identity_depends_on_every_input() {
    let program = addr(7);
    let maker = addr(1);
    let base = escrow_identity(&program, &maker, 123).unwrap();
    let other_seed = escrow_identity(&program, &maker, 124).unwrap();
    let other_maker = escrow_identity(&program, &addr(2), 123).unwrap();
    let other_program = escrow_identity(&addr(8), &maker, 123).unwrap();
    assert_ne!(base.0, other_seed.0);
    assert_ne!(base.0, other_maker.0);
    assert_ne!(base.0, other_program.0);
}

#[test]
fn derived_identities_are_not_their_inputs() {
    let program = addr(7);
    let maker = addr(1);
    let (id, _bump) = escrow_identity(&program, &maker, 123).unwrap();
    assert_ne!(id, program);
    assert_ne!(id, maker);
    let (vid, _bump) = vault_identity(&program, &addr(2)).unwrap();
    assert_ne!(vid, addr(2));
    assert_ne!(vid, program);
}

#[test]
fn record_kinds_have_distinct_identities() {
    let program = addr(7);
    let mint = addr(2);
    let v = vault_identity(&program, &mint).unwrap();
    let w = whitelist_identity(&program).unwrap();
    let x = extra_metas_identity(&program, &mint).unwrap();
    assert_ne!(v.0, w.0);
    assert_ne!(v.0, x.0);
    assert_ne!(w.0, x.0);
}
