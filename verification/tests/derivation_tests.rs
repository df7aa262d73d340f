use the_good_place::pda::{derive_emotions_address, derive_traits_address, program_id};
use the_good_place::principal::Principal;

fn seed(byte: u8) -> Principal {
    Principal::new([byte; 32])
}

#[test]
fn derivation_is_deterministic() {
    let s = seed(7);
    let first = derive_traits_address(&s).expect("a traits address should derive");
    let second = derive_traits_address(&s).expect("a traits address should derive");
    assert_eq!(first.0.bytes, second.0.bytes);
    assert_eq!(first.1, second.1);

    let e1 = derive_emotions_address(&s).expect("an emotions address should derive");
    let e2 = derive_emotions_address(&s).expect("an emotions address should derive");
    assert_eq!(e1.0.bytes, e2.0.bytes);
    assert_eq!(e1.1, e2.1);
}

#[test]
fn derivation_matches_the_runtime_search() {
    let s = seed(42);
    let pid = anchor_lang::prelude::Pubkey::new_from_array(program_id().bytes);
    let (expected, expected_bump) = anchor_lang::prelude::Pubkey::try_find_program_address(
        &[b"thegoodplace", &s.bytes],
        &pid,
    )
    .expect("a traits address should derive");
    let (addr, bump) = derive_traits_address(&s).expect("a traits address should derive");
    assert_eq!(addr.bytes, expected.to_bytes());
    assert_eq!(bump, expected_bump);

    let (e_expected, e_bump) = anchor_lang::prelude::Pubkey::try_find_program_address(
        &[b"emotions", &s.bytes],
        &pid,
    )
    .expect("an emotions address should derive");
    let (e_addr, eb) = derive_emotions_address(&s).expect("an emotions address should derive");
    assert_eq!(e_addr.bytes, e_expected.to_bytes());
    assert_eq!(eb, e_bump);
}

#[test]
fn namespaces_separate_the_two_records() {
    let s = seed(3);
    let (traits_addr, _) = derive_traits_address(&s).expect("a traits address should derive");
    let (emotions_addr, _) = derive_emotions_address(&s).expect("an emotions address should derive");
    assert_ne!(traits_addr.bytes, emotions_addr.bytes);
    assert_ne!(traits_addr.bytes, s.bytes);
    assert_ne!(emotions_addr.bytes, s.bytes);
}

#[test]
fn different_seeds_give_different_addresses() {
    let (a, _) = derive_traits_address(&seed(1)).expect("a traits address should derive");
    let (b, _) = derive_traits_address(&seed(2)).expect("a traits address should derive");
    assert_ne!(a.bytes, b.bytes);
}
