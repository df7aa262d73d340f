use the_good_place::ops::{
    create_person, update_emotions, update_person, CreatePersonalTraits, ErrorCode, UpdateEmotions,
    UpdatePersonalTraits,
};
use the_good_place::pda::{derive_emotions_address, derive_traits_address};
use the_good_place::principal::Principal;
use the_good_place::store::Store;

fn principal(byte: u8) -> Principal {
    Principal::new([byte; 32])
}

fn create(
    store: &mut Store,
    payer: Principal,
    seed: Principal,
    name: &str,
    uri: &str,
    authority: Principal,
) -> Result<(), ErrorCode> {
    let ctx = CreatePersonalTraits { payer, entry_seed: seed };
    create_person(store, &ctx, name.to_string(), uri.to_string(), authority)
}

fn update(
    store: &mut Store,
    payer: Principal,
    seed: Principal,
    name: &str,
    uri: &str,
) -> Result<(), ErrorCode> {
    let ctx = UpdatePersonalTraits { payer, entry_seed: seed };
    update_person(store, &ctx, name.to_string(), uri.to_string())
}

fn update_emo(
    store: &mut Store,
    payer: Principal,
    seed: Principal,
    fields: [&str; 4],
) -> Result<(), ErrorCode> {
    let ctx = UpdateEmotions { payer, entry_seed: seed };
    update_emotions(
        store,
        &ctx,
        fields[0].to_string(),
        fields[1].to_string(),
        fields[2].to_string(),
        fields[3].to_string(),
    )
}

#[test]
fn create_then_update_then_refuse_stranger() {
    let authority = principal(1);
    let stranger = principal(2);
    let seed = principal(9);
    let mut store = Store::new();

    assert_eq!(create(&mut store, authority, seed, "Eleanor", "ipfs://x", authority), Ok(()));

    let (addr, _) = derive_traits_address(&seed).expect("a traits address should derive");
    {
        let record = store.traits.get(&addr).expect("the record should exist");
        assert_eq!(record.name, "Eleanor");
        assert_eq!(record.uri, "ipfs://x");
        assert_eq!(record.authority.bytes, authority.bytes);
    }

    assert_eq!(update(&mut store, authority, seed, "", "ipfs://y"), Ok(()));
    {
        let record = store.traits.get(&addr).expect("the record should exist");
        assert_eq!(record.name, "Eleanor");
        assert_eq!(record.uri, "ipfs://y");
    }

    assert_eq!(
        update(&mut store, stranger, seed, "Chidi", "ipfs://z"),
        Err(ErrorCode::AuthorizationMismatch)
    );
    let record = store.traits.get(&addr).expect("the record should exist");
    assert_eq!(record.name, "Eleanor");
    assert_eq!(record.uri, "ipfs://y");
}

#[test]
fn create_initializes_an_empty_emotions_record() {
    let authority = principal(1);
    let seed = principal(8);
    let mut store = Store::new();
    assert_eq!(create(&mut store, authority, seed, "Jason", "ipfs://j", authority), Ok(()));

    let (addr, _) = derive_emotions_address(&seed).expect("an emotions address should derive");
    let record = store.emotions.get(&addr).expect("the record should exist");
    assert_eq!(record.who, "");
    assert_eq!(record.what, "");
    assert_eq!(record.when, "");
    assert_eq!(record.why, "");
    assert_eq!(record.authority.bytes, authority.bytes);
}

#[test]
fn create_requires_payer_to_be_the_authority() {
    let payer = principal(1);
    let authority = principal(2);
    let seed = principal(3);
    let mut store = Store::new();
    assert_eq!(
        create(&mut store, payer, seed, "Tahani", "ipfs://t", authority),
        Err(ErrorCode::AuthorizationMismatch)
    );
    let (addr, _) = derive_traits_address(&seed).expect("a traits address should derive");
    assert!(store.traits.get(&addr).is_none());
}

#[test]
fn create_twice_fails_with_already_exists() {
    let authority = principal(4);
    let seed = principal(5);
    let mut store = Store::new();
    assert_eq!(create(&mut store, authority, seed, "Janet", "ipfs://a", authority), Ok(()));
    assert_eq!(
        create(&mut store, authority, seed, "Janet", "ipfs://b", authority),
        Err(ErrorCode::AlreadyExists)
    );
    let (addr, _) = derive_traits_address(&seed).expect("a traits address should derive");
    let record = store.traits.get(&addr).expect("the record should exist");
    assert_eq!(record.uri, "ipfs://a");
}

#[test]
fn update_without_a_record_fails_with_not_found() {
    let caller = principal(1);
    let seed = principal(6);
    let mut store = Store::new();
    assert_eq!(update(&mut store, caller, seed, "Derek", "ipfs://d"), Err(ErrorCode::NotFound));
    assert_eq!(
        update_emo(&mut store, caller, seed, ["a", "b", "c", "d"]),
        Err(ErrorCode::NotFound)
    );
}

#[test]
fn whitespace_only_fields_are_skipped() {
    let authority = principal(1);
    let seed = principal(7);
    let mut store = Store::new();
    assert_eq!(create(&mut store, authority, seed, "Michael", "ipfs://m", authority), Ok(()));
    assert_eq!(update(&mut store, authority, seed, " \t\n ", "ipfs://n"), Ok(()));

    let (addr, _) = derive_traits_address(&seed).expect("a traits address should derive");
    {
        let record = store.traits.get(&addr).expect("the record should exist");
        assert_eq!(record.name, "Michael");
        assert_eq!(record.uri, "ipfs://n");
    }

    let exotic_spaces = "\u{00A0}\u{2003}\u{3000}";
    assert!(exotic_spaces.trim().is_empty());
    assert_eq!(update(&mut store, authority, seed, exotic_spaces, "ipfs://o"), Ok(()));
    let record = store.traits.get(&addr).expect("the record should exist");
    assert_eq!(record.name, "Michael");
    assert_eq!(record.uri, "ipfs://o");
}

#[test]
fn update_refuses_a_record_whose_name_was_never_populated() {
    let authority = principal(1);
    let seed = principal(11);
    let mut store = Store::new();
    assert_eq!(create(&mut store, authority, seed, "", "ipfs://m", authority), Ok(()));
    assert_eq!(
        update(&mut store, authority, seed, "Vicky", "ipfs://v"),
        Err(ErrorCode::ConstraintViolation)
    );
}

#[test]
fn oversize_fields_are_refused() {
    let authority = principal(1);
    let seed = principal(12);
    let mut store = Store::new();

    let long_name = "x".repeat(33);
    assert_eq!(
        create(&mut store, authority, seed, &long_name, "ipfs://m", authority),
        Err(ErrorCode::ConstraintViolation)
    );

    assert_eq!(create(&mut store, authority, seed, "Shawn", "ipfs://m", authority), Ok(()));

    let long_uri = "u".repeat(201);
    assert_eq!(
        update(&mut store, authority, seed, "Glenn", &long_uri),
        Err(ErrorCode::ConstraintViolation)
    );

    let long_field = "w".repeat(101);
    assert_eq!(
        update_emo(&mut store, authority, seed, [&long_field, "", "", ""]),
        Err(ErrorCode::ConstraintViolation)
    );

    let (addr, _) = derive_traits_address(&seed).expect("a traits address should derive");
    let record = store.traits.get(&addr).expect("the record should exist");
    assert_eq!(record.name, "Shawn");
    assert_eq!(record.uri, "ipfs://m");
}

#[test]
fn update_emotions_overwrites_every_field() {
    let authority = principal(1);
    let stranger = principal(2);
    let seed = principal(13);
    let mut store = Store::new();
    assert_eq!(create(&mut store, authority, seed, "Pillboi", "ipfs://p", authority), Ok(()));

    assert_eq!(
        update_emo(&mut store, authority, seed, ["joy", "a party", "yesterday", "friends"]),
        Ok(())
    );
    let (addr, _) = derive_emotions_address(&seed).expect("an emotions address should derive");
    {
        let record = store.emotions.get(&addr).expect("the record should exist");
        assert_eq!(record.who, "joy");
        assert_eq!(record.what, "a party");
        assert_eq!(record.when, "yesterday");
        assert_eq!(record.why, "friends");
    }

    assert_eq!(update_emo(&mut store, authority, seed, ["", "", "", ""]), Ok(()));
    {
        let record = store.emotions.get(&addr).expect("the record should exist");
        assert_eq!(record.who, "");
        assert_eq!(record.what, "");
        assert_eq!(record.when, "");
        assert_eq!(record.why, "");
    }

    assert_eq!(
        update_emo(&mut store, stranger, seed, ["envy", "", "", ""]),
        Err(ErrorCode::AuthorizationMismatch)
    );
    let record = store.emotions.get(&addr).expect("the record should exist");
    assert_eq!(record.who, "");
}

#[test]
fn records_under_different_seeds_do_not_interfere() {
    let authority = principal(1);
    let seed_a = principal(21);
    let seed_b = principal(22);
    let mut store = Store::new();
    assert_eq!(create(&mut store, authority, seed_a, "Eleanor", "ipfs://a", authority), Ok(()));
    assert_eq!(create(&mut store, authority, seed_b, "Chidi", "ipfs://b", authority), Ok(()));

    assert_eq!(update(&mut store, authority, seed_a, "", "ipfs://c"), Ok(()));

    let (addr_b, _) = derive_traits_address(&seed_b).expect("a traits address should derive");
    let record = store.traits.get(&addr_b).expect("the record should exist");
    assert_eq!(record.name, "Chidi");
    assert_eq!(record.uri, "ipfs://b");
}
