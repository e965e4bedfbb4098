use smartcontract::address::{derive_address, DOMAIN_TAG, PROGRAM_ID};
use smartcontract::bill::Identity;

#[test]
fn derive_address_is_repeatable() {
    let creator = Identity::new([1u8; 32]);
    let first = derive_address(&creator, "dinner");
    let second = derive_address(&creator, "dinner");
    assert!(first.is_some());
    assert_eq!(first, second);
}

#[test]
fn derive_address_known_value() {
    let creator = Identity::new([1u8; 32]);
    let (address, bump) = derive_address(&creator, "dinner").unwrap();
    assert_eq!(bump, 255);
    assert_eq!(
        address.bytes,
        [
            236, 211, 130, 243, 133, 227, 140, 194, 9, 173, 172, 196, 195, 141, 115, 236, 15, 235,
            139, 222, 106, 54, 44, 239, 58, 163, 168, 119, 109, 24, 13, 108
        ]
    );
}

#[test]
fn derive_address_agrees_with_host() {
    let creator = Identity::new([7u8; 32]);
    let program = anchor_lang::prelude::Pubkey::new_from_array(PROGRAM_ID);
    let (key, bump) = anchor_lang::prelude::Pubkey::find_program_address(
        &[&DOMAIN_TAG[..], &creator.bytes[..], "groceries".as_bytes()],
        &program,
    );
    let derived = derive_address(&creator, "groceries");
    assert_eq!(derived, Some((Identity::new(key.to_bytes()), bump)));
}

#[test]
fn derive_address_is_not_an_argument() {
    let creator = Identity::new([1u8; 32]);
    let (address, _) = derive_address(&creator, "dinner").unwrap();
    assert_ne!(address, creator);
    assert_ne!(address.bytes, PROGRAM_ID);
}

#[test]
fn derive_address_depends_on_creator() {
    let a = derive_address(&Identity::new([1u8; 32]), "dinner").unwrap();
    let b = derive_address(&Identity::new([2u8; 32]), "dinner").unwrap();
    assert_ne!(a.0, b.0);
    assert_eq!(b.1, 254);
}

#[test]
fn derive_address_depends_on_name() {
    let creator = Identity::new([1u8; 32]);
    let a = derive_address(&creator, "dinner").unwrap();
    let b = derive_address(&creator, "lunch").unwrap();
    assert_ne!(a.0, b.0);
    assert_eq!(
        b.0.bytes,
        [
            185, 84, 154, 100, 42, 106, 142, 91, 25, 168, 163, 192, 10, 181, 8, 127, 193, 51, 214,
            15, 213, 118, 74, 203, 223, 235, 187, 147, 165, 1, 117, 99
        ]
    );
}

#[test]
fn derive_address_name_of_seed_length() {
    let creator = Identity::new([1u8; 32]);
    let name = "a".repeat(32);
    assert!(derive_address(&creator, &name).is_some());
}

#[test]
fn derive_address_name_too_long() {
    let creator = Identity::new([1u8; 32]);
    let name = "a".repeat(33);
    assert_eq!(derive_address(&creator, &name), None);
}

#[test]
fn program_id_is_thirty_two_bytes() {
    assert_eq!(PROGRAM_ID.len(), 32);
    assert_eq!(
        anchor_lang::prelude::Pubkey::new_from_array(PROGRAM_ID).to_string(),
        "GQkaiF2ajZcHkdxbPyDnpBpjscWrs4xAcpinETPDAqDt"
    );
    assert_eq!(&DOMAIN_TAG, b"bill");
}

#[test]
fn identity_same_compares_bytes() {
    let a = Identity::new([3u8; 32]);
    let mut other = [3u8; 32];
    assert!(a.same(&Identity::new(other)));
    other[31] = 4;
    assert!(!a.same(&Identity::new(other)));
}
