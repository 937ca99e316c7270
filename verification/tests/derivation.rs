use anchor_lang::prelude::Pubkey;
use nft_collection::address::Address;
use nft_collection::derivation::{state_address, state_address_with_bump, STATE_SEED};

fn program() -> Address {
    Address { bytes: [7u8; 32] }
}

#[test]
fn state_seed_is_the_ascii_name() {
    assert_eq!(&STATE_SEED[..], b"collection_state");
    assert_eq!(STATE_SEED.len(), 16);
}

#[test]
fn state_address_is_the_program_derived_address() {
    let program = program();
    let key = Pubkey::new_from_array(program.bytes);
    let (expected, bump) = Pubkey::find_program_address(&[b"collection_state"], &key);
    let found = state_address(&program);
    assert_eq!(found, Some((Address { bytes: expected.to_bytes() }, bump)));
    assert_ne!(found.unwrap().0, program);
}

#[test]
fn state_address_depends_on_the_program() {
    let one = state_address(&Address { bytes: [1u8; 32] }).unwrap();
    let two = state_address(&Address { bytes: [2u8; 32] }).unwrap();
    assert_ne!(one.0, two.0);
}

#[test]
fn found_bump_derives_the_found_address() {
    let program = program();
    let (address, bump) = state_address(&program).unwrap();
    assert_eq!(state_address_with_bump(&program, bump), Some(address));
}

#[test]
fn state_address_with_bump_is_create_program_address() {
    let program = program();
    let key = Pubkey::new_from_array(program.bytes);
    let mut seen_some = false;
    let mut seen_none = false;
    let mut bump: u8 = 255;
    loop {
        let expected = Pubkey::create_program_address(&[b"collection_state", &[bump]], &key)
            .ok()
            .map(|k| Address { bytes: k.to_bytes() });
        let derived = state_address_with_bump(&program, bump);
        assert_eq!(derived, expected);
        match derived {
            Some(address) => {
                seen_some = true;
                assert_ne!(address, program);
            }
            None => seen_none = true,
        }
        if bump == 0 {
            break;
        }
        bump -= 1;
    }
    assert!(seen_some);
    assert!(seen_none);
}

#[test]
fn same_compares_every_byte() {
    let a = Address { bytes: [9u8; 32] };
    let mut b = a;
    assert!(a.same(&b));
    b.bytes[31] = 8;
    assert!(!a.same(&b));
    assert!(!b.same(&a));
    let mut c = a;
    c.bytes[0] = 0;
    assert!(!a.same(&c));
    assert!(c.same(&c));
}
