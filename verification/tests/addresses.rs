use std::str::FromStr;

use anchor_lang::prelude::Pubkey;
use mpl_core_ops::address::{same_address, CORE_PROGRAM_ID, ID, SYSTEM_PROGRAM_ID};

#[test]
fn program_id_is_the_deployed_address() {
    let id = Pubkey::from_str("htfkB267FHfayF1w33dg8an7JgEX7ubkqkadyrBgzvf").unwrap();
    assert_eq!(ID, id.to_bytes());
}

#[test]
fn core_program_id_is_the_address_its_crate_publishes() {
    assert_eq!(CORE_PROGRAM_ID, mpl_core::ID.to_bytes());
    let id = Pubkey::from_str("CoREENxT6tW1HoK8ypY1SxRMZTcVPm7R94rH4PZNhX7d").unwrap();
    assert_eq!(CORE_PROGRAM_ID, id.to_bytes());
}

#[test]
fn system_program_id_is_the_native_program() {
    assert_eq!(SYSTEM_PROGRAM_ID, anchor_lang::system_program::ID.to_bytes());
    let id = Pubkey::from_str("11111111111111111111111111111111").unwrap();
    assert_eq!(SYSTEM_PROGRAM_ID, id.to_bytes());
}

#[test]
fn same_address_compares_every_byte() {
    let a = [7u8; 32];
    assert!(same_address(&a, &a));
    assert!(same_address(&ID, &ID));
    for i in 0..32 {
        let mut b = a;
        b[i] = 8;
        assert!(!same_address(&a, &b));
        assert!(!same_address(&b, &a));
    }
    assert!(!same_address(&ID, &CORE_PROGRAM_ID));
}
