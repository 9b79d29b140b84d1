use mpl_core_ops::account::AccountHandle;
use mpl_core_ops::address::{Address, CORE_PROGRAM_ID, ID, SYSTEM_PROGRAM_ID};
use mpl_core_ops::cpi::{AccountMeta, Instruction};
use mpl_core_ops::{
    burn_asset, create_asset, create_collection, freeze_asset, transfer_asset, BurnAsset, Context,
    CreateAsset, CreateAssetArgs, CreateCollection, CreateCollectionArgs, FreezeAsset,
    TransferAsset,
};

fn key(n: u8) -> Address {
    [n; 32]
}

fn account(n: u8, is_signer: bool, is_writable: bool) -> AccountHandle {
    AccountHandle { key: key(n), is_signer, is_writable, executable: false }
}

fn program(key: Address) -> AccountHandle {
    AccountHandle { key, is_signer: false, is_writable: false, executable: true }
}

fn meta(pubkey: Address, is_signer: bool, is_writable: bool) -> AccountMeta {
    AccountMeta { pubkey, is_signer, is_writable }
}

fn absent() -> AccountMeta {
    meta(CORE_PROGRAM_ID, false, false)
}

#[test]
fn create_asset_call_with_every_account() {
    let ctx = CreateAsset {
        payer: account(1, true, true),
        asset: account(2, true, true),
        collection: Some(account(3, false, true)),
        authority: Some(account(4, true, false)),
        owner: Some(account(5, false, false)),
        update_authority: Some(account(6, false, false)),
        system_program: program(SYSTEM_PROGRAM_ID),
        mpl_core_program: program(CORE_PROGRAM_ID),
    };
    let call = ctx.create_asset(CreateAssetArgs { name: "ab".to_string(), uri: "xyz".to_string() });
    let expected = Instruction {
        program_id: CORE_PROGRAM_ID,
        accounts: vec![
            meta(key(2), true, true),
            meta(key(3), false, true),
            meta(key(4), true, false),
            meta(key(1), true, true),
            meta(key(5), false, false),
            meta(key(6), false, false),
            meta(SYSTEM_PROGRAM_ID, false, false),
            absent(),
        ],
        data: vec![20, 0, 2, 0, 0, 0, b'a', b'b', 3, 0, 0, 0, b'x', b'y', b'z', 0, 0],
    };
    assert_eq!(call, expected);
}

#[test]
fn create_asset_call_with_no_optional_account() {
    let ctx = CreateAsset {
        payer: account(1, true, true),
        asset: account(2, true, true),
        collection: None,
        authority: None,
        owner: None,
        update_authority: None,
        system_program: program(SYSTEM_PROGRAM_ID),
        mpl_core_program: program(CORE_PROGRAM_ID),
    };
    let call = ctx.create_asset(CreateAssetArgs { name: String::new(), uri: String::new() });
    let expected = Instruction {
        program_id: CORE_PROGRAM_ID,
        accounts: vec![
            meta(key(2), true, true),
            absent(),
            absent(),
            meta(key(1), true, true),
            absent(),
            absent(),
            meta(SYSTEM_PROGRAM_ID, false, false),
            absent(),
        ],
        data: vec![20, 0, 0, 0, 0, 0, 0, 0, 0, 0, 0, 0],
    };
    assert_eq!(call, expected);
}

#[test]
fn create_asset_marks_flags_by_role_not_by_what_the_account_carries() {
    let ctx = CreateAsset {
        payer: account(1, true, true),
        asset: account(2, true, true),
        collection: Some(account(3, true, true)),
        authority: Some(account(4, true, true)),
        owner: Some(account(5, true, true)),
        update_authority: Some(account(6, true, true)),
        system_program: program(SYSTEM_PROGRAM_ID),
        mpl_core_program: program(CORE_PROGRAM_ID),
    };
    let call = ctx.create_asset(CreateAssetArgs { name: "n".to_string(), uri: "u".to_string() });
    assert_eq!(call.accounts[1], meta(key(3), false, true));
    assert_eq!(call.accounts[2], meta(key(4), true, false));
    assert_eq!(call.accounts[4], meta(key(5), false, false));
    assert_eq!(call.accounts[5], meta(key(6), false, false));
}

#[test]
fn create_collection_call_with_update_authority() {
    let ctx = CreateCollection {
        payer: account(1, true, true),
        collection: account(2, true, true),
        update_authority: Some(account(3, true, false)),
        system_program: program(SYSTEM_PROGRAM_ID),
        mpl_core_program: program(CORE_PROGRAM_ID),
    };
    let call = ctx.create_collection(CreateCollectionArgs {
        name: "Art".to_string(),
        uri: "https://a.b/c".to_string(),
    });
    let mut data = vec![21, 3, 0, 0, 0, b'A', b'r', b't', 13, 0, 0, 0];
    data.extend_from_slice(b"https://a.b/c");
    data.extend_from_slice(&[0, 0]);
    let expected = Instruction {
        program_id: CORE_PROGRAM_ID,
        accounts: vec![
            meta(key(2), true, true),
            meta(key(3), false, false),
            meta(key(1), true, true),
            meta(SYSTEM_PROGRAM_ID, false, false),
        ],
        data,
    };
    assert_eq!(call, expected);
}

#[test]
fn create_collection_call_without_update_authority() {
    let ctx = CreateCollection {
        payer: account(1, true, true),
        collection: account(2, true, true),
        update_authority: None,
        system_program: program(SYSTEM_PROGRAM_ID),
        mpl_core_program: program(CORE_PROGRAM_ID),
    };
    let call =
        ctx.create_collection(CreateCollectionArgs { name: "x".to_string(), uri: String::new() });
    assert_eq!(call.program_id, CORE_PROGRAM_ID);
    assert_eq!(
        call.accounts,
        vec![
            meta(key(2), true, true),
            absent(),
            meta(key(1), true, true),
            meta(SYSTEM_PROGRAM_ID, false, false),
        ]
    );
    assert_eq!(call.data, vec![21, 1, 0, 0, 0, b'x', 0, 0, 0, 0, 0, 0]);
}

#[test]
fn create_collection_length_counts_bytes_not_characters() {
    let ctx = CreateCollection {
        payer: account(1, true, true),
        collection: account(2, true, true),
        update_authority: None,
        system_program: program(SYSTEM_PROGRAM_ID),
        mpl_core_program: program(CORE_PROGRAM_ID),
    };
    let call = ctx.create_collection(CreateCollectionArgs {
        name: "\u{e9}".to_string(),
        uri: "\u{20ac}".to_string(),
    });
    assert_eq!(call.data, vec![21, 2, 0, 0, 0, 0xc3, 0xa9, 3, 0, 0, 0, 0xe2, 0x82, 0xac, 0, 0]);
}

#[test]
fn create_collection_length_uses_the_second_byte_from_256_on() {
    let ctx = CreateCollection {
        payer: account(1, true, true),
        collection: account(2, true, true),
        update_authority: None,
        system_program: program(SYSTEM_PROGRAM_ID),
        mpl_core_program: program(CORE_PROGRAM_ID),
    };
    let name = "a".repeat(300);
    let call = ctx.create_collection(CreateCollectionArgs { name, uri: String::new() });
    assert_eq!(call.data.len(), 1 + 4 + 300 + 4 + 2);
    assert_eq!(&call.data[..5], &[21, 44, 1, 0, 0]);
    assert!(call.data[5..305].iter().all(|b| *b == b'a'));
    assert_eq!(&call.data[305..], &[0, 0, 0, 0, 0, 0]);
}

#[test]
fn freeze_call_with_update_authority_and_collection() {
    let ctx = FreezeAsset {
        payer: account(1, true, true),
        owner: account(2, true, false),
        update_authority: Some(account(3, true, false)),
        asset: account(4, false, true),
        collection: Some(account(5, false, true)),
        system_program: program(SYSTEM_PROGRAM_ID),
        mpl_core_program: program(CORE_PROGRAM_ID),
    };
    let expected = Instruction {
        program_id: CORE_PROGRAM_ID,
        accounts: vec![
            meta(key(4), false, true),
            meta(key(5), false, true),
            meta(key(1), true, true),
            meta(key(3), true, false),
            meta(SYSTEM_PROGRAM_ID, false, false),
            absent(),
        ],
        data: vec![2, 1, 1, 1, 2],
    };
    assert_eq!(ctx.freeze_asset(), expected);
}

#[test]
fn freeze_call_names_no_authority_without_update_authority() {
    let ctx = FreezeAsset {
        payer: account(1, true, true),
        owner: account(2, true, false),
        update_authority: None,
        asset: account(4, false, true),
        collection: None,
        system_program: program(SYSTEM_PROGRAM_ID),
        mpl_core_program: program(CORE_PROGRAM_ID),
    };
    let call = ctx.freeze_asset();
    assert_eq!(
        call.accounts,
        vec![
            meta(key(4), false, true),
            absent(),
            meta(key(1), true, true),
            absent(),
            meta(SYSTEM_PROGRAM_ID, false, false),
            absent(),
        ]
    );
    assert_eq!(call.data, vec![2, 1, 1, 1, 2]);
}

#[test]
fn freeze_call_does_not_pass_the_owner_on() {
    let ctx = FreezeAsset {
        payer: account(1, true, true),
        owner: account(2, true, false),
        update_authority: Some(account(3, true, false)),
        asset: account(4, false, true),
        collection: Some(account(5, false, true)),
        system_program: program(SYSTEM_PROGRAM_ID),
        mpl_core_program: program(CORE_PROGRAM_ID),
    };
    let call = ctx.freeze_asset();
    assert!(call.accounts.iter().all(|m| m.pubkey != key(2)));
}

#[test]
fn transfer_call_with_every_account() {
    let ctx = TransferAsset {
        payer: account(1, true, true),
        authority: Some(account(2, true, false)),
        asset: account(3, false, true),
        new_owner: account(4, false, false),
        collection: Some(account(5, false, true)),
        system_program: Some(program(SYSTEM_PROGRAM_ID)),
        mpl_core_program: program(CORE_PROGRAM_ID),
    };
    let expected = Instruction {
        program_id: CORE_PROGRAM_ID,
        accounts: vec![
            meta(key(3), false, true),
            meta(key(5), false, false),
            meta(key(1), true, true),
            meta(key(2), true, false),
            meta(key(4), false, false),
            meta(SYSTEM_PROGRAM_ID, false, false),
            absent(),
        ],
        data: vec![14, 0],
    };
    assert_eq!(ctx.transfer_asset(), expected);
}

#[test]
fn transfer_call_with_no_optional_account() {
    let ctx = TransferAsset {
        payer: account(1, true, true),
        authority: None,
        asset: account(3, false, true),
        new_owner: account(4, false, false),
        collection: None,
        system_program: None,
        mpl_core_program: program(CORE_PROGRAM_ID),
    };
    let expected = Instruction {
        program_id: CORE_PROGRAM_ID,
        accounts: vec![
            meta(key(3), false, true),
            absent(),
            meta(key(1), true, true),
            absent(),
            meta(key(4), false, false),
            absent(),
            absent(),
        ],
        data: vec![14, 0],
    };
    assert_eq!(ctx.transfer_asset(), expected);
}

#[test]
fn transfer_call_names_a_new_owner_that_signed_as_one_that_need_not() {
    let ctx = TransferAsset {
        payer: account(1, true, true),
        authority: None,
        asset: account(3, false, true),
        new_owner: account(4, true, true),
        collection: None,
        system_program: None,
        mpl_core_program: program(CORE_PROGRAM_ID),
    };
    assert_eq!(ctx.transfer_asset().accounts[4], meta(key(4), false, false));
}

#[test]
fn burn_call_with_every_account() {
    let ctx = BurnAsset {
        payer: account(1, true, true),
        authority: Some(account(2, true, false)),
        asset: account(3, false, true),
        collection: Some(account(4, false, true)),
        system_program: program(SYSTEM_PROGRAM_ID),
        mpl_core_program: program(CORE_PROGRAM_ID),
    };
    let expected = Instruction {
        program_id: CORE_PROGRAM_ID,
        accounts: vec![
            meta(key(3), false, true),
            meta(key(4), false, true),
            meta(key(1), true, true),
            meta(key(2), true, false),
            meta(SYSTEM_PROGRAM_ID, false, false),
            absent(),
        ],
        data: vec![12, 0],
    };
    assert_eq!(ctx.burn_asset(), expected);
}

#[test]
fn burn_call_with_no_optional_account_still_names_the_system_program() {
    let ctx = BurnAsset {
        payer: account(1, true, true),
        authority: None,
        asset: account(3, false, true),
        collection: None,
        system_program: program(SYSTEM_PROGRAM_ID),
        mpl_core_program: program(CORE_PROGRAM_ID),
    };
    let call = ctx.burn_asset();
    assert_eq!(
        call.accounts,
        vec![
            meta(key(3), false, true),
            absent(),
            meta(key(1), true, true),
            absent(),
            meta(SYSTEM_PROGRAM_ID, false, false),
            absent(),
        ]
    );
    assert_eq!(call.data, vec![12, 0]);
}

#[test]
fn handlers_by_way_of_the_dispatcher_functions_make_the_same_calls() {
    let burn = BurnAsset {
        payer: account(1, true, true),
        authority: None,
        asset: account(3, false, true),
        collection: None,
        system_program: program(SYSTEM_PROGRAM_ID),
        mpl_core_program: program(CORE_PROGRAM_ID),
    };
    assert_eq!(burn_asset(Context { program_id: ID, accounts: burn }), burn.burn_asset());
    let transfer = TransferAsset {
        payer: account(1, true, true),
        authority: None,
        asset: account(3, false, true),
        new_owner: account(4, false, false),
        collection: None,
        system_program: None,
        mpl_core_program: program(CORE_PROGRAM_ID),
    };
    assert_eq!(
        transfer_asset(Context { program_id: ID, accounts: transfer }),
        transfer.transfer_asset()
    );
    let freeze = FreezeAsset {
        payer: account(1, true, true),
        owner: account(2, true, false),
        update_authority: None,
        asset: account(4, false, true),
        collection: None,
        system_program: program(SYSTEM_PROGRAM_ID),
        mpl_core_program: program(CORE_PROGRAM_ID),
    };
    assert_eq!(freeze_asset(Context { program_id: ID, accounts: freeze }), freeze.freeze_asset());
    let collection = CreateCollection {
        payer: account(1, true, true),
        collection: account(2, true, true),
        update_authority: None,
        system_program: program(SYSTEM_PROGRAM_ID),
        mpl_core_program: program(CORE_PROGRAM_ID),
    };
    assert_eq!(
        create_collection(
            Context { program_id: ID, accounts: collection },
            CreateCollectionArgs { name: "n".to_string(), uri: "u".to_string() }
        ),
        collection
            .create_collection(CreateCollectionArgs { name: "n".to_string(), uri: "u".to_string() })
    );
    let asset = CreateAsset {
        payer: account(1, true, true),
        asset: account(2, true, true),
        collection: None,
        authority: None,
        owner: None,
        update_authority: None,
        system_program: program(SYSTEM_PROGRAM_ID),
        mpl_core_program: program(CORE_PROGRAM_ID),
    };
    assert_eq!(
        create_asset(
            Context { program_id: ID, accounts: asset },
            CreateAssetArgs { name: "n".to_string(), uri: "u".to_string() }
        ),
        asset.create_asset(CreateAssetArgs { name: "n".to_string(), uri: "u".to_string() })
    );
}
