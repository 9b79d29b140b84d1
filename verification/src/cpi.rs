//! Outbound calls to the Core Asset Program: what a call looks like, and
//! the builders of the Core Asset Program's crate that make them.

use mpl_core::instructions::AddPluginV1Builder;
use mpl_core::types::{FreezeDelegate, Plugin, PluginAuthority};
use vstd::prelude::*;
use crate::address::{Address, CORE_PROGRAM_ID};
use crate::wire::{encoded_string, fits_length_prefix};

verus! {

/// One account as an outbound call names it.
#[derive(Clone, Copy, Debug, PartialEq, Eq)]
pub struct AccountMeta {
    pub pubkey: Address,
    pub is_signer: bool,
    pub is_writable: bool,
}

/// A call to another program: which program, on which accounts, with
/// which data.
#[derive(Debug, PartialEq, Eq)]
pub struct Instruction {
    pub program_id: Address,
    pub accounts: Vec<AccountMeta>,
    pub data: Vec<u8>,
}

/// An `Instruction` as a mathematical value.
pub struct InstructionView {
    pub program_id: Address,
    pub accounts: Seq<AccountMeta>,
    pub data: Seq<u8>,
}

impl View for Instruction {
    type V = InstructionView;

    open spec fn view(&self) -> InstructionView {
        InstructionView { program_id: self.program_id, accounts: self.accounts@, data: self.data@ }
    }
}

/// An account the callee may write to.
pub open spec fn writable(pubkey: Address, is_signer: bool) -> AccountMeta {
    AccountMeta { pubkey, is_signer, is_writable: true }
}

/// An account the callee may only read.
pub open spec fn readonly(pubkey: Address, is_signer: bool) -> AccountMeta {
    AccountMeta { pubkey, is_signer, is_writable: false }
}

/// How the Core Asset Program is told that an optional account is not
/// supplied: its own address stands in the account's place.
pub open spec fn absent() -> AccountMeta {
    readonly(CORE_PROGRAM_ID, false)
}

/// An optional account that the callee may write to when it is supplied.
pub open spec fn optional_writable(pubkey: Option<Address>, is_signer: bool) -> AccountMeta {
    match pubkey {
        Some(k) => writable(k, is_signer),
        None => absent(),
    }
}

/// An optional account that the callee may only read when it is supplied.
pub open spec fn optional_readonly(pubkey: Option<Address>, is_signer: bool) -> AccountMeta {
    match pubkey {
        Some(k) => readonly(k, is_signer),
        None => absent(),
    }
}

/// The Core Asset Program's "transfer" call.
///
/// The accounts are, in order: the asset, its collection, the payer, the
/// authority, the new owner, the native account-creation program, and the
/// log wrapper, which is never supplied. The data reads: transfer (14);
/// with no compression proof (0).
pub open spec fn transfer_call(
    asset: Address,
    collection: Option<Address>,
    payer: Address,
    authority: Option<Address>,
    new_owner: Address,
    system_program: Option<Address>,
) -> InstructionView {
    InstructionView {
        program_id: CORE_PROGRAM_ID,
        accounts: seq![
            writable(asset, false),
            optional_readonly(collection, false),
            writable(payer, true),
            optional_readonly(authority, true),
            readonly(new_owner, false),
            optional_readonly(system_program, false),
            absent(),
        ],
        data: seq![14u8, 0u8],
    }
}

/// Builds the "transfer" call with `mpl_core::instructions::TransferV1Builder`.
/// Trusted: the builder lays the call out as `transfer_call` says, with no
/// log wrapper and no compression proof.
#[verifier::external_body]
pub(crate) fn build_transfer(
    asset: Address,
    collection: Option<Address>,
    payer: Address,
    authority: Option<Address>,
    new_owner: Address,
    system_program: Option<Address>,
) -> (call: Instruction)
    ensures
        call@ == transfer_call(asset, collection, payer, authority, new_owner, system_program),
{
    let ix = mpl_core::instructions::TransferV1Builder::new()
        .asset(asset.into())
        .collection(collection.map(Into::into))
        .payer(payer.into())
        .authority(authority.map(Into::into))
        .new_owner(new_owner.into())
        .system_program(system_program.map(Into::into))
        .instruction();
    let accounts = ix.accounts.iter().map(|m| AccountMeta { pubkey: m.pubkey.to_bytes(), is_signer: m.is_signer, is_writable: m.is_writable }).collect();
    Instruction { program_id: ix.program_id.to_bytes(), accounts, data: ix.data }
}

/// The Core Asset Program's "burn" call.
///
/// The accounts are, in order: the asset, its collection, the payer, the
/// authority, the native account-creation program, and the log wrapper,
/// which is never supplied. The data reads: burn (12); with no
/// compression proof (0).
pub open spec fn burn_call(
    asset: Address,
    collection: Option<Address>,
    payer: Address,
    authority: Option<Address>,
    system_program: Option<Address>,
) -> InstructionView {
    InstructionView {
        program_id: CORE_PROGRAM_ID,
        accounts: seq![
            writable(asset, false),
            optional_writable(collection, false),
            writable(payer, true),
            optional_readonly(authority, true),
            optional_readonly(system_program, false),
            absent(),
        ],
        data: seq![12u8, 0u8],
    }
}

/// Builds the "burn" call with `mpl_core::instructions::BurnV1Builder`.
/// Trusted: the builder lays the call out as `burn_call` says, with no log
/// wrapper and no compression proof.
#[verifier::external_body]
pub(crate) fn build_burn(
    asset: Address,
    collection: Option<Address>,
    payer: Address,
    authority: Option<Address>,
    system_program: Option<Address>,
) -> (call: Instruction)
    ensures
        call@ == burn_call(asset, collection, payer, authority, system_program),
{
    let ix = mpl_core::instructions::BurnV1Builder::new()
        .asset(asset.into())
        .collection(collection.map(Into::into))
        .payer(payer.into())
        .authority(authority.map(Into::into))
        .system_program(system_program.map(Into::into))
        .instruction();
    let accounts = ix.accounts.iter().map(|m| AccountMeta { pubkey: m.pubkey.to_bytes(), is_signer: m.is_signer, is_writable: m.is_writable }).collect();
    Instruction { program_id: ix.program_id.to_bytes(), accounts, data: ix.data }
}

/// Who manages a plugin once it is attached to an asset.
#[derive(Clone, Copy, Debug, PartialEq, Eq)]
pub enum ManagedBy {
    /// Nobody: the plugin can no longer be changed.
    Nobody,
    /// The owner of the asset.
    Owner,
    /// The update authority of the asset.
    UpdateAuthority,
}

/// The byte that names a plugin's manager in call data.
pub open spec fn managed_by_byte(managed_by: ManagedBy) -> u8 {
    match managed_by {
        ManagedBy::Nobody => 0,
        ManagedBy::Owner => 1,
        ManagedBy::UpdateAuthority => 2,
    }
}

/// The Core Asset Program's "add plugin" call that attaches a transfer
/// lock to an asset, frozen or not, under the given manager.
///
/// The accounts are, in order: the asset, its collection, the payer, the
/// authority, the native account-creation program, and the log wrapper,
/// which is never supplied. The data reads: add a plugin (2); of the
/// transfer-lock kind (1); whether it is frozen (1 or 0); with a manager
/// given (1); and which manager.
pub open spec fn freeze_call(
    asset: Address,
    collection: Option<Address>,
    payer: Address,
    authority: Option<Address>,
    system_program: Address,
    frozen: bool,
    managed_by: ManagedBy,
) -> InstructionView {
    InstructionView {
        program_id: CORE_PROGRAM_ID,
        accounts: seq![
            writable(asset, false),
            optional_writable(collection, false),
            writable(payer, true),
            optional_readonly(authority, true),
            readonly(system_program, false),
            absent(),
        ],
        data: seq![
            2u8,
            1u8,
            if frozen {
                1u8
            } else {
                0u8
            },
            1u8,
            managed_by_byte(managed_by),
        ],
    }
}

/// Builds the "add plugin" call for a transfer lock with
/// `mpl_core::instructions::AddPluginV1Builder`: the plugin is a
/// `FreezeDelegate` with the given `frozen`, and the initial authority is
/// the `PluginAuthority` that `managed_by` stands for. Trusted: the builder
/// lays the call out as `freeze_call` says, with no log wrapper.
#[verifier::external_body]
pub(crate) fn build_freeze(
    asset: Address,
    collection: Option<Address>,
    payer: Address,
    authority: Option<Address>,
    system_program: Address,
    frozen: bool,
    managed_by: ManagedBy,
) -> (call: Instruction)
    ensures
        call@ == freeze_call(
            asset,
            collection,
            payer,
            authority,
            system_program,
            frozen,
            managed_by,
        ),
{
    let manager = match managed_by {
        ManagedBy::Nobody => PluginAuthority::None,
        ManagedBy::Owner => PluginAuthority::Owner,
        ManagedBy::UpdateAuthority => PluginAuthority::UpdateAuthority,
    };
    let ix = AddPluginV1Builder::new().asset(asset.into()).collection(collection.map(Into::into))
        .payer(payer.into()).authority(authority.map(Into::into))
        .system_program(system_program.into())
        .plugin(Plugin::FreezeDelegate(FreezeDelegate { frozen })).init_authority(manager)
        .instruction();
    let accounts = ix.accounts.iter().map(|m| AccountMeta { pubkey: m.pubkey.to_bytes(), is_signer: m.is_signer, is_writable: m.is_writable }).collect();
    Instruction { program_id: ix.program_id.to_bytes(), accounts, data: ix.data }
}

/// The Core Asset Program's "create collection" call, with no plugins.
///
/// The accounts are, in order: the new collection, its update authority,
/// the payer, and the native account-creation program. The data reads:
/// create a collection (21); the name; the URI; no plugins (0); no
/// external plugin adapters (0).
pub open spec fn create_collection_call(
    collection: Address,
    update_authority: Option<Address>,
    payer: Address,
    system_program: Address,
    name: Seq<char>,
    uri: Seq<char>,
) -> InstructionView {
    InstructionView {
        program_id: CORE_PROGRAM_ID,
        accounts: seq![
            writable(collection, true),
            optional_readonly(update_authority, false),
            writable(payer, true),
            readonly(system_program, false),
        ],
        data: seq![21u8] + encoded_string(name) + encoded_string(uri) + seq![0u8, 0u8],
    }
}

/// Builds the "create collection" call with
/// `mpl_core::instructions::CreateCollectionV2Builder`. Trusted: the builder
/// lays the call out as `create_collection_call` says, with neither plugin
/// list given. The builder panics on a string whose length does not fit in
/// 32 bits.
#[verifier::external_body]
pub(crate) fn build_create_collection(
    collection: Address,
    update_authority: Option<Address>,
    payer: Address,
    system_program: Address,
    name: String,
    uri: String,
) -> (call: Instruction)
    requires
        fits_length_prefix(name@),
        fits_length_prefix(uri@),
    ensures
        call@ == create_collection_call(
            collection,
            update_authority,
            payer,
            system_program,
            name@,
            uri@,
        ),
{
    let ix = mpl_core::instructions::CreateCollectionV2Builder::new()
        .collection(collection.into())
        .update_authority(update_authority.map(Into::into))
        .payer(payer.into())
        .system_program(system_program.into())
        .name(name)
        .uri(uri)
        .instruction();
    let accounts = ix.accounts.iter().map(|m| AccountMeta { pubkey: m.pubkey.to_bytes(), is_signer: m.is_signer, is_writable: m.is_writable }).collect();
    Instruction { program_id: ix.program_id.to_bytes(), accounts, data: ix.data }
}

/// The Core Asset Program's "create asset" call, for an asset kept in
/// account state, with no plugins.
///
/// The accounts are, in order: the new asset, its collection, the
/// authority, the payer, the owner, the update authority, the native
/// account-creation program, and the log wrapper, which is never supplied.
/// The data reads: create an asset (20); kept in account state (0); the
/// name; the URI; no plugins (0); no external plugin adapters (0).
pub open spec fn create_asset_call(
    asset: Address,
    collection: Option<Address>,
    authority: Option<Address>,
    payer: Address,
    owner: Option<Address>,
    update_authority: Option<Address>,
    system_program: Address,
    name: Seq<char>,
    uri: Seq<char>,
) -> InstructionView {
    InstructionView {
        program_id: CORE_PROGRAM_ID,
        accounts: seq![
            writable(asset, true),
            optional_writable(collection, false),
            optional_readonly(authority, true),
            writable(payer, true),
            optional_readonly(owner, false),
            optional_readonly(update_authority, false),
            readonly(system_program, false),
            absent(),
        ],
        data: seq![20u8, 0u8] + encoded_string(name) + encoded_string(uri) + seq![0u8, 0u8],
    }
}

/// Builds the "create asset" call with
/// `mpl_core::instructions::CreateV2Builder`. Trusted: the builder lays the
/// call out as `create_asset_call` says, with the data state left at its
/// default, no log wrapper and neither plugin list given. The builder
/// panics on a string whose length does not fit in 32 bits.
#[verifier::external_body]
pub(crate) fn build_create_asset(
    asset: Address,
    collection: Option<Address>,
    authority: Option<Address>,
    payer: Address,
    owner: Option<Address>,
    update_authority: Option<Address>,
    system_program: Address,
    name: String,
    uri: String,
) -> (call: Instruction)
    requires
        fits_length_prefix(name@),
        fits_length_prefix(uri@),
    ensures
        call@ == create_asset_call(
            asset,
            collection,
            authority,
            payer,
            owner,
            update_authority,
            system_program,
            name@,
            uri@,
        ),
{
    let ix = mpl_core::instructions::CreateV2Builder::new()
        .asset(asset.into())
        .collection(collection.map(Into::into))
        .authority(authority.map(Into::into))
        .payer(payer.into())
        .owner(owner.map(Into::into))
        .update_authority(update_authority.map(Into::into))
        .system_program(system_program.into())
        .name(name)
        .uri(uri)
        .instruction();
    let accounts = ix.accounts.iter().map(|m| AccountMeta { pubkey: m.pubkey.to_bytes(), is_signer: m.is_signer, is_writable: m.is_writable }).collect();
    Instruction { program_id: ix.program_id.to_bytes(), accounts, data: ix.data }
}

} // verus!
