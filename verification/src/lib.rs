//! A verified pass-through to the Core Asset Program.
//!
//! The program takes an instruction, checks the accounts that come with
//! it, and makes exactly one call to the Core Asset Program on the
//! caller's behalf. Everything it decides is decided here, on plain
//! values: which instruction the data names, whether the accounts meet
//! what the instruction declares, and what the outbound call is. Making
//! the call is left to the program shell, which hands the result back to
//! `settle`.

pub mod account;
pub mod address;
pub mod context;
pub mod cpi;
pub mod dispatch;
pub mod error;
pub mod instructions;
pub mod laws;
pub mod types;
pub mod wire;

pub use address::ID;
pub use context::Context;
pub use dispatch::{dispatch, entry, entry_reduced, settle, Operation};
pub use error::OpsError;
pub use instructions::{BurnAsset, CreateAsset, CreateCollection, FreezeAsset, Initialize, TransferAsset};
pub use types::{CreateAssetArgs, CreateCollectionArgs};

use vstd::prelude::*;
use cpi::Instruction;
use wire::fits_length_prefix;

verus! {

/// Handles `create_collection`: the call that creates the collection.
pub fn create_collection(ctx: Context<CreateCollection>, args: CreateCollectionArgs) -> (call:
    Instruction)
    requires
        ctx.accounts.valid(),
        fits_length_prefix(args.name@),
        fits_length_prefix(args.uri@),
    ensures
        call@ == ctx.accounts.outbound(args.name@, args.uri@),
{
    ctx.accounts.create_collection(args)
}

/// Handles `create_asset`: the call that creates the asset.
pub fn create_asset(ctx: Context<CreateAsset>, args: CreateAssetArgs) -> (call: Instruction)
    requires
        ctx.accounts.valid(),
        fits_length_prefix(args.name@),
        fits_length_prefix(args.uri@),
    ensures
        call@ == ctx.accounts.outbound(args.name@, args.uri@),
{
    ctx.accounts.create_asset(args)
}

/// Handles `freeze_asset`: the call that freezes the asset.
pub fn freeze_asset(ctx: Context<FreezeAsset>) -> (call: Instruction)
    requires
        ctx.accounts.valid(),
    ensures
        call@ == ctx.accounts.outbound(),
{
    ctx.accounts.freeze_asset()
}

/// Handles `transfer_asset`: the call that transfers the asset.
pub fn transfer_asset(ctx: Context<TransferAsset>) -> (call: Instruction)
    requires
        ctx.accounts.valid(),
    ensures
        call@ == ctx.accounts.outbound(),
{
    ctx.accounts.transfer_asset()
}

/// Handles `burn_asset`: the call that burns the asset.
pub fn burn_asset(ctx: Context<BurnAsset>) -> (call: Instruction)
    requires
        ctx.accounts.valid(),
    ensures
        call@ == ctx.accounts.outbound(),
{
    ctx.accounts.burn_asset()
}

/// Handles `initialize`, the one instruction of the reduced surface. It
/// always succeeds and makes no call.
pub fn initialize(ctx: Context<Initialize>) -> (r: Result<(), OpsError>)
    ensures
        r == Ok::<(), OpsError>(()),
{
    ctx.accounts.initialize()
}

} // verus!
