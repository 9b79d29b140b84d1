//! From an incoming instruction to the one outbound call it stands for.

use vstd::prelude::*;
use crate::account::AccountHandle;
use crate::address::{same_address, Address, ID};
use crate::context::Context;
use crate::cpi::{Instruction, InstructionView};
use crate::error::OpsError;
use crate::instructions::{
    BurnAsset, CreateAsset, CreateCollection, FreezeAsset, Initialize, TransferAsset,
};
use crate::types::{CreateAssetArgs, CreateCollectionArgs};
use crate::wire::{
    fits, fits_length_prefix, name_and_uri, opens_with, read_string, starts_with, BURN_ASSET,
    CREATE_ASSET, CREATE_COLLECTION, FREEZE_ASSET, INITIALIZE, TRANSFER_ASSET,
};

verus! {

/// An instruction of the program, with its arguments.
#[derive(Debug, PartialEq, Eq)]
pub enum Operation {
    CreateCollection(CreateCollectionArgs),
    CreateAsset(CreateAssetArgs),
    FreezeAsset,
    TransferAsset,
    BurnAsset,
}

/// An `Operation` as a mathematical value.
pub enum OperationView {
    CreateCollection { name: Seq<char>, uri: Seq<char> },
    CreateAsset { name: Seq<char>, uri: Seq<char> },
    FreezeAsset,
    TransferAsset,
    BurnAsset,
}

impl View for Operation {
    type V = OperationView;

    open spec fn view(&self) -> OperationView {
        match self {
            Operation::CreateCollection(args) => OperationView::CreateCollection {
                name: args.name@,
                uri: args.uri@,
            },
            Operation::CreateAsset(args) => OperationView::CreateAsset {
                name: args.name@,
                uri: args.uri@,
            },
            Operation::FreezeAsset => OperationView::FreezeAsset,
            Operation::TransferAsset => OperationView::TransferAsset,
            Operation::BurnAsset => OperationView::BurnAsset,
        }
    }
}

impl Operation {
    /// Whether every string of the operation is short enough to be sent
    /// on: `dispatch` asks for no more.
    pub fn is_encodable(&self) -> (r: bool)
        ensures
            r == self@.encodable(),
    {
        match self {
            Operation::CreateCollection(args) => fits(&args.name) && fits(&args.uri),
            Operation::CreateAsset(args) => fits(&args.name) && fits(&args.uri),
            _ => true,
        }
    }
}

impl OperationView {
    /// Whether every string of the operation can be written with a 32-bit
    /// length.
    pub open spec fn encodable(self) -> bool {
        match self {
            OperationView::CreateCollection { name, uri } => fits_length_prefix(name)
                && fits_length_prefix(uri),
            OperationView::CreateAsset { name, uri } => fits_length_prefix(name)
                && fits_length_prefix(uri),
            _ => true,
        }
    }

    /// How many accounts the operation declares.
    pub open spec fn declared(self) -> int {
        match self {
            OperationView::CreateCollection { .. } => CreateCollection::declared(),
            OperationView::CreateAsset { .. } => CreateAsset::declared(),
            OperationView::FreezeAsset => FreezeAsset::declared(),
            OperationView::TransferAsset => TransferAsset::declared(),
            OperationView::BurnAsset => BurnAsset::declared(),
        }
    }
}

/// The operation that instruction data names: the one whose opening bytes
/// the data starts with, with the arguments that follow them.
pub open spec fn decoded(data: Seq<u8>) -> Result<OperationView, OpsError> {
    if opens_with(data, CREATE_COLLECTION) {
        match name_and_uri(data) {
            Some((name, uri)) => Ok(OperationView::CreateCollection { name, uri }),
            None => Err(OpsError::MalformedArguments),
        }
    } else if opens_with(data, CREATE_ASSET) {
        match name_and_uri(data) {
            Some((name, uri)) => Ok(OperationView::CreateAsset { name, uri }),
            None => Err(OpsError::MalformedArguments),
        }
    } else if opens_with(data, FREEZE_ASSET) {
        Ok(OperationView::FreezeAsset)
    } else if opens_with(data, TRANSFER_ASSET) {
        Ok(OperationView::TransferAsset)
    } else if opens_with(data, BURN_ASSET) {
        Ok(OperationView::BurnAsset)
    } else {
        Err(OpsError::UnknownInstruction)
    }
}

/// What an operation comes to on the accounts it is given: the outbound
/// call, or the failure that stops it before any call is made.
pub open spec fn outcome(program_id: Address, accounts: Seq<AccountHandle>, op: OperationView) -> Result<
    InstructionView,
    OpsError,
> {
    match op {
        OperationView::CreateCollection { name, uri } => match CreateCollection::accepted(
            program_id,
            accounts,
        ) {
            Ok(ctx) => Ok(ctx.outbound(name, uri)),
            Err(e) => Err(e),
        },
        OperationView::CreateAsset { name, uri } => match CreateAsset::accepted(
            program_id,
            accounts,
        ) {
            Ok(ctx) => Ok(ctx.outbound(name, uri)),
            Err(e) => Err(e),
        },
        OperationView::FreezeAsset => match FreezeAsset::accepted(program_id, accounts) {
            Ok(ctx) => Ok(ctx.outbound()),
            Err(e) => Err(e),
        },
        OperationView::TransferAsset => match TransferAsset::accepted(program_id, accounts) {
            Ok(ctx) => Ok(ctx.outbound()),
            Err(e) => Err(e),
        },
        OperationView::BurnAsset => match BurnAsset::accepted(program_id, accounts) {
            Ok(ctx) => Ok(ctx.outbound()),
            Err(e) => Err(e),
        },
    }
}

/// What the program makes of an instruction: refused outright when it was
/// entered under another address than its own, else decoded, else carried
/// out on the accounts.
pub open spec fn processed(program_id: Address, accounts: Seq<AccountHandle>, data: Seq<u8>) -> Result<
    InstructionView,
    OpsError,
> {
    if program_id != ID {
        Err(OpsError::ProgramIdMismatch)
    } else {
        match decoded(data) {
            Ok(op) => outcome(program_id, accounts, op),
            Err(e) => Err(e),
        }
    }
}

/// Reads the name and the URI that follow the opening bytes.
fn read_name_and_uri(data: &[u8]) -> (r: Option<(String, String)>)
    requires
        data@.len() >= 8,
    ensures
        match r {
            Some((name, uri)) => name_and_uri(data@) == Some((name@, uri@)) && fits_length_prefix(
                name@,
            ) && fits_length_prefix(uri@),
            None => name_and_uri(data@) is None,
        },
{
    let (name, next) = match read_string(data, 8) {
        Some(field) => field,
        None => {
            return None;
        },
    };
    let (uri, _) = match read_string(data, next) {
        Some(field) => field,
        None => {
            return None;
        },
    };
    Some((name, uri))
}

/// Decodes instruction data.
pub fn decode(data: &[u8]) -> (r: Result<Operation, OpsError>)
    ensures
        match r {
            Ok(op) => decoded(data@) == Ok::<OperationView, OpsError>(op@) && op@.encodable(),
            Err(e) => decoded(data@) == Err::<OperationView, OpsError>(e),
        },
{
    if starts_with(data, &CREATE_COLLECTION) {
        match read_name_and_uri(data) {
            Some((name, uri)) => Ok(Operation::CreateCollection(CreateCollectionArgs { name, uri })),
            None => Err(OpsError::MalformedArguments),
        }
    } else if starts_with(data, &CREATE_ASSET) {
        match read_name_and_uri(data) {
            Some((name, uri)) => Ok(Operation::CreateAsset(CreateAssetArgs { name, uri })),
            None => Err(OpsError::MalformedArguments),
        }
    } else if starts_with(data, &FREEZE_ASSET) {
        Ok(Operation::FreezeAsset)
    } else if starts_with(data, &TRANSFER_ASSET) {
        Ok(Operation::TransferAsset)
    } else if starts_with(data, &BURN_ASSET) {
        Ok(Operation::BurnAsset)
    } else {
        Err(OpsError::UnknownInstruction)
    }
}

/// Routes an operation to its handler: loads and checks the accounts the
/// operation declares, and hands them to the handler for the outbound
/// call.
pub fn dispatch(program_id: &Address, accounts: &[AccountHandle], op: Operation) -> (r: Result<
    Instruction,
    OpsError,
>)
    requires
        op@.encodable(),
    ensures
        match r {
            Ok(call) => outcome(*program_id, accounts@, op@) == Ok::<InstructionView, OpsError>(
                call@,
            ),
            Err(e) => outcome(*program_id, accounts@, op@) == Err::<InstructionView, OpsError>(e),
        },
{
    match op {
        Operation::CreateCollection(args) => {
            let loaded = CreateCollection::try_accounts(program_id, accounts)?;
            Ok(crate::create_collection(Context { program_id: *program_id, accounts: loaded }, args))
        },
        Operation::CreateAsset(args) => {
            let loaded = CreateAsset::try_accounts(program_id, accounts)?;
            Ok(crate::create_asset(Context { program_id: *program_id, accounts: loaded }, args))
        },
        Operation::FreezeAsset => {
            let loaded = FreezeAsset::try_accounts(program_id, accounts)?;
            Ok(crate::freeze_asset(Context { program_id: *program_id, accounts: loaded }))
        },
        Operation::TransferAsset => {
            let loaded = TransferAsset::try_accounts(program_id, accounts)?;
            Ok(crate::transfer_asset(Context { program_id: *program_id, accounts: loaded }))
        },
        Operation::BurnAsset => {
            let loaded = BurnAsset::try_accounts(program_id, accounts)?;
            Ok(crate::burn_asset(Context { program_id: *program_id, accounts: loaded }))
        },
    }
}

/// Processes one instruction as far as the outbound call: the caller is
/// to make the call that comes back, and to hand its result to `settle`.
pub fn entry(program_id: &Address, accounts: &[AccountHandle], data: &[u8]) -> (r: Result<
    Instruction,
    OpsError,
>)
    ensures
        match r {
            Ok(call) => processed(*program_id, accounts@, data@) == Ok::<
                InstructionView,
                OpsError,
            >(call@),
            Err(e) => processed(*program_id, accounts@, data@) == Err::<InstructionView, OpsError>(
                e,
            ),
        },
{
    if !same_address(program_id, &ID) {
        return Err(OpsError::ProgramIdMismatch);
    }
    let op = decode(data)?;
    dispatch(program_id, accounts, op)
}

/// What the program makes of an instruction when it is deployed with the
/// reduced surface: refused outright when it was entered under another
/// address than its own; acknowledged when it is `initialize`, whatever
/// accounts and further bytes come with it; unknown otherwise. No outcome
/// holds a call, so none is ever made.
pub open spec fn processed_reduced(
    program_id: Address,
    accounts: Seq<AccountHandle>,
    data: Seq<u8>,
) -> Result<(), OpsError> {
    if program_id != ID {
        Err(OpsError::ProgramIdMismatch)
    } else if opens_with(data, INITIALIZE) {
        Ok(())
    } else {
        Err(OpsError::UnknownInstruction)
    }
}

/// Processes one instruction of the reduced surface, which knows
/// `initialize` alone. There is no call for the caller to make.
pub fn entry_reduced(program_id: &Address, accounts: &[AccountHandle], data: &[u8]) -> (r: Result<
    (),
    OpsError,
>)
    ensures
        r == processed_reduced(*program_id, accounts@, data@),
{
    if !same_address(program_id, &ID) {
        return Err(OpsError::ProgramIdMismatch);
    }
    if !starts_with(data, &INITIALIZE) {
        return Err(OpsError::UnknownInstruction);
    }
    let loaded = Initialize::try_accounts(program_id, accounts)?;
    crate::initialize(Context { program_id: *program_id, accounts: loaded })
}

/// Ends an instruction with what the outbound call came to: success as
/// success, and a failure of the Core Asset Program with the status it
/// reported, unchanged.
pub fn settle(delegate: Result<(), u64>) -> (r: Result<(), OpsError>)
    ensures
        r == match delegate {
            Ok(()) => Ok::<(), OpsError>(()),
            Err(status) => Err(OpsError::Delegate(status)),
        },
{
    match delegate {
        Ok(()) => Ok(()),
        Err(status) => Err(OpsError::Delegate(status)),
    }
}

} // verus!
