//! What holds of the program as a whole, whatever the instruction.

use vstd::prelude::*;
use crate::account::AccountHandle;
use crate::address::{Address, CORE_PROGRAM_ID, ID};
use crate::cpi::{absent, readonly, writable, InstructionView};
use crate::dispatch::{decoded, outcome, processed, processed_reduced, OperationView};
use crate::wire::{
    encoded_string, fits_length_prefix, lemma_string_reads_back, name_and_uri, string_field,
    BURN_ASSET, CREATE_ASSET, CREATE_COLLECTION, FREEZE_ASSET, INITIALIZE, TRANSFER_ASSET,
};
use crate::error::OpsError;
use crate::instructions::{CreateAsset, CreateCollection, TransferAsset};

verus! {

/// Where an operation expects the Core Asset Program's account: last.
pub open spec fn core_program_position(op: OperationView) -> int {
    op.declared() - 1
}

/// The same accounts, but for the one given as the Core Asset Program,
/// which is moved to the pinned address.
pub open spec fn with_pinned_program(accounts: Seq<AccountHandle>, op: OperationView) -> Seq<
    AccountHandle,
> {
    let i = core_program_position(op);
    accounts.update(
        i,
        AccountHandle {
            key: CORE_PROGRAM_ID,
            is_signer: accounts[i].is_signer,
            is_writable: accounts[i].is_writable,
            executable: accounts[i].executable,
        },
    )
}

/// Whether the operation declares the account at position `i` as one that
/// must sign.
pub open spec fn must_sign(op: OperationView, i: int) -> bool {
    match op {
        OperationView::CreateCollection { .. } => i == 0 || i == 1,
        OperationView::CreateAsset { .. } => i == 0 || i == 1,
        OperationView::FreezeAsset => i == 0 || i == 1,
        OperationView::TransferAsset => i == 0,
        OperationView::BurnAsset => i == 0,
    }
}

/// Whether the operation declares the account at position `i` as one that
/// signs if it is supplied.
pub open spec fn signs_if_supplied(op: OperationView, i: int) -> bool {
    match op {
        OperationView::CreateCollection { .. } => i == 2,
        OperationView::CreateAsset { .. } => i == 3,
        OperationView::FreezeAsset => i == 2,
        OperationView::TransferAsset => i == 1,
        OperationView::BurnAsset => i == 1,
    }
}

/// Every outbound call goes to the pinned Core Asset Program, and is made
/// only when the account given as that program has the pinned address.
pub proof fn law_calls_only_the_pinned_program(
    program_id: Address,
    accounts: Seq<AccountHandle>,
    op: OperationView,
)
    ensures
        outcome(program_id, accounts, op) matches Ok(call) ==> {
            &&& call.program_id == CORE_PROGRAM_ID
            &&& accounts.len() >= op.declared()
            &&& accounts[core_program_position(op)].key == CORE_PROGRAM_ID
        },
{
}

/// An operation given an account for the Core Asset Program whose address
/// is not the pinned one makes no call. If nothing else is amiss, that
/// is, if the operation would go through with the account at the pinned
/// address, it fails with `AddressMismatch`.
pub proof fn law_unpinned_program_is_refused(
    program_id: Address,
    accounts: Seq<AccountHandle>,
    op: OperationView,
)
    requires
        accounts.len() >= op.declared(),
        accounts[core_program_position(op)].key != CORE_PROGRAM_ID,
    ensures
        outcome(program_id, accounts, op) is Err,
        outcome(program_id, with_pinned_program(accounts, op), op) is Ok ==> outcome(
            program_id,
            accounts,
            op,
        ) == Err::<InstructionView, OpsError>(OpsError::AddressMismatch),
{
}

/// An operation given an account that it declares as a signer, and that
/// did not sign, fails with `SignerMissing` and makes no call. This holds
/// of the accounts that must sign, and of those that sign if supplied
/// when they are supplied.
pub proof fn law_unsigned_signer_is_refused(
    program_id: Address,
    accounts: Seq<AccountHandle>,
    op: OperationView,
    i: int,
)
    requires
        0 <= i < accounts.len(),
        !accounts[i].is_signer,
        must_sign(op, i) || (signs_if_supplied(op, i) && accounts[i].key != program_id),
    ensures
        outcome(program_id, accounts, op) == Err::<InstructionView, OpsError>(
            OpsError::SignerMissing,
        ),
{
}

/// The two laws above, of the program as it is entered: an instruction
/// that names an operation and comes with an unpinned program account or
/// an unsigned signer makes no call.
pub proof fn law_refused_before_any_call(
    program_id: Address,
    accounts: Seq<AccountHandle>,
    data: Seq<u8>,
    i: int,
)
    requires
        decoded(data) is Ok,
        ({
            let op = decoded(data)->Ok_0;
            ||| accounts.len() >= op.declared() && accounts[core_program_position(op)].key
                != CORE_PROGRAM_ID
            ||| 0 <= i < accounts.len() && !accounts[i].is_signer && (must_sign(op, i) || (
            signs_if_supplied(op, i) && accounts[i].key != program_id))
        }),
    ensures
        processed(program_id, accounts, data) is Err,
{
}

/// `create_asset` with a collection account supplied names that account
/// in the call, as one the Core Asset Program may write to; with none
/// supplied the call says that there is no collection.
pub proof fn law_create_asset_forwards_the_collection(
    program_id: Address,
    accounts: Seq<AccountHandle>,
    name: Seq<char>,
    uri: Seq<char>,
)
    requires
        CreateAsset::accepted(program_id, accounts) is Ok,
    ensures
        outcome(program_id, accounts, OperationView::CreateAsset { name, uri }) matches Ok(call)
            && call.accounts[1] == (if accounts[2].key != program_id {
            writable(accounts[2].key, false)
        } else {
            absent()
        }),
{
}

/// `transfer_asset` names the new owner in the call, without asking it to
/// sign or to be writable, and is not swayed by whether it did sign.
pub proof fn law_transfer_names_the_new_owner(
    program_id: Address,
    accounts: Seq<AccountHandle>,
    other: AccountHandle,
)
    requires
        accounts.len() >= TransferAsset::declared(),
        other.key == accounts[3].key,
    ensures
        outcome(program_id, accounts.update(3, other), OperationView::TransferAsset) == outcome(
            program_id,
            accounts,
            OperationView::TransferAsset,
        ),
        outcome(program_id, accounts, OperationView::TransferAsset) matches Ok(call)
            ==> call.accounts[4] == readonly(accounts[3].key, false),
{
}

/// Instruction data as a client writes it: the opening bytes of the
/// operation, then its arguments.
pub open spec fn instruction_data(op: OperationView) -> Seq<u8> {
    match op {
        OperationView::CreateCollection { name, uri } => CREATE_COLLECTION@ + encoded_string(name)
            + encoded_string(uri),
        OperationView::CreateAsset { name, uri } => CREATE_ASSET@ + encoded_string(name)
            + encoded_string(uri),
        OperationView::FreezeAsset => FREEZE_ASSET@,
        OperationView::TransferAsset => TRANSFER_ASSET@,
        OperationView::BurnAsset => BURN_ASSET@,
    }
}

/// Instruction data written for an operation decodes to that operation,
/// whatever bytes trail it.
pub proof fn law_decoding_undoes_encoding(op: OperationView, trailing: Seq<u8>)
    requires
        op.encodable(),
    ensures
        decoded(instruction_data(op) + trailing) == Ok::<OperationView, OpsError>(op),
{
    let data = instruction_data(op) + trailing;
    assert(data.len() >= 8);
    let head = data.subrange(0, 8);
    assert(head[0] == data[0]);
    match op {
        OperationView::CreateCollection { name, uri } => {
            assert(head =~= CREATE_COLLECTION@);
            lemma_name_and_uri_read_back(CREATE_COLLECTION@, name, uri, trailing);
        },
        OperationView::CreateAsset { name, uri } => {
            assert(head =~= CREATE_ASSET@);
            lemma_name_and_uri_read_back(CREATE_ASSET@, name, uri, trailing);
        },
        OperationView::FreezeAsset => {
            assert(head =~= FREEZE_ASSET@);
        },
        OperationView::TransferAsset => {
            assert(head =~= TRANSFER_ASSET@);
        },
        OperationView::BurnAsset => {
            assert(head =~= BURN_ASSET@);
        },
    }
}

/// A name and a URI written after eight opening bytes read back as
/// themselves.
proof fn lemma_name_and_uri_read_back(
    opening: Seq<u8>,
    name: Seq<char>,
    uri: Seq<char>,
    trailing: Seq<u8>,
)
    requires
        opening.len() == 8,
        fits_length_prefix(name),
        fits_length_prefix(uri),
    ensures
        name_and_uri(opening + encoded_string(name) + encoded_string(uri) + trailing) == Some(
            (name, uri),
        ),
{
    let data = opening + encoded_string(name) + encoded_string(uri) + trailing;
    lemma_string_reads_back(opening, name, encoded_string(uri) + trailing);
    assert(data =~= opening + encoded_string(name) + (encoded_string(uri) + trailing));
    lemma_string_reads_back(opening + encoded_string(name), uri, trailing);
}

/// `create_collection` names the new collection's account in the call as
/// the address to create, has the payer fund it, and sends the name and
/// the URI on as it was given them.
pub proof fn law_create_collection_carries_its_arguments(
    program_id: Address,
    accounts: Seq<AccountHandle>,
    name: Seq<char>,
    uri: Seq<char>,
)
    requires
        CreateCollection::accepted(program_id, accounts) is Ok,
        fits_length_prefix(name),
        fits_length_prefix(uri),
    ensures
        outcome(program_id, accounts, OperationView::CreateCollection { name, uri }) matches Ok(
            call,
        ) && {
            &&& call.accounts[0] == writable(accounts[1].key, true)
            &&& call.accounts[2] == writable(accounts[0].key, true)
            &&& string_field(call.data, 1) matches Some((n, next)) && n == name && (string_field(
                call.data,
                next,
            ) matches Some((u, _)) && u == uri)
        },
{
    let call = outcome(program_id, accounts, OperationView::CreateCollection { name, uri })->Ok_0;
    lemma_string_reads_back(seq![21u8], name, encoded_string(uri) + seq![0u8, 0u8]);
    assert(call.data =~= seq![21u8] + encoded_string(name) + (encoded_string(uri) + seq![
        0u8,
        0u8,
    ]));
    lemma_string_reads_back(seq![21u8] + encoded_string(name), uri, seq![0u8, 0u8]);
}

/// `initialize` always succeeds: entered under its own address, the
/// reduced surface acknowledges it whatever accounts and whatever further
/// bytes come with it, and the outcome holds no call, so that no account
/// can change. The full surface does not know the instruction, and runs
/// none of its handlers on it.
pub proof fn law_initialize_always_succeeds(accounts: Seq<AccountHandle>, trailing: Seq<u8>)
    ensures
        processed_reduced(ID, accounts, INITIALIZE@ + trailing) == Ok::<(), OpsError>(()),
        decoded(INITIALIZE@ + trailing) == Err::<OperationView, OpsError>(
            OpsError::UnknownInstruction,
        ),
        processed(ID, accounts, INITIALIZE@ + trailing) == Err::<InstructionView, OpsError>(
            OpsError::UnknownInstruction,
        ),
{
    let data = INITIALIZE@ + trailing;
    let head = data.subrange(0, 8);
    assert(head =~= INITIALIZE@);
    assert(head[0] == 175);
}

} // verus!
