//! Accounts as a transaction presents them, and the checks that turn a
//! list of them into the accounts an instruction declares.
//!
//! An instruction declares its accounts in a fixed order. The account at
//! each position is loaded in that order, and the first failure ends the
//! instruction. An optional account always takes up its position: the
//! caller marks it as not supplied by putting this program's own address
//! there.

use vstd::prelude::*;
use crate::address::{
    core_program_id, same_address, system_program_id, Address, CORE_PROGRAM_ID, SYSTEM_PROGRAM_ID,
};
use crate::error::OpsError;

verus! {

/// What this program reads of an account named by a transaction: its
/// address and the flags the ledger runtime attached to it.
#[derive(Clone, Copy, Debug, PartialEq, Eq)]
pub struct AccountHandle {
    pub key: Address,
    pub is_signer: bool,
    pub is_writable: bool,
    pub executable: bool,
}

/// What an instruction asks of the account at one position before it
/// accepts it.
#[derive(Clone, Copy, Debug, PartialEq, Eq)]
pub enum Slot {
    /// Any account.
    Unchecked,
    /// An account that signed the transaction.
    Signer,
    /// The native account-creation program.
    SystemProgram,
}

/// The earlier of two failures.
pub open spec fn first(a: Option<OpsError>, b: Option<OpsError>) -> Option<OpsError> {
    if a is Some {
        a
    } else {
        b
    }
}

/// Why an account does not fill a slot, if it does not.
pub open spec fn slot_failure(kind: Slot, account: AccountHandle) -> Option<OpsError> {
    match kind {
        Slot::Unchecked => None,
        Slot::Signer => if account.is_signer {
            None
        } else {
            Some(OpsError::SignerMissing)
        },
        Slot::SystemProgram => if account.key != SYSTEM_PROGRAM_ID {
            Some(OpsError::InvalidProgramId)
        } else if !account.executable {
            Some(OpsError::ProgramNotExecutable)
        } else {
            None
        },
    }
}

/// Why the required account at position `i` cannot be loaded, if it
/// cannot.
pub open spec fn required_failure(accounts: Seq<AccountHandle>, i: int, kind: Slot) -> Option<
    OpsError,
> {
    if i >= accounts.len() {
        Some(OpsError::NotEnoughAccounts)
    } else {
        slot_failure(kind, accounts[i])
    }
}

/// Whether the optional account at position `i` was supplied.
pub open spec fn supplied(program_id: Address, accounts: Seq<AccountHandle>, i: int) -> bool {
    accounts[i].key != program_id
}

/// The optional account at position `i`.
pub open spec fn optional_at(program_id: Address, accounts: Seq<AccountHandle>, i: int) -> Option<
    AccountHandle,
> {
    if supplied(program_id, accounts, i) {
        Some(accounts[i])
    } else {
        None
    }
}

/// Why the optional account at position `i` cannot be loaded, if it
/// cannot. An account that was not supplied is never at fault.
pub open spec fn optional_failure(
    program_id: Address,
    accounts: Seq<AccountHandle>,
    i: int,
    kind: Slot,
) -> Option<OpsError> {
    if i >= accounts.len() {
        Some(OpsError::NotEnoughAccounts)
    } else if supplied(program_id, accounts, i) {
        slot_failure(kind, accounts[i])
    } else {
        None
    }
}

/// Why an account declared mutable is refused, if it is.
pub open spec fn mutable_failure(account: AccountHandle) -> Option<OpsError> {
    if account.is_writable {
        None
    } else {
        Some(OpsError::NotWritable)
    }
}

/// Why an optional account declared mutable is refused, if it is.
pub open spec fn optional_mutable_failure(account: Option<AccountHandle>) -> Option<OpsError> {
    match account {
        Some(a) => mutable_failure(a),
        None => None,
    }
}

/// Why the account given as the Core Asset Program is refused, if it is.
pub open spec fn pinned_failure(account: AccountHandle) -> Option<OpsError> {
    if account.key == CORE_PROGRAM_ID {
        None
    } else {
        Some(OpsError::AddressMismatch)
    }
}

/// The address an optional account stands for in an outbound call:
/// its own when the account was supplied, none when it was not.
pub open spec fn forwarded(account: Option<AccountHandle>) -> Option<Address> {
    match account {
        Some(a) => Some(a.key),
        None => None,
    }
}

/// Holds an account against what a slot asks of it.
pub fn check_slot(kind: Slot, account: &AccountHandle) -> (r: Result<(), OpsError>)
    ensures
        r == match slot_failure(kind, *account) {
            Some(e) => Err::<(), OpsError>(e),
            None => Ok(()),
        },
{
    match kind {
        Slot::Unchecked => Ok(()),
        Slot::Signer => {
            if account.is_signer {
                Ok(())
            } else {
                Err(OpsError::SignerMissing)
            }
        },
        Slot::SystemProgram => {
            if !same_address(&account.key, &system_program_id()) {
                Err(OpsError::InvalidProgramId)
            } else if !account.executable {
                Err(OpsError::ProgramNotExecutable)
            } else {
                Ok(())
            }
        },
    }
}

/// Loads the required account at position `i`.
pub fn load(accounts: &[AccountHandle], i: usize, kind: Slot) -> (r: Result<
    AccountHandle,
    OpsError,
>)
    ensures
        r == match required_failure(accounts@, i as int, kind) {
            Some(e) => Err::<AccountHandle, OpsError>(e),
            None => Ok(accounts@[i as int]),
        },
{
    if i >= accounts.len() {
        return Err(OpsError::NotEnoughAccounts);
    }
    let account = accounts[i];
    match check_slot(kind, &account) {
        Ok(()) => Ok(account),
        Err(e) => Err(e),
    }
}

/// Loads the optional account at position `i`.
pub fn load_optional(program_id: &Address, accounts: &[AccountHandle], i: usize, kind: Slot) -> (r:
    Result<Option<AccountHandle>, OpsError>)
    ensures
        r == match optional_failure(*program_id, accounts@, i as int, kind) {
            Some(e) => Err::<Option<AccountHandle>, OpsError>(e),
            None => Ok(optional_at(*program_id, accounts@, i as int)),
        },
{
    if i >= accounts.len() {
        return Err(OpsError::NotEnoughAccounts);
    }
    let account = accounts[i];
    if same_address(&account.key, program_id) {
        return Ok(None);
    }
    match check_slot(kind, &account) {
        Ok(()) => Ok(Some(account)),
        Err(e) => Err(e),
    }
}

/// Refuses an account declared mutable that is not writable.
pub fn check_mutable(account: &AccountHandle) -> (r: Result<(), OpsError>)
    ensures
        r == match mutable_failure(*account) {
            Some(e) => Err::<(), OpsError>(e),
            None => Ok(()),
        },
{
    if account.is_writable {
        Ok(())
    } else {
        Err(OpsError::NotWritable)
    }
}

/// Refuses a supplied optional account declared mutable that is not
/// writable.
pub fn check_optional_mutable(account: &Option<AccountHandle>) -> (r: Result<(), OpsError>)
    ensures
        r == match optional_mutable_failure(*account) {
            Some(e) => Err::<(), OpsError>(e),
            None => Ok(()),
        },
{
    match account {
        Some(a) => check_mutable(a),
        None => Ok(()),
    }
}

/// Refuses an account given as the Core Asset Program whose address is
/// not the pinned one.
pub fn check_pinned(account: &AccountHandle) -> (r: Result<(), OpsError>)
    ensures
        r == match pinned_failure(*account) {
            Some(e) => Err::<(), OpsError>(e),
            None => Ok(()),
        },
{
    if same_address(&account.key, &core_program_id()) {
        Ok(())
    } else {
        Err(OpsError::AddressMismatch)
    }
}

/// Projects an optional account to the optional address handed to the
/// next call.
pub fn forward(account: &Option<AccountHandle>) -> (key: Option<Address>)
    ensures
        key == forwarded(*account),
{
    match account {
        Some(a) => Some(a.key),
        None => None,
    }
}

} // verus!
