//! The ways an instruction can fail.

use vstd::prelude::*;

verus! {

/// Why an instruction was refused or failed.
#[derive(Clone, Copy, Debug, PartialEq, Eq)]
pub enum OpsError {
    /// The program was entered under an address other than its own.
    ProgramIdMismatch,
    /// The instruction data names no instruction of this program.
    UnknownInstruction,
    /// The instruction's arguments could not be decoded.
    MalformedArguments,
    /// Fewer accounts were supplied than the instruction declares.
    NotEnoughAccounts,
    /// A required signer did not sign the transaction.
    SignerMissing,
    /// An account declared mutable is not writable in the transaction.
    NotWritable,
    /// The account given as the native account-creation program has
    /// another address.
    InvalidProgramId,
    /// The account given as the native account-creation program is not
    /// executable.
    ProgramNotExecutable,
    /// The account given as the Core Asset Program does not have the
    /// pinned address.
    AddressMismatch,
    /// The Core Asset Program itself reported the enclosed status.
    Delegate(u64),
}

} // verus!
