//! Ledger addresses and the fixed identities this program relies on.

use vstd::prelude::*;

verus! {

/// A 32-byte ledger address.
pub type Address = [u8; 32];

/// The address this program is deployed under.
pub const ID: Address = [
    10, 121, 167, 79, 245, 103, 189, 33, 223, 96, 249, 88, 188, 244, 71, 92,
    133, 66, 234, 233, 140, 0, 83, 47, 129, 183, 85, 56, 166, 185, 74, 132,
];

/// The pinned address of the Core Asset Program, the only program this one
/// ever invokes.
pub const CORE_PROGRAM_ID: Address = [
    175, 84, 171, 16, 189, 151, 165, 66, 160, 158, 247, 179, 152, 137, 221, 12,
    211, 148, 164, 204, 233, 223, 166, 205, 201, 126, 190, 45, 35, 91, 167, 72,
];

/// The address of the ledger's native account-creation program.
pub const SYSTEM_PROGRAM_ID: Address = [
    0, 0, 0, 0, 0, 0, 0, 0, 0, 0, 0, 0, 0, 0, 0, 0,
    0, 0, 0, 0, 0, 0, 0, 0, 0, 0, 0, 0, 0, 0, 0, 0,
];

/// Whether two addresses are the same.
pub fn same_address(a: &Address, b: &Address) -> (r: bool)
    ensures
        r == (*a == *b),
{
    let mut i: usize = 0;
    while i < 32
        invariant
            i <= 32,
            forall|j: int| 0 <= j < i ==> a[j] == b[j],
        decreases 32 - i,
    {
        if a[i] != b[i] {
            return false;
        }
        i += 1;
    }
    assert(*a =~= *b);
    true
}

/// Reads `mpl_core::ID`, the address that the Core Asset Program's crate
/// publishes for the program. Trusted: it is `CORE_PROGRAM_ID`.
#[verifier::external_body]
pub(crate) fn core_program_id() -> (id: Address)
    ensures
        id == CORE_PROGRAM_ID,
{
    mpl_core::ID.to_bytes()
}

/// Reads `anchor_lang::system_program::ID`, the address of the native
/// account-creation program. Trusted: it is `SYSTEM_PROGRAM_ID`.
#[verifier::external_body]
pub(crate) fn system_program_id() -> (id: Address)
    ensures
        id == SYSTEM_PROGRAM_ID,
{
    anchor_lang::system_program::ID.to_bytes()
}

} // verus!
