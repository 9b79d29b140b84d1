//! What a handler is given besides its arguments.

use vstd::prelude::*;
use crate::address::Address;

verus! {

/// The address the program runs under, and the accounts of the
/// instruction, loaded and checked.
#[derive(Debug)]
pub struct Context<T> {
    pub program_id: Address,
    pub accounts: T,
}

} // verus!
