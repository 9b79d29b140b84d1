//! The reduced surface of the program: one instruction that does nothing.

use vstd::prelude::*;
use crate::account::AccountHandle;
use crate::address::Address;
use crate::error::OpsError;

verus! {

/// The accounts of `initialize`: none.
#[derive(Clone, Copy, Debug, PartialEq, Eq)]
pub struct Initialize {}

impl Initialize {
    /// Loads the accounts of the instruction. It declares none, so
    /// whatever the transaction names is left aside.
    pub fn try_accounts(_program_id: &Address, _accounts: &[AccountHandle]) -> (r: Result<
        Initialize,
        OpsError,
    >)
        ensures
            r == Ok::<Initialize, OpsError>(Initialize {  }),
    {
        Ok(Initialize {  })
    }

    /// Acknowledges the instruction. It always succeeds, and since it
    /// makes no call to any program, no account changes.
    pub fn initialize(&self) -> (r: Result<(), OpsError>)
        ensures
            r == Ok::<(), OpsError>(()),
    {
        Ok(())
    }
}

} // verus!
