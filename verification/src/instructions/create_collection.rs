//! Creating a collection.

use vstd::prelude::*;
use crate::account::{
    check_mutable, check_pinned, first, forward, forwarded, load, load_optional, mutable_failure,
    optional_at, optional_failure, pinned_failure, required_failure, AccountHandle, Slot,
};
use crate::address::{Address, CORE_PROGRAM_ID, SYSTEM_PROGRAM_ID};
use crate::cpi::{build_create_collection, create_collection_call, Instruction, InstructionView};
use crate::error::OpsError;
use crate::wire::fits_length_prefix;
use crate::types::CreateCollectionArgs;

verus! {

/// The accounts of `create_collection`, in the order the instruction
/// declares them.
#[derive(Clone, Copy, Debug, PartialEq, Eq)]
pub struct CreateCollection {
    /// Pays for the new account. Signs; mutable.
    pub payer: AccountHandle,
    /// Becomes the new collection's address. Signs; mutable.
    pub collection: AccountHandle,
    /// The update authority of the new collection, if named. Signs.
    pub update_authority: Option<AccountHandle>,
    /// The native account-creation program.
    pub system_program: AccountHandle,
    /// The Core Asset Program.
    pub mpl_core_program: AccountHandle,
}

impl CreateCollection {
    /// How many accounts the instruction declares.
    pub open spec fn declared() -> int {
        5
    }

    /// The accounts as their positions give them.
    pub open spec fn resolved(program_id: Address, accounts: Seq<AccountHandle>) -> CreateCollection {
        CreateCollection {
            payer: accounts[0],
            collection: accounts[1],
            update_authority: optional_at(program_id, accounts, 2),
            system_program: accounts[3],
            mpl_core_program: accounts[4],
        }
    }

    /// The first failure in loading the accounts one by one, if any.
    pub open spec fn load_failure(program_id: Address, accounts: Seq<AccountHandle>) -> Option<
        OpsError,
    > {
        first(
            required_failure(accounts, 0, Slot::Signer),
            first(
                required_failure(accounts, 1, Slot::Signer),
                first(
                    optional_failure(program_id, accounts, 2, Slot::Signer),
                    first(
                        required_failure(accounts, 3, Slot::SystemProgram),
                        required_failure(accounts, 4, Slot::Unchecked),
                    ),
                ),
            ),
        )
    }

    /// The first constraint that the loaded accounts break, if any.
    pub open spec fn constraint_failure(self) -> Option<OpsError> {
        first(
            mutable_failure(self.payer),
            first(mutable_failure(self.collection), pinned_failure(self.mpl_core_program)),
        )
    }

    /// What the instruction makes of the accounts it is given: the loaded
    /// accounts, or the first failure, loading before constraints.
    pub open spec fn accepted(program_id: Address, accounts: Seq<AccountHandle>) -> Result<
        CreateCollection,
        OpsError,
    > {
        match first(
            Self::load_failure(program_id, accounts),
            Self::resolved(program_id, accounts).constraint_failure(),
        ) {
            Some(e) => Err(e),
            None => Ok(Self::resolved(program_id, accounts)),
        }
    }

    /// Everything the instruction demands of its accounts before it acts.
    pub open spec fn valid(self) -> bool {
        &&& self.payer.is_signer
        &&& self.payer.is_writable
        &&& self.collection.is_signer
        &&& self.collection.is_writable
        &&& self.update_authority matches Some(a) ==> a.is_signer
        &&& self.system_program.key == SYSTEM_PROGRAM_ID
        &&& self.system_program.executable
        &&& self.mpl_core_program.key == CORE_PROGRAM_ID
    }

    /// The accounts are accepted exactly when there are as many as the
    /// instruction declares and they meet everything it demands of them.
    pub proof fn accepted_exactly_when_valid(program_id: Address, accounts: Seq<AccountHandle>)
        ensures
            Self::accepted(program_id, accounts) is Ok <==> accounts.len() >= Self::declared()
                && Self::resolved(program_id, accounts).valid(),
    {
    }

    /// The call that the instruction makes on these accounts, for a name
    /// and a URI.
    pub open spec fn outbound(self, name: Seq<char>, uri: Seq<char>) -> InstructionView {
        create_collection_call(
            self.collection.key,
            forwarded(self.update_authority),
            self.payer.key,
            self.system_program.key,
            name,
            uri,
        )
    }

    /// Loads and checks the accounts of the instruction.
    pub fn try_accounts(program_id: &Address, accounts: &[AccountHandle]) -> (r: Result<
        CreateCollection,
        OpsError,
    >)
        ensures
            r == Self::accepted(*program_id, accounts@),
            r matches Ok(loaded) ==> loaded.valid(),
    {
        let payer = load(accounts, 0, Slot::Signer)?;
        let collection = load(accounts, 1, Slot::Signer)?;
        let update_authority = load_optional(program_id, accounts, 2, Slot::Signer)?;
        let system_program = load(accounts, 3, Slot::SystemProgram)?;
        let mpl_core_program = load(accounts, 4, Slot::Unchecked)?;
        check_mutable(&payer)?;
        check_mutable(&collection)?;
        check_pinned(&mpl_core_program)?;
        Ok(CreateCollection { payer, collection, update_authority, system_program, mpl_core_program })
    }

    /// The call that creates the collection at the address of the
    /// `collection` account, with the name and URI unchanged. The update
    /// authority is passed on when it was supplied and as absent when it
    /// was not.
    pub fn create_collection(&self, args: CreateCollectionArgs) -> (call: Instruction)
        requires
            self.valid(),
            fits_length_prefix(args.name@),
            fits_length_prefix(args.uri@),
        ensures
            call@ == self.outbound(args.name@, args.uri@),
    {
        let update_authority = forward(&self.update_authority);
        build_create_collection(
            self.collection.key,
            update_authority,
            self.payer.key,
            self.system_program.key,
            args.name,
            args.uri,
        )
    }
}

} // verus!
