//! Creating an asset, optionally under a collection.

use vstd::prelude::*;
use crate::account::{
    check_mutable, check_optional_mutable, check_pinned, first, forward, forwarded, load,
    load_optional, mutable_failure, optional_at, optional_failure, optional_mutable_failure,
    pinned_failure, required_failure, AccountHandle, Slot,
};
use crate::address::{Address, CORE_PROGRAM_ID, SYSTEM_PROGRAM_ID};
use crate::cpi::{build_create_asset, create_asset_call, Instruction, InstructionView};
use crate::error::OpsError;
use crate::wire::fits_length_prefix;
use crate::types::CreateAssetArgs;

verus! {

/// The accounts of `create_asset`, in the order the instruction declares
/// them.
#[derive(Clone, Copy, Debug, PartialEq, Eq)]
pub struct CreateAsset {
    /// Pays for the new account. Signs; mutable.
    pub payer: AccountHandle,
    /// Becomes the new asset's address. Signs; mutable.
    pub asset: AccountHandle,
    /// The collection to create the asset under, if any. Mutable.
    pub collection: Option<AccountHandle>,
    /// The authority signing for the creation, if any. Signs.
    pub authority: Option<AccountHandle>,
    /// The owner of the new asset, if named.
    pub owner: Option<AccountHandle>,
    /// The update authority of the new asset, if named.
    pub update_authority: Option<AccountHandle>,
    /// The native account-creation program.
    pub system_program: AccountHandle,
    /// The Core Asset Program.
    pub mpl_core_program: AccountHandle,
}

impl CreateAsset {
    /// How many accounts the instruction declares.
    pub open spec fn declared() -> int {
        8
    }

    /// The accounts as their positions give them.
    pub open spec fn resolved(program_id: Address, accounts: Seq<AccountHandle>) -> CreateAsset {
        CreateAsset {
            payer: accounts[0],
            asset: accounts[1],
            collection: optional_at(program_id, accounts, 2),
            authority: optional_at(program_id, accounts, 3),
            owner: optional_at(program_id, accounts, 4),
            update_authority: optional_at(program_id, accounts, 5),
            system_program: accounts[6],
            mpl_core_program: accounts[7],
        }
    }

    /// The first failure in loading the accounts one by one, if any.
    pub open spec fn load_failure(program_id: Address, accounts: Seq<AccountHandle>) -> Option<
        OpsError,
    > {
        first(
            required_failure(accounts, 0, Slot::Signer),
            first(
                required_failure(accounts, 1, Slot::Signer),
                first(
                    optional_failure(program_id, accounts, 2, Slot::Unchecked),
                    first(
                        optional_failure(program_id, accounts, 3, Slot::Signer),
                        first(
                            optional_failure(program_id, accounts, 4, Slot::Unchecked),
                            first(
                                optional_failure(program_id, accounts, 5, Slot::Unchecked),
                                first(
                                    required_failure(accounts, 6, Slot::SystemProgram),
                                    required_failure(accounts, 7, Slot::Unchecked),
                                ),
                            ),
                        ),
                    ),
                ),
            ),
        )
    }

    /// The first constraint that the loaded accounts break, if any.
    pub open spec fn constraint_failure(self) -> Option<OpsError> {
        first(
            mutable_failure(self.payer),
            first(
                mutable_failure(self.asset),
                first(
                    optional_mutable_failure(self.collection),
                    pinned_failure(self.mpl_core_program),
                ),
            ),
        )
    }

    /// What the instruction makes of the accounts it is given: the loaded
    /// accounts, or the first failure, loading before constraints.
    pub open spec fn accepted(program_id: Address, accounts: Seq<AccountHandle>) -> Result<
        CreateAsset,
        OpsError,
    > {
        match first(
            Self::load_failure(program_id, accounts),
            Self::resolved(program_id, accounts).constraint_failure(),
        ) {
            Some(e) => Err(e),
            None => Ok(Self::resolved(program_id, accounts)),
        }
    }

    /// Everything the instruction demands of its accounts before it acts.
    pub open spec fn valid(self) -> bool {
        &&& self.payer.is_signer
        &&& self.payer.is_writable
        &&& self.asset.is_signer
        &&& self.asset.is_writable
        &&& self.collection matches Some(c) ==> c.is_writable
        &&& self.authority matches Some(a) ==> a.is_signer
        &&& self.system_program.key == SYSTEM_PROGRAM_ID
        &&& self.system_program.executable
        &&& self.mpl_core_program.key == CORE_PROGRAM_ID
    }

    /// The accounts are accepted exactly when there are as many as the
    /// instruction declares and they meet everything it demands of them.
    pub proof fn accepted_exactly_when_valid(program_id: Address, accounts: Seq<AccountHandle>)
        ensures
            Self::accepted(program_id, accounts) is Ok <==> accounts.len() >= Self::declared()
                && Self::resolved(program_id, accounts).valid(),
    {
    }

    /// The call that the instruction makes on these accounts, for a name
    /// and a URI.
    pub open spec fn outbound(self, name: Seq<char>, uri: Seq<char>) -> InstructionView {
        create_asset_call(
            self.asset.key,
            forwarded(self.collection),
            forwarded(self.authority),
            self.payer.key,
            forwarded(self.owner),
            forwarded(self.update_authority),
            self.system_program.key,
            name,
            uri,
        )
    }

    /// Loads and checks the accounts of the instruction.
    pub fn try_accounts(program_id: &Address, accounts: &[AccountHandle]) -> (r: Result<
        CreateAsset,
        OpsError,
    >)
        ensures
            r == Self::accepted(*program_id, accounts@),
            r matches Ok(loaded) ==> loaded.valid(),
    {
        let payer = load(accounts, 0, Slot::Signer)?;
        let asset = load(accounts, 1, Slot::Signer)?;
        let collection = load_optional(program_id, accounts, 2, Slot::Unchecked)?;
        let authority = load_optional(program_id, accounts, 3, Slot::Signer)?;
        let owner = load_optional(program_id, accounts, 4, Slot::Unchecked)?;
        let update_authority = load_optional(program_id, accounts, 5, Slot::Unchecked)?;
        let system_program = load(accounts, 6, Slot::SystemProgram)?;
        let mpl_core_program = load(accounts, 7, Slot::Unchecked)?;
        check_mutable(&payer)?;
        check_mutable(&asset)?;
        check_optional_mutable(&collection)?;
        check_pinned(&mpl_core_program)?;
        Ok(
            CreateAsset {
                payer,
                asset,
                collection,
                authority,
                owner,
                update_authority,
                system_program,
                mpl_core_program,
            },
        )
    }

    /// The call that creates the asset: every account that was supplied is
    /// passed on, every one that was not is passed as absent, and the name
    /// and URI go along unchanged.
    pub fn create_asset(&self, args: CreateAssetArgs) -> (call: Instruction)
        requires
            self.valid(),
            fits_length_prefix(args.name@),
            fits_length_prefix(args.uri@),
        ensures
            call@ == self.outbound(args.name@, args.uri@),
    {
        let collection = forward(&self.collection);
        let authority = forward(&self.authority);
        let owner = forward(&self.owner);
        let update_authority = forward(&self.update_authority);
        build_create_asset(
            self.asset.key,
            collection,
            authority,
            self.payer.key,
            owner,
            update_authority,
            self.system_program.key,
            args.name,
            args.uri,
        )
    }
}

} // verus!
