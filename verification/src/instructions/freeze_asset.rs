//! Freezing an asset, so that it cannot be transferred.

use vstd::prelude::*;
use crate::account::{
    check_mutable, check_optional_mutable, check_pinned, first, forward, forwarded, load,
    load_optional, mutable_failure, optional_at, optional_failure, optional_mutable_failure,
    pinned_failure, required_failure, AccountHandle, Slot,
};
use crate::address::{Address, CORE_PROGRAM_ID, SYSTEM_PROGRAM_ID};
use crate::cpi::{build_freeze, freeze_call, Instruction, InstructionView, ManagedBy};
use crate::error::OpsError;

verus! {

/// The accounts of `freeze_asset`, in the order the instruction declares
/// them.
#[derive(Clone, Copy, Debug, PartialEq, Eq)]
pub struct FreezeAsset {
    /// Pays for any growth of the asset account. Signs; mutable.
    pub payer: AccountHandle,
    /// The current owner of the asset, who must countersign. Signs.
    pub owner: AccountHandle,
    /// The update authority of the asset, if supplied. Signs.
    pub update_authority: Option<AccountHandle>,
    /// The asset. Mutable.
    pub asset: AccountHandle,
    /// The collection the asset belongs to, if any. Mutable.
    pub collection: Option<AccountHandle>,
    /// The native account-creation program.
    pub system_program: AccountHandle,
    /// The Core Asset Program.
    pub mpl_core_program: AccountHandle,
}

impl FreezeAsset {
    /// How many accounts the instruction declares.
    pub open spec fn declared() -> int {
        7
    }

    /// The accounts as their positions give them.
    pub open spec fn resolved(program_id: Address, accounts: Seq<AccountHandle>) -> FreezeAsset {
        FreezeAsset {
            payer: accounts[0],
            owner: accounts[1],
            update_authority: optional_at(program_id, accounts, 2),
            asset: accounts[3],
            collection: optional_at(program_id, accounts, 4),
            system_program: accounts[5],
            mpl_core_program: accounts[6],
        }
    }

    /// The first failure in loading the accounts one by one, if any.
    pub open spec fn load_failure(program_id: Address, accounts: Seq<AccountHandle>) -> Option<
        OpsError,
    > {
        first(
            required_failure(accounts, 0, Slot::Signer),
            first(
                required_failure(accounts, 1, Slot::Signer),
                first(
                    optional_failure(program_id, accounts, 2, Slot::Signer),
                    first(
                        required_failure(accounts, 3, Slot::Unchecked),
                        first(
                            optional_failure(program_id, accounts, 4, Slot::Unchecked),
                            first(
                                required_failure(accounts, 5, Slot::SystemProgram),
                                required_failure(accounts, 6, Slot::Unchecked),
                            ),
                        ),
                    ),
                ),
            ),
        )
    }

    /// The first constraint that the loaded accounts break, if any.
    pub open spec fn constraint_failure(self) -> Option<OpsError> {
        first(
            mutable_failure(self.payer),
            first(
                mutable_failure(self.asset),
                first(
                    optional_mutable_failure(self.collection),
                    pinned_failure(self.mpl_core_program),
                ),
            ),
        )
    }

    /// What the instruction makes of the accounts it is given: the loaded
    /// accounts, or the first failure, loading before constraints.
    pub open spec fn accepted(program_id: Address, accounts: Seq<AccountHandle>) -> Result<
        FreezeAsset,
        OpsError,
    > {
        match first(
            Self::load_failure(program_id, accounts),
            Self::resolved(program_id, accounts).constraint_failure(),
        ) {
            Some(e) => Err(e),
            None => Ok(Self::resolved(program_id, accounts)),
        }
    }

    /// Everything the instruction demands of its accounts before it acts.
    pub open spec fn valid(self) -> bool {
        &&& self.payer.is_signer
        &&& self.payer.is_writable
        &&& self.owner.is_signer
        &&& self.update_authority matches Some(a) ==> a.is_signer
        &&& self.asset.is_writable
        &&& self.collection matches Some(c) ==> c.is_writable
        &&& self.system_program.key == SYSTEM_PROGRAM_ID
        &&& self.system_program.executable
        &&& self.mpl_core_program.key == CORE_PROGRAM_ID
    }

    /// The accounts are accepted exactly when there are as many as the
    /// instruction declares and they meet everything it demands of them.
    pub proof fn accepted_exactly_when_valid(program_id: Address, accounts: Seq<AccountHandle>)
        ensures
            Self::accepted(program_id, accounts) is Ok <==> accounts.len() >= Self::declared()
                && Self::resolved(program_id, accounts).valid(),
    {
    }

    /// The call that the instruction makes on these accounts.
    pub open spec fn outbound(self) -> InstructionView {
        freeze_call(
            self.asset.key,
            forwarded(self.collection),
            self.payer.key,
            forwarded(self.update_authority),
            self.system_program.key,
            true,
            ManagedBy::UpdateAuthority,
        )
    }

    /// Loads and checks the accounts of the instruction.
    pub fn try_accounts(program_id: &Address, accounts: &[AccountHandle]) -> (r: Result<
        FreezeAsset,
        OpsError,
    >)
        ensures
            r == Self::accepted(*program_id, accounts@),
            r matches Ok(loaded) ==> loaded.valid(),
    {
        let payer = load(accounts, 0, Slot::Signer)?;
        let owner = load(accounts, 1, Slot::Signer)?;
        let update_authority = load_optional(program_id, accounts, 2, Slot::Signer)?;
        let asset = load(accounts, 3, Slot::Unchecked)?;
        let collection = load_optional(program_id, accounts, 4, Slot::Unchecked)?;
        let system_program = load(accounts, 5, Slot::SystemProgram)?;
        let mpl_core_program = load(accounts, 6, Slot::Unchecked)?;
        check_mutable(&payer)?;
        check_mutable(&asset)?;
        check_optional_mutable(&collection)?;
        check_pinned(&mpl_core_program)?;
        Ok(
            FreezeAsset {
                payer,
                owner,
                update_authority,
                asset,
                collection,
                system_program,
                mpl_core_program,
            },
        )
    }

    /// The call that attaches a transfer lock to the asset, frozen, and
    /// managed by the asset's update authority. The update authority is
    /// the authority of the call when it was supplied; otherwise the call
    /// names none. The owner countersigns the instruction and is not
    /// passed on.
    pub fn freeze_asset(&self) -> (call: Instruction)
        requires
            self.valid(),
        ensures
            call@ == self.outbound(),
    {
        let collection = forward(&self.collection);
        let update_authority = forward(&self.update_authority);
        build_freeze(
            self.asset.key,
            collection,
            self.payer.key,
            update_authority,
            self.system_program.key,
            true,
            ManagedBy::UpdateAuthority,
        )
    }
}

} // verus!
