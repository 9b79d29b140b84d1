//! Burning an asset: closing its account for good.

use vstd::prelude::*;
use crate::account::{
    check_mutable, check_optional_mutable, check_pinned, first, forward, forwarded, load,
    load_optional, mutable_failure, optional_at, optional_failure, optional_mutable_failure,
    pinned_failure, required_failure, AccountHandle, Slot,
};
use crate::address::{Address, CORE_PROGRAM_ID, SYSTEM_PROGRAM_ID};
use crate::cpi::{build_burn, burn_call, Instruction, InstructionView};
use crate::error::OpsError;

verus! {

/// The accounts of `burn_asset`, in the order the instruction declares
/// them.
#[derive(Clone, Copy, Debug, PartialEq, Eq)]
pub struct BurnAsset {
    /// Pays the fees. Signs; mutable.
    pub payer: AccountHandle,
    /// The owner of the asset or a delegate of the owner, if any. Signs.
    pub authority: Option<AccountHandle>,
    /// The asset. Mutable.
    pub asset: AccountHandle,
    /// The collection the asset belongs to, if any. Mutable.
    pub collection: Option<AccountHandle>,
    /// The native account-creation program.
    pub system_program: AccountHandle,
    /// The Core Asset Program.
    pub mpl_core_program: AccountHandle,
}

impl BurnAsset {
    /// How many accounts the instruction declares.
    pub open spec fn declared() -> int {
        6
    }

    /// The accounts as their positions give them.
    pub open spec fn resolved(program_id: Address, accounts: Seq<AccountHandle>) -> BurnAsset {
        BurnAsset {
            payer: accounts[0],
            authority: optional_at(program_id, accounts, 1),
            asset: accounts[2],
            collection: optional_at(program_id, accounts, 3),
            system_program: accounts[4],
            mpl_core_program: accounts[5],
        }
    }

    /// The first failure in loading the accounts one by one, if any.
    pub open spec fn load_failure(program_id: Address, accounts: Seq<AccountHandle>) -> Option<
        OpsError,
    > {
        first(
            required_failure(accounts, 0, Slot::Signer),
            first(
                optional_failure(program_id, accounts, 1, Slot::Signer),
                first(
                    required_failure(accounts, 2, Slot::Unchecked),
                    first(
                        optional_failure(program_id, accounts, 3, Slot::Unchecked),
                        first(
                            required_failure(accounts, 4, Slot::SystemProgram),
                            required_failure(accounts, 5, Slot::Unchecked),
                        ),
                    ),
                ),
            ),
        )
    }

    /// The first constraint that the loaded accounts break, if any.
    pub open spec fn constraint_failure(self) -> Option<OpsError> {
        first(
            mutable_failure(self.payer),
            first(
                mutable_failure(self.asset),
                first(
                    optional_mutable_failure(self.collection),
                    pinned_failure(self.mpl_core_program),
                ),
            ),
        )
    }

    /// What the instruction makes of the accounts it is given: the loaded
    /// accounts, or the first failure, loading before constraints.
    pub open spec fn accepted(program_id: Address, accounts: Seq<AccountHandle>) -> Result<
        BurnAsset,
        OpsError,
    > {
        match first(
            Self::load_failure(program_id, accounts),
            Self::resolved(program_id, accounts).constraint_failure(),
        ) {
            Some(e) => Err(e),
            None => Ok(Self::resolved(program_id, accounts)),
        }
    }

    /// Everything the instruction demands of its accounts before it acts.
    pub open spec fn valid(self) -> bool {
        &&& self.payer.is_signer
        &&& self.payer.is_writable
        &&& self.authority matches Some(a) ==> a.is_signer
        &&& self.asset.is_writable
        &&& self.collection matches Some(c) ==> c.is_writable
        &&& self.system_program.key == SYSTEM_PROGRAM_ID
        &&& self.system_program.executable
        &&& self.mpl_core_program.key == CORE_PROGRAM_ID
    }

    /// The accounts are accepted exactly when there are as many as the
    /// instruction declares and they meet everything it demands of them.
    pub proof fn accepted_exactly_when_valid(program_id: Address, accounts: Seq<AccountHandle>)
        ensures
            Self::accepted(program_id, accounts) is Ok <==> accounts.len() >= Self::declared()
                && Self::resolved(program_id, accounts).valid(),
    {
    }

    /// The call that the instruction makes on these accounts.
    pub open spec fn outbound(self) -> InstructionView {
        burn_call(
            self.asset.key,
            forwarded(self.collection),
            self.payer.key,
            forwarded(self.authority),
            Some(self.system_program.key),
        )
    }

    /// Loads and checks the accounts of the instruction.
    pub fn try_accounts(program_id: &Address, accounts: &[AccountHandle]) -> (r: Result<
        BurnAsset,
        OpsError,
    >)
        ensures
            r == Self::accepted(*program_id, accounts@),
            r matches Ok(loaded) ==> loaded.valid(),
    {
        let payer = load(accounts, 0, Slot::Signer)?;
        let authority = load_optional(program_id, accounts, 1, Slot::Signer)?;
        let asset = load(accounts, 2, Slot::Unchecked)?;
        let collection = load_optional(program_id, accounts, 3, Slot::Unchecked)?;
        let system_program = load(accounts, 4, Slot::SystemProgram)?;
        let mpl_core_program = load(accounts, 5, Slot::Unchecked)?;
        check_mutable(&payer)?;
        check_mutable(&asset)?;
        check_optional_mutable(&collection)?;
        check_pinned(&mpl_core_program)?;
        Ok(BurnAsset { payer, authority, asset, collection, system_program, mpl_core_program })
    }

    /// The call that burns the asset: every account that was supplied is
    /// passed on, every one that was not is passed as absent. The native
    /// account-creation program is always passed on.
    pub fn burn_asset(&self) -> (call: Instruction)
        requires
            self.valid(),
        ensures
            call@ == self.outbound(),
    {
        let collection = forward(&self.collection);
        let authority = forward(&self.authority);
        build_burn(
            self.asset.key,
            collection,
            self.payer.key,
            authority,
            Some(self.system_program.key),
        )
    }
}

} // verus!
